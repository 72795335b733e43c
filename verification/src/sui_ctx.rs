//! The transaction domain model: the closed set of types describing one
//! ledger transaction (its kind, execution commands, touched objects,
//! emitted events and call trace) with read-only query operations, and the
//! per-invocation context that wraps at most one such transaction.
//!
//! Each data type has a mathematical model (its deep view); the query
//! contracts are stated over those models. Loading from the host's raw
//! transaction shape is a fixed, lossy best-effort mapping: fields the raw
//! shape carries are copied, the rest take neutral defaults.

use vstd::prelude::*;

verus! {

/// A unique identifier representing a transaction epoch.
pub type EpochId = u64;

/// An address on the ledger, as text.
pub type SuiAddress = String;

/// A reference to an object, as text.
pub type ObjectRef = String;

/// A unique object identifier, as text.
pub type ObjectID = String;

/// A struct type's identity, as text.
pub type StructTag = String;

/// The timestamp of a checkpoint.
pub type CheckpointTimestamp = u64;

/// A string identifier for modules and functions.
#[derive(Clone)]
pub struct Identifier(pub String);

/// An identifier string used in the move-call index.
#[derive(Clone)]
pub struct IdentStr(pub String);

/// A specific round of randomness generation.
#[derive(Clone)]
pub struct RandomnessRound(pub u64);

/// The protocol version as a plain integer.
#[derive(Clone)]
pub struct ProtocolVersion(pub u64);

/// A sequence number: a lamport version counter.
#[derive(Clone)]
pub struct SequenceNumber(pub u64);

/// A cryptographic digest of 32 bytes.
#[derive(Clone)]
pub struct Digest(pub [u8; 32]);

/// A digest agreed on across nodes in consensus commits.
#[derive(Clone)]
pub struct ConsensusCommitDigest(pub Digest);

/// The digest that identifies one transaction.
#[derive(Clone)]
pub struct TransactionDigest(pub Digest);

impl DeepView for Identifier {
    type V = Seq<char>;

    open spec fn deep_view(&self) -> Seq<char> {
        self.0@
    }
}

impl DeepView for IdentStr {
    type V = Seq<char>;

    open spec fn deep_view(&self) -> Seq<char> {
        self.0@
    }
}

/// A string identifier of an object.
#[derive(Clone)]
pub struct ObjectId {
    pub id: String,
}

impl DeepView for ObjectId {
    type V = Seq<char>;

    open spec fn deep_view(&self) -> Seq<char> {
        self.id@
    }
}

/// An object carried with its data: an id and the raw bytes.
#[derive(Clone)]
pub struct DataObject {
    pub id: String,
    pub data: Vec<u8>,
}

/// Mathematical shape of a [`DataObject`].
pub struct DataObjectV {
    pub id: Seq<char>,
    pub data: Seq<u8>,
}

impl DeepView for DataObject {
    type V = DataObjectV;

    open spec fn deep_view(&self) -> DataObjectV {
        DataObjectV { id: self.id@, data: self.data@ }
    }
}

/// One observed state transition of an object within one transaction.
/// Creation and mutation carry the object's data; the other transitions
/// carry only the id.
#[derive(Clone)]
pub enum Object {
    CreatedObject(DataObject),
    MutatedObject(DataObject),
    DeletedObject(ObjectId),
    WrappedObject(ObjectId),
    UnwrappedObject(ObjectId),
    UnwrappedThenDeletedObject(ObjectId),
    OtherObject(ObjectId),
}

/// Mathematical shape of an [`Object`].
pub enum ObjectV {
    CreatedObject(DataObjectV),
    MutatedObject(DataObjectV),
    DeletedObject(Seq<char>),
    WrappedObject(Seq<char>),
    UnwrappedObject(Seq<char>),
    UnwrappedThenDeletedObject(Seq<char>),
    OtherObject(Seq<char>),
}

impl DeepView for Object {
    type V = ObjectV;

    open spec fn deep_view(&self) -> ObjectV {
        match self {
            Object::CreatedObject(d) => ObjectV::CreatedObject(d.deep_view()),
            Object::MutatedObject(d) => ObjectV::MutatedObject(d.deep_view()),
            Object::DeletedObject(o) => ObjectV::DeletedObject(o.deep_view()),
            Object::WrappedObject(o) => ObjectV::WrappedObject(o.deep_view()),
            Object::UnwrappedObject(o) => ObjectV::UnwrappedObject(o.deep_view()),
            Object::UnwrappedThenDeletedObject(o) => ObjectV::UnwrappedThenDeletedObject(
                o.deep_view(),
            ),
            Object::OtherObject(o) => ObjectV::OtherObject(o.deep_view()),
        }
    }
}

/// The gas-related data of a transaction.
#[derive(Clone)]
pub struct GasData {
    pub payment: Vec<Object>,
    pub owner: SuiAddress,
    pub price: u64,
}

/// When a transaction stops being signable.
#[derive(Clone)]
pub enum TransactionExpiration {
    /// The transaction never expires.
    NoExpiration,
    /// Validators sign only while the current epoch is at most this one.
    Epoch(EpochId),
}

/// An argument position of a programmable command.
#[derive(Clone, Copy)]
pub enum Argument {
    GasCoin,
    Input(u16),
    Result(u16),
    NestedResult(u16, u16),
}

impl DeepView for Argument {
    type V = Argument;

    open spec fn deep_view(&self) -> Argument {
        *self
    }
}

/// The basic and compound types of the underlying virtual machine.
pub enum TypeTag {
    Bool,
    U8,
    U64,
    U128,
    Address,
    Signer,
    Vector(Box<TypeTag>),
    Struct(Box<StructTag>),
    U16,
    U32,
    U256,
}

/// Mathematical shape of a [`TypeTag`].
pub enum TypeTagV {
    Bool,
    U8,
    U64,
    U128,
    Address,
    Signer,
    Vector(Box<TypeTagV>),
    Struct(Seq<char>),
    U16,
    U32,
    U256,
}

/// The deep view of a type tag, spelled out recursively.
pub open spec fn type_tag_v(t: TypeTag) -> TypeTagV
    decreases t,
{
    match t {
        TypeTag::Bool => TypeTagV::Bool,
        TypeTag::U8 => TypeTagV::U8,
        TypeTag::U64 => TypeTagV::U64,
        TypeTag::U128 => TypeTagV::U128,
        TypeTag::Address => TypeTagV::Address,
        TypeTag::Signer => TypeTagV::Signer,
        TypeTag::Vector(b) => TypeTagV::Vector(Box::new(type_tag_v(*b))),
        TypeTag::Struct(s) => TypeTagV::Struct((*s)@),
        TypeTag::U16 => TypeTagV::U16,
        TypeTag::U32 => TypeTagV::U32,
        TypeTag::U256 => TypeTagV::U256,
    }
}

impl DeepView for TypeTag {
    type V = TypeTagV;

    open spec fn deep_view(&self) -> TypeTagV {
        type_tag_v(*self)
    }
}

/// An event emitted during a transaction.
#[derive(Clone)]
pub struct Event {
    /// The package the event came from.
    pub package_id: ObjectID,
    pub transaction_module: Identifier,
    /// Who sent the transaction that emitted it.
    pub sender: SuiAddress,
    /// The event's type.
    pub type_: StructTag,
    /// The event's payload bytes.
    pub contents: Vec<u8>,
}

/// Mathematical shape of an [`Event`].
pub struct EventV {
    pub package_id: Seq<char>,
    pub transaction_module: Seq<char>,
    pub sender: Seq<char>,
    pub type_: Seq<char>,
    pub contents: Seq<u8>,
}

impl DeepView for Event {
    type V = EventV;

    open spec fn deep_view(&self) -> EventV {
        EventV {
            package_id: self.package_id@,
            transaction_module: self.transaction_module.deep_view(),
            sender: self.sender@,
            type_: self.type_@,
            contents: self.contents@,
        }
    }
}

/// An event together with its envelope data.
#[derive(Clone)]
pub struct EventEnvelope {
    /// UTC timestamp in milliseconds since the epoch.
    pub timestamp: u64,
    /// Digest of the transaction the event belongs to.
    pub tx_digest: TransactionDigest,
    /// Consecutive per-transaction counter of this event.
    pub event_num: u64,
    /// The event itself.
    pub event: Event,
    /// The event's payload rendered as text.
    pub parsed_json: String,
}

/// One step of the call stack recorded while a transaction ran.
#[derive(Clone)]
pub struct Calltrace {
    pub seq: u64,
    pub depth: u32,
    pub call_type: u8,
    pub gas_used: u64,
    pub transaction_module: Option<String>,
    pub function: String,
}

/// Mathematical shape of a [`Calltrace`].
pub struct CalltraceV {
    pub seq: u64,
    pub depth: u32,
    pub call_type: u8,
    pub gas_used: u64,
    pub transaction_module: Option<Seq<char>>,
    pub function: Seq<char>,
}

impl DeepView for Calltrace {
    type V = CalltraceV;

    open spec fn deep_view(&self) -> CalltraceV {
        CalltraceV {
            seq: self.seq,
            depth: self.depth,
            call_type: self.call_type,
            gas_used: self.gas_used,
            transaction_module: self.transaction_module.deep_view(),
            function: self.function@,
        }
    }
}

/// An object argument of a call: owned, shared, or received.
#[derive(Clone)]
pub enum ObjectArg {
    ImmOrOwnedObject(Object),
    SharedObject { id: ObjectID, initial_shared_version: u64, mutable: bool },
    Receiving(ObjectRef),
}

/// Mathematical shape of an [`ObjectArg`].
pub enum ObjectArgV {
    ImmOrOwnedObject(ObjectV),
    SharedObject { id: Seq<char>, initial_shared_version: u64, mutable: bool },
    Receiving(Seq<char>),
}

impl DeepView for ObjectArg {
    type V = ObjectArgV;

    open spec fn deep_view(&self) -> ObjectArgV {
        match self {
            ObjectArg::ImmOrOwnedObject(o) => ObjectArgV::ImmOrOwnedObject(o.deep_view()),
            ObjectArg::SharedObject { id, initial_shared_version, mutable } => {
                ObjectArgV::SharedObject {
                    id: id@,
                    initial_shared_version: *initial_shared_version,
                    mutable: *mutable,
                }
            },
            ObjectArg::Receiving(r) => ObjectArgV::Receiving(r@),
        }
    }
}

/// One input of a programmable transaction: plain bytes or an object.
#[derive(Clone)]
pub enum CallArg {
    Pure(Vec<u8>),
    Object(ObjectArg),
}

/// Mathematical shape of a [`CallArg`].
pub enum CallArgV {
    Pure(Seq<u8>),
    Object(ObjectArgV),
}

impl DeepView for CallArg {
    type V = CallArgV;

    open spec fn deep_view(&self) -> CallArgV {
        match self {
            CallArg::Pure(bytes) => CallArgV::Pure(bytes@),
            CallArg::Object(o) => CallArgV::Object(o.deep_view()),
        }
    }
}

/// A command not mapped to a specific operation.
#[derive(Clone)]
pub struct OtherCommand {
    pub inner_seq: u64,
}

/// A command that publishes packages, with its object dependencies.
#[derive(Clone)]
pub struct PublishCommand {
    pub seq: u64,
    pub deps: Vec<Object>,
    pub inner_sec: u64,
}

/// Mathematical shape of a [`PublishCommand`].
pub struct PublishCommandV {
    pub seq: u64,
    pub deps: Seq<ObjectV>,
    pub inner_sec: u64,
}

impl DeepView for PublishCommand {
    type V = PublishCommandV;

    open spec fn deep_view(&self) -> PublishCommandV {
        PublishCommandV { seq: self.seq, deps: self.deps.deep_view(), inner_sec: self.inner_sec }
    }
}

/// A command that upgrades a published package.
#[derive(Clone)]
pub struct UpgradeCommand {
    pub seq: u64,
    pub deps: Vec<Object>,
    pub object: Object,
    pub argument: Argument,
    pub inner_seq: u64,
}

/// Mathematical shape of an [`UpgradeCommand`].
pub struct UpgradeCommandV {
    pub seq: u64,
    pub deps: Seq<ObjectV>,
    pub object: ObjectV,
    pub argument: Argument,
    pub inner_seq: u64,
}

impl DeepView for UpgradeCommand {
    type V = UpgradeCommandV;

    open spec fn deep_view(&self) -> UpgradeCommandV {
        UpgradeCommandV {
            seq: self.seq,
            deps: self.deps.deep_view(),
            object: self.object.deep_view(),
            argument: self.argument,
            inner_seq: self.inner_seq,
        }
    }
}

/// A call of a function of a published module.
pub struct ProgrammableMoveCall {
    /// The package holding the module and function.
    pub package: ObjectID,
    /// The module holding the function.
    pub module: Identifier,
    /// The function called.
    pub function: Identifier,
    /// The call's type arguments.
    pub type_arguments: Vec<TypeTag>,
    /// The call's arguments.
    pub arguments: Vec<Argument>,
}

/// Mathematical shape of a [`ProgrammableMoveCall`].
pub struct ProgrammableMoveCallV {
    pub package: Seq<char>,
    pub module: Seq<char>,
    pub function: Seq<char>,
    pub type_arguments: Seq<TypeTagV>,
    pub arguments: Seq<Argument>,
}

impl DeepView for ProgrammableMoveCall {
    type V = ProgrammableMoveCallV;

    open spec fn deep_view(&self) -> ProgrammableMoveCallV {
        ProgrammableMoveCallV {
            package: self.package@,
            module: self.module.deep_view(),
            function: self.function.deep_view(),
            type_arguments: self.type_arguments.deep_view(),
            arguments: self.arguments@,
        }
    }
}

/// One executable step of a programmable transaction.
pub enum Command {
    Publish(PublishCommand),
    Upgrade(UpgradeCommand),
    MoveCall(Box<ProgrammableMoveCall>),
    TransferObjects(Vec<Argument>, Argument),
    SplitCoins(Argument, Vec<Argument>),
    MergeCoins(Argument, Vec<Argument>),
    MakeMoveVec(Option<TypeTag>, Vec<Argument>),
    Other(OtherCommand),
}

/// Mathematical shape of a [`Command`].
pub enum CommandV {
    Publish(PublishCommandV),
    Upgrade(UpgradeCommandV),
    MoveCall(ProgrammableMoveCallV),
    TransferObjects(Seq<Argument>, Argument),
    SplitCoins(Argument, Seq<Argument>),
    MergeCoins(Argument, Seq<Argument>),
    MakeMoveVec(Option<TypeTagV>, Seq<Argument>),
    Other(u64),
}

impl DeepView for Command {
    type V = CommandV;

    open spec fn deep_view(&self) -> CommandV {
        match self {
            Command::Publish(p) => CommandV::Publish(p.deep_view()),
            Command::Upgrade(u) => CommandV::Upgrade(u.deep_view()),
            Command::MoveCall(m) => CommandV::MoveCall((**m).deep_view()),
            Command::TransferObjects(args, arg) => CommandV::TransferObjects(args@, *arg),
            Command::SplitCoins(arg, args) => CommandV::SplitCoins(*arg, args@),
            Command::MergeCoins(arg, args) => CommandV::MergeCoins(*arg, args@),
            Command::MakeMoveVec(t, args) => CommandV::MakeMoveVec(
                match t {
                    Some(tag) => Some(tag.deep_view()),
                    None => None,
                },
                args@,
            ),
            Command::Other(o) => CommandV::Other(o.inner_seq),
        }
    }
}

/// The kind of command a query filters for.
#[derive(Clone, Copy)]
pub enum CommandType {
    Publish,
    Upgrade,
}

/// A transaction that executes programmable logic: its inputs, its
/// commands in execution order, the recorded call trace, and the events
/// in emission order.
pub struct ProgrammableTransaction {
    pub inputs: Vec<CallArg>,
    pub commands: Vec<Command>,
    pub calltraces: Vec<Calltrace>,
    pub events: Vec<Event>,
}

/// A change of epoch; superseded by the end-of-epoch transaction list.
#[derive(Clone)]
pub struct ChangeEpoch {
    /// The epoch about to begin.
    pub epoch: EpochId,
    /// The protocol version in effect in the new epoch.
    pub protocol_version: ProtocolVersion,
    /// Total gas charged for storage during the epoch.
    pub storage_charge: u64,
    /// Total gas charged for computation during the epoch.
    pub computation_charge: u64,
    /// Storage rebate refunded to the transaction senders.
    pub storage_rebate: u64,
    /// The non-refundable storage fee.
    pub non_refundable_storage_fee: u64,
    /// Unix timestamp at which the epoch started.
    pub epoch_start_timestamp_ms: u64,
    /// System packages written before the new epoch starts, each with the
    /// version it upgrades to, its serialized modules, and its transitive
    /// dependencies.
    pub system_packages: Vec<(SequenceNumber, Vec<Vec<u8>>, Vec<String>)>,
}

/// Who may use an object, and how.
#[derive(Clone)]
pub enum Owner {
    /// Exclusively owned by one address; mutable.
    AddressOwner(SuiAddress),
    /// Exclusively owned by one object; mutable.
    ObjectOwner(SuiAddress),
    /// Shared and mutable, usable by any address.
    Shared { initial_shared_version: SequenceNumber },
    /// Immutable; ownership does not matter.
    Immutable,
}

/// Where a struct or module was first defined.
#[derive(Clone)]
pub struct TypeOrigin {
    pub module_name: String,
    pub struct_name: String,
    pub package: ObjectID,
}

/// Which upgraded version of a dependency a package uses.
#[derive(Clone)]
pub struct UpgradeInfo {
    /// Id of the upgraded package.
    pub upgraded_id: ObjectID,
    /// Version of the upgraded package.
    pub upgraded_version: SequenceNumber,
}

/// A published package: its modules and the tables that track where its
/// types were first defined and which dependency versions it links.
#[derive(Clone)]
pub struct MovePackage {
    pub id: ObjectID,
    /// One greater than the version of the package it upgrades, if any;
    /// framework packages instead keep one id across all versions.
    pub version: SequenceNumber,
    pub module_map: std::collections::BTreeMap<String, Vec<u8>>,
    pub type_origin_table: Vec<TypeOrigin>,
    pub linkage_table: std::collections::BTreeMap<ObjectID, UpgradeInfo>,
}

/// A typed object governed by a published module.
pub struct MoveObject {
    /// The object's type; immutable.
    pub type_: MoveObjectType,
    /// Deprecated; transferability is now derived from the type.
    pub has_public_transfer: bool,
    /// Lamport version: grows each time a transaction mutates the object.
    pub version: SequenceNumber,
    /// The object's serialized contents.
    pub contents: Vec<u8>,
}

/// The type of an object, one abstraction layer above the raw cases.
pub struct MoveObjectType(pub MoveObjectType_);

/// The raw cases of an object's type, singling coin types out.
pub enum MoveObjectType_ {
    /// Any type that is not a coin.
    Other(StructTag),
    /// The native gas coin.
    GasCoin,
    /// A record of a staked native coin.
    StakedSui,
    /// A coin of some non-native currency.
    Coin(TypeTag),
}

/// Object data: a typed object or a whole package.
pub enum Data {
    /// An object whose governing logic lives in a published module.
    Move(MoveObject),
    /// A package: a map from module name to serialized module bytes.
    Package(MovePackage),
}

/// The ways an object enters a transaction as an input.
#[derive(Clone)]
pub enum InputObjectKind {
    /// A package; immutable.
    MovePackage(ObjectID),
    /// An object, immutable or owned and mutable.
    ImmOrOwnedMoveObject(ObjectRef),
    /// A shared object, possibly asked for mutably.
    SharedMoveObject { id: ObjectID, initial_shared_version: SequenceNumber, mutable: bool },
}

/// An object present at genesis.
pub enum GenesisObject {
    RawObject { data: Data, owner: Owner },
}

/// The initial transaction: the objects that set up the initial state.
pub struct GenesisTransaction {
    pub objects: Vec<GenesisObject>,
}

/// The opening step of committing consensus output.
#[derive(Clone)]
pub struct ConsensusCommitPrologue {
    /// Epoch of the commit.
    pub epoch: u64,
    /// Consensus round of the commit.
    pub round: u64,
    /// Unix timestamp from consensus.
    pub commit_timestamp_ms: CheckpointTimestamp,
}

/// The opening step of committing consensus output, with the digest of
/// the consensus output included.
#[derive(Clone)]
pub struct ConsensusCommitPrologueV2 {
    /// Epoch of the commit.
    pub epoch: u64,
    /// Consensus round of the commit.
    pub round: u64,
    /// Unix timestamp from consensus.
    pub commit_timestamp_ms: CheckpointTimestamp,
    /// Digest of the consensus output.
    pub consensus_commit_digest: ConsensusCommitDigest,
}

/// A JSON web key active for authentication, with the epoch that last
/// validated it.
#[derive(Clone)]
pub struct ActiveJwk {
    pub iss: String,
    pub kid: String,
    pub jwk_ty: String,
    pub jwk_n: String,
    pub jwk_alg: String,
    /// The most recent epoch that validated the key.
    pub epoch: u64,
}

/// An update of the authenticator state.
#[derive(Clone)]
pub struct AuthenticatorStateUpdate {
    /// Epoch of the update.
    pub epoch: u64,
    /// Consensus round of the update.
    pub round: u64,
    /// Newly active keys.
    pub new_active_jwks: Vec<ActiveJwk>,
    /// The version at which the authenticator object was first shared.
    pub authenticator_obj_initial_shared_version: SequenceNumber,
}

/// Expiry of authenticator state below a minimum epoch.
#[derive(Clone)]
pub struct AuthenticatorStateExpire {
    /// Keys of a lower epoch than this expire.
    pub min_epoch: u64,
    /// The version at which the authenticator object was first shared.
    pub authenticator_obj_initial_shared_version: SequenceNumber,
}

/// An update of the randomness state.
#[derive(Clone)]
pub struct RandomnessStateUpdate {
    /// Epoch of the update.
    pub epoch: u64,
    /// Randomness round of the update.
    pub randomness_round: RandomnessRound,
    /// The fresh random bytes.
    pub random_bytes: Vec<u8>,
    /// The version at which the randomness object was first shared.
    pub randomness_obj_initial_shared_version: SequenceNumber,
}

/// The transactions allowed to run at the end of an epoch.
#[derive(Clone)]
pub enum EndOfEpochTransactionKind {
    /// Moves to the next epoch.
    ChangeEpoch(ChangeEpoch),
    /// Creates a fresh authenticator state.
    AuthenticatorStateCreate,
    /// Expires part of the authenticator state.
    AuthenticatorStateExpire(AuthenticatorStateExpire),
    /// Creates a fresh source of randomness for the next epoch.
    RandomnessStateCreate,
    /// Establishes a deny list.
    DenyListStateCreate,
}

/// The kind of a transaction: exactly one variant is active, each with a
/// fully-typed payload.
pub enum TransactionKind {
    /// Executes programmable logic.
    ProgrammableTransaction(ProgrammableTransaction),
    /// Changes the epoch; superseded by `EndOfEpochTransaction`.
    ChangeEpoch(ChangeEpoch),
    /// The initial transaction that sets up the system state.
    Genesis(GenesisTransaction),
    /// Opens a consensus commit.
    ConsensusCommitPrologue(ConsensusCommitPrologue),
    /// Updates the authenticator state.
    AuthenticatorStateUpdate(AuthenticatorStateUpdate),
    /// The transactions allowed to run at the end of the epoch.
    EndOfEpochTransaction(Vec<EndOfEpochTransactionKind>),
    /// Updates the randomness state.
    RandomnessStateUpdate(RandomnessStateUpdate),
    /// Opens a consensus commit, with the consensus output digest.
    ConsensusCommitPrologueV2(ConsensusCommitPrologueV2),
    /// Any kind not mapped above.
    Other(),
}

/// One ledger transaction: its kind, signers, gas accounting, the objects
/// it touches, its classification flags and its execution outcome.
pub struct Transaction {
    /// Kind of the transaction.
    pub kind: TransactionKind,
    /// The signers' addresses.
    pub signers: Vec<String>,
    /// Gas data.
    pub data: GasData,
    /// Address of the gas owner.
    pub gas_owner: String,
    /// Gas payment objects.
    pub gas: Vec<Object>,
    /// Price of gas per unit.
    pub gas_price: u64,
    /// Total gas budget.
    pub gas_budget: u64,
    /// When the transaction stops being signable.
    pub expiration: TransactionExpiration,
    /// Whether the transaction touches a shared object.
    pub contains_shared_object: bool,
    /// The shared object among the inputs.
    pub shared_input_objects: Object,
    /// The move calls made, as `(package, module, function)`.
    pub move_calls: Vec<(ObjectID, IdentStr, IdentStr)>,
    /// The objects receiving output from the transaction.
    pub receiving_objects: Object,
    /// Whether this is a system transaction.
    pub is_system_tx: bool,
    /// Whether this is the genesis transaction.
    pub is_genesis_tx: bool,
    /// Whether this is an end-of-epoch transaction.
    pub is_end_of_epoch_tx: bool,
    /// Whether gas is paid by a sponsor.
    pub is_sponsored_tx: bool,
    /// Internal security counter.
    pub inner_sec: u64,
    /// Internal unique transaction identifier.
    pub inner_id: u64,
    /// Internal timestamp.
    pub inner_time: i64,
    /// The transaction's digest, as text.
    pub digest: String,
    /// Whether execution succeeded.
    pub success: bool,
    /// Gas spent in total.
    pub gas_used: u64,
    /// Gas spent on computation.
    pub gas_computation_cost: u64,
    /// Gas spent on storage.
    pub gas_storage_cost: u64,
}

/// Wraps a fresh object-id into the unmapped object transition.
fn new_other_object(id: String) -> (r: Object)
    ensures
        r.deep_view() == ObjectV::OtherObject(id@),
{
    Object::OtherObject(ObjectId { id })
}

/// Duplicates a byte vector.
fn copy_bytes(v: &Vec<u8>) -> (r: Vec<u8>)
    ensures
        r@ == v@,
{
    let mut r: Vec<u8> = Vec::new();
    let n = v.len();
    let mut i: usize = 0;
    while i < n
        invariant
            n == v@.len(),
            i <= n,
            r@ =~= v@.take(i as int),
        decreases n - i,
    {
        r.push(v[i]);
        proof {
            assert(r@ =~= v@.take(i + 1 as int));
        }
        i += 1;
    }
    proof {
        assert(v@.take(n as int) =~= v@);
    }
    r
}

/// A value that can be duplicated without changing its mathematical shape.
pub trait Duplicate: DeepView + Sized {
    /// An element-for-element duplicate of `self`.
    fn duplicate(&self) -> (r: Self)
        ensures
            r.deep_view() == self.deep_view(),
    ;
}

/// Duplicates a list one element at a time.
fn copy_list<T: Duplicate>(v: &Vec<T>) -> (r: Vec<T>)
    ensures
        r.deep_view() == v.deep_view(),
{
    let mut r: Vec<T> = Vec::new();
    let n = v.len();
    let mut i: usize = 0;
    proof {
        assert(v.deep_view().len() == v@.len());
    }
    while i < n
        invariant
            n == v@.len(),
            v.deep_view().len() == n,
            i <= n,
            r.deep_view() =~= v.deep_view().take(i as int),
        decreases n - i,
    {
        let ghost rv0 = r.deep_view();
        proof {
            assert(v.deep_view().take(i as int).len() == i);
            assert(r.deep_view().len() == i);
            assert(r@.len() == i);
        }
        let c = v[i].duplicate();
        r.push(c);
        proof {
            assert(r@[i as int] == c);
            assert(c.deep_view() == v@[i as int].deep_view());
            assert(r.deep_view()[i as int] == v.deep_view()[i as int]);
            assert(forall|j: int| 0 <= j < rv0.len() ==> #[trigger] r.deep_view()[j] == rv0[j]);
            assert(r.deep_view() =~= v.deep_view().take(i + 1 as int));
        }
        i += 1;
    }
    proof {
        assert(v.deep_view().take(n as int) =~= v.deep_view());
    }
    r
}

impl Duplicate for Object {
    fn duplicate(&self) -> (r: Self)
        ensures
            r.deep_view() == self.deep_view(),
    {
        match self {
            Object::CreatedObject(d) => Object::CreatedObject(
                DataObject { id: d.id.clone(), data: copy_bytes(&d.data) },
            ),
            Object::MutatedObject(d) => Object::MutatedObject(
                DataObject { id: d.id.clone(), data: copy_bytes(&d.data) },
            ),
            Object::DeletedObject(x) => Object::DeletedObject(ObjectId { id: x.id.clone() }),
            Object::WrappedObject(x) => Object::WrappedObject(ObjectId { id: x.id.clone() }),
            Object::UnwrappedObject(x) => Object::UnwrappedObject(ObjectId { id: x.id.clone() }),
            Object::UnwrappedThenDeletedObject(x) => Object::UnwrappedThenDeletedObject(
                ObjectId { id: x.id.clone() },
            ),
            Object::OtherObject(x) => Object::OtherObject(ObjectId { id: x.id.clone() }),
        }
    }
}

impl Duplicate for Calltrace {
    fn duplicate(&self) -> (r: Self)
        ensures
            r.deep_view() == self.deep_view(),
    {
        Calltrace {
            seq: self.seq,
            depth: self.depth,
            call_type: self.call_type,
            gas_used: self.gas_used,
            transaction_module: match &self.transaction_module {
                Some(m) => Some(m.clone()),
                None => None,
            },
            function: self.function.clone(),
        }
    }
}

impl Duplicate for Event {
    fn duplicate(&self) -> (r: Self)
        ensures
            r.deep_view() == self.deep_view(),
    {
        Event {
            package_id: self.package_id.clone(),
            transaction_module: Identifier(self.transaction_module.0.clone()),
            sender: self.sender.clone(),
            type_: self.type_.clone(),
            contents: copy_bytes(&self.contents),
        }
    }
}

impl Duplicate for CallArg {
    fn duplicate(&self) -> (r: Self)
        ensures
            r.deep_view() == self.deep_view(),
    {
        match self {
            CallArg::Pure(bytes) => CallArg::Pure(copy_bytes(bytes)),
            CallArg::Object(o) => CallArg::Object(
                match o {
                    ObjectArg::ImmOrOwnedObject(obj) => ObjectArg::ImmOrOwnedObject(
                        obj.duplicate(),
                    ),
                    ObjectArg::SharedObject { id, initial_shared_version, mutable } => {
                        ObjectArg::SharedObject {
                            id: id.clone(),
                            initial_shared_version: *initial_shared_version,
                            mutable: *mutable,
                        }
                    },
                    ObjectArg::Receiving(r2) => ObjectArg::Receiving(r2.clone()),
                },
            ),
        }
    }
}

impl Transaction {
    /// True exactly when the transaction executes programmable logic.
    pub fn is_programmable(&self) -> (r: bool)
        ensures
            r == (self.kind is ProgrammableTransaction),
    {
        match &self.kind {
            TransactionKind::ProgrammableTransaction(_) => true,
            _ => false,
        }
    }

    /// The recorded call trace: the programmable transaction's, or empty
    /// for every other kind.
    pub fn calltraces(&self) -> (r: Vec<Calltrace>)
        ensures
            r.deep_view() == match self.kind {
                TransactionKind::ProgrammableTransaction(pt) => pt.calltraces.deep_view(),
                _ => Seq::<CalltraceV>::empty(),
            },
    {
        match &self.kind {
            TransactionKind::ProgrammableTransaction(pt) => copy_list(&pt.calltraces),
            _ => Vec::new(),
        }
    }

    /// The emitted events: the programmable transaction's, in emission
    /// order, or empty for every other kind.
    pub fn events(&self) -> (r: Vec<Event>)
        ensures
            r.deep_view() == match self.kind {
                TransactionKind::ProgrammableTransaction(pt) => pt.events.deep_view(),
                _ => Seq::<EventV>::empty(),
            },
    {
        match &self.kind {
            TransactionKind::ProgrammableTransaction(pt) => copy_list(&pt.events),
            _ => Vec::new(),
        }
    }

    /// The inputs: the programmable transaction's, or empty for every
    /// other kind.
    pub fn inputs(&self) -> (r: Vec<CallArg>)
        ensures
            r.deep_view() == match self.kind {
                TransactionKind::ProgrammableTransaction(pt) => pt.inputs.deep_view(),
                _ => Seq::<CallArgV>::empty(),
            },
    {
        match &self.kind {
            TransactionKind::ProgrammableTransaction(pt) => copy_list(&pt.inputs),
            _ => Vec::new(),
        }
    }

    /// The commands matching the filter, in execution order. Only the
    /// publish filter selects anything yet: filtering for upgrades yields
    /// the empty list, as does every non-programmable kind.
    pub fn commands(&self, typ: CommandType) -> (r: Vec<Command>)
        ensures
            r.deep_view() == match self.kind {
                TransactionKind::ProgrammableTransaction(pt) => match typ {
                    CommandType::Publish => pt.commands.deep_view().filter(
                        |c: CommandV| c is Publish,
                    ),
                    CommandType::Upgrade => Seq::<CommandV>::empty(),
                },
                _ => Seq::<CommandV>::empty(),
            },
    {
        match &self.kind {
            TransactionKind::ProgrammableTransaction(pt) => match typ {
                CommandType::Publish => {
                    let cs = &pt.commands;
                    let ghost cv = cs.deep_view();
                    let ghost pred = |c: CommandV| c is Publish;
                    let mut r: Vec<Command> = Vec::new();
                    let n = cs.len();
                    let mut i: usize = 0;
                    proof {
                        reveal(Seq::filter);
                        assert(cv.len() == cs@.len());
                        assert(cv.take(0) =~= Seq::<CommandV>::empty());
                    }
                    while i < n
                        invariant
                            cv == cs.deep_view(),
                            pred == (|c: CommandV| c is Publish),
                            n == cs@.len(),
                            cv.len() == n,
                            i <= n,
                            r.deep_view() =~= cv.take(i as int).filter(pred),
                        decreases n - i,
                    {
                        let ghost rv0 = r.deep_view();
                        let ghost prefix = cv.take(i as int);
                        let ghost extended = cv.take(i + 1 as int);
                        proof {
                            reveal(Seq::filter);
                            assert(extended.drop_last() =~= prefix);
                            assert(extended.last() == cv[i as int]);
                        }
                        match &cs[i] {
                            Command::Publish(p) => {
                                let copied = PublishCommand {
                                    seq: p.seq,
                                    deps: copy_list(&p.deps),
                                    inner_sec: p.inner_sec,
                                };
                                r.push(Command::Publish(copied));
                                proof {
                                    assert(cv[i as int] is Publish);
                                    assert(extended.filter(pred) == prefix.filter(pred).push(
                                        cv[i as int],
                                    ));
                                    assert(r.deep_view()[rv0.len() as int] == cv[i as int]);
                                    assert(forall|j: int|
                                        0 <= j < rv0.len() ==> #[trigger] r.deep_view()[j]
                                            == rv0[j]);
                                    assert(r.deep_view() =~= extended.filter(pred));
                                }
                            },
                            _ => {
                                proof {
                                    assert(!pred(cv[i as int]));
                                    assert(extended.filter(pred) == prefix.filter(pred));
                                }
                            },
                        }
                        i += 1;
                    }
                    proof {
                        assert(cv.take(n as int) =~= cv);
                    }
                    r
                },
                CommandType::Upgrade => Vec::new(),
            },
            _ => Vec::new(),
        }
    }
}

/// What every field of the placeholder transaction holds: the unmapped
/// kind, the two fixed signer names, a gas price of 100 and budget of
/// 1000, and neutral defaults everywhere else.
pub open spec fn is_placeholder(t: Transaction) -> bool {
    &&& t.kind is Other
    &&& t.signers.deep_view() == seq!["Alice"@, "Bob"@]
    &&& t.data.payment@.len() == 0
    &&& t.data.owner@ == Seq::<char>::empty()
    &&& t.data.price == 100
    &&& t.gas_owner@ == "Alice"@
    &&& t.gas@.len() == 0
    &&& t.gas_price == 100
    &&& t.gas_budget == 1000
    &&& t.expiration is NoExpiration
    &&& !t.contains_shared_object
    &&& t.shared_input_objects.deep_view() == ObjectV::OtherObject("0"@)
    &&& t.move_calls@.len() == 0
    &&& t.receiving_objects.deep_view() == ObjectV::OtherObject("0"@)
    &&& !t.is_system_tx
    &&& !t.is_genesis_tx
    &&& !t.is_end_of_epoch_tx
    &&& !t.is_sponsored_tx
    &&& t.inner_sec == 0
    &&& t.inner_id == 0
    &&& t.inner_time == 0
    &&& t.digest@ == Seq::<char>::empty()
    &&& !t.success
    &&& t.gas_used == 0
    &&& t.gas_computation_cost == 0
    &&& t.gas_storage_cost == 0
}

/// The placeholder transaction that stands in where no real transaction
/// can be looked up yet.
pub fn dummy_trans() -> (r: Transaction)
    ensures
        is_placeholder(r),
{
    let mut signers: Vec<String> = Vec::new();
    signers.push("Alice".to_owned());
    signers.push("Bob".to_owned());
    proof {
        assert(signers.deep_view() =~= seq!["Alice"@, "Bob"@]);
    }
    Transaction {
        kind: TransactionKind::Other(),
        signers,
        data: GasData { payment: Vec::new(), owner: String::new(), price: 100 },
        gas_owner: "Alice".to_owned(),
        gas: Vec::new(),
        gas_price: 100,
        gas_budget: 1000,
        expiration: TransactionExpiration::NoExpiration,
        contains_shared_object: false,
        shared_input_objects: new_other_object("0".to_owned()),
        move_calls: Vec::new(),
        receiving_objects: new_other_object("0".to_owned()),
        is_system_tx: false,
        is_genesis_tx: false,
        is_end_of_epoch_tx: false,
        is_sponsored_tx: false,
        inner_sec: 0,
        inner_id: 0,
        inner_time: 0,
        digest: String::new(),
        success: false,
        gas_used: 0,
        gas_computation_cost: 0,
        gas_storage_cost: 0,
    }
}

impl Event {
    /// The transaction this event belongs to. No linkage table exists
    /// yet, so this stands in with the placeholder transaction.
    pub fn get_parent_transaction(&self) -> (r: Transaction)
        ensures
            is_placeholder(r),
    {
        dummy_trans()
    }
}

impl Calltrace {
    /// The transaction this call-trace step belongs to. No linkage table
    /// exists yet, so this stands in with the placeholder transaction.
    pub fn get_parent_transaction(&self) -> (r: Transaction)
        ensures
            is_placeholder(r),
    {
        dummy_trans()
    }
}

impl UpgradeCommand {
    /// Builds an upgrade command from its sequence numbers and
    /// dependencies; the object and argument fields take fixed
    /// placeholders.
    pub fn new(seq: u64, deps: Vec<Object>, inner_seq: u64) -> (r: Self)
        ensures
            r.seq == seq,
            r.deps == deps,
            r.object.deep_view() == ObjectV::OtherObject("0"@),
            r.argument == Argument::Input(0),
            r.inner_seq == inner_seq,
    {
        UpgradeCommand {
            seq,
            deps,
            object: new_other_object("0".to_owned()),
            argument: Argument::Input(0),
            inner_seq,
        }
    }
}

/// The raw transaction shape the host supplies: the few fields the host
/// boundary can already deliver.
pub struct SuiTransaction {
    /// The sender's address.
    pub sender: String,
    /// The gas budget.
    pub gas_budget: u64,
    /// The transaction's timestamp.
    pub time: i64,
}

/// How a transaction built from the host's raw shape relates to that
/// shape: the sender becomes the only signer and the gas owner, the gas
/// budget and timestamp are copied, and every field the raw shape cannot
/// deliver yet holds its neutral default.
pub open spec fn loaded_from(t: Transaction, raw: SuiTransaction) -> bool {
    &&& t.kind is ProgrammableTransaction
    &&& {
        let pt = t.kind->ProgrammableTransaction_0;
        &&& pt.inputs@.len() == 0
        &&& pt.commands@.len() == 0
        &&& pt.calltraces@.len() == 0
        &&& pt.events@.len() == 0
    }
    &&& t.signers.deep_view() == seq![raw.sender@]
    &&& t.data.payment@.len() == 0
    &&& t.data.owner@ == raw.sender@
    &&& t.data.price == 0
    &&& t.gas_owner@ == raw.sender@
    &&& t.gas@.len() == 0
    &&& t.gas_price == 0
    &&& t.gas_budget == raw.gas_budget
    &&& t.expiration is NoExpiration
    &&& !t.contains_shared_object
    &&& t.shared_input_objects.deep_view() == ObjectV::WrappedObject("id"@)
    &&& t.move_calls@.len() == 0
    &&& t.receiving_objects.deep_view() == ObjectV::WrappedObject("id"@)
    &&& !t.is_system_tx
    &&& !t.is_genesis_tx
    &&& !t.is_end_of_epoch_tx
    &&& !t.is_sponsored_tx
    &&& t.inner_sec == 0
    &&& t.inner_id == 0
    &&& t.inner_time == raw.time
    &&& t.digest@ == Seq::<char>::empty()
    &&& !t.success
    &&& t.gas_used == 0
    &&& t.gas_computation_cost == 0
    &&& t.gas_storage_cost == 0
}

impl Transaction {
    /// The fixed best-effort mapping from the host's raw transaction
    /// shape into the domain model: known fields are copied, fields not
    /// yet derivable take neutral defaults, and nothing fails.
    pub fn from_raw(raw: SuiTransaction) -> (r: Transaction)
        ensures
            loaded_from(r, raw),
    {
        let sender = raw.sender;
        let gas_owner = sender.clone();
        let data_owner = sender.clone();
        let mut signers: Vec<String> = Vec::new();
        signers.push(sender);
        proof {
            assert(signers.deep_view() =~= seq![raw.sender@]);
        }
        Transaction {
            kind: TransactionKind::ProgrammableTransaction(
                ProgrammableTransaction {
                    inputs: Vec::new(),
                    commands: Vec::new(),
                    calltraces: Vec::new(),
                    events: Vec::new(),
                },
            ),
            signers,
            data: GasData { payment: Vec::new(), owner: data_owner, price: 0 },
            gas_owner,
            gas: Vec::new(),
            gas_price: 0,
            gas_budget: raw.gas_budget,
            expiration: TransactionExpiration::NoExpiration,
            contains_shared_object: false,
            shared_input_objects: Object::WrappedObject(ObjectId { id: "id".to_owned() }),
            move_calls: Vec::new(),
            receiving_objects: Object::WrappedObject(ObjectId { id: "id".to_owned() }),
            is_system_tx: false,
            is_genesis_tx: false,
            is_end_of_epoch_tx: false,
            is_sponsored_tx: false,
            inner_sec: 0,
            inner_id: 0,
            inner_time: raw.time,
            digest: String::new(),
            success: false,
            gas_used: 0,
            gas_computation_cost: 0,
            gas_storage_cost: 0,
        }
    }
}

/// The per-invocation context: empty, or loaded with one transaction.
/// Created once per invocation and never mutated.
pub struct SuiCtx {
    /// The transaction under analysis, when the host supplied one.
    pub transaction: Option<Transaction>,
}

impl SuiCtx {
    /// Hands the wrapped transaction out, if one was loaded.
    pub fn transaction(self) -> (r: Option<Transaction>)
        ensures
            r == self.transaction,
    {
        self.transaction
    }

    /// A context with nothing to analyze.
    pub fn new_empty_sui_ctx() -> (r: Self)
        ensures
            r.transaction is None,
    {
        SuiCtx { transaction: None }
    }
}

/// Builds the per-invocation context from what the host's boundary
/// returned: an empty context when no transaction is present — not an
/// error — and otherwise the fixed best-effort mapping of the raw shape.
pub fn load(raw: Option<SuiTransaction>) -> (r: SuiCtx)
    ensures
        match raw {
            None => r.transaction is None,
            Some(t) => match r.transaction {
                Some(tr) => loaded_from(tr, t),
                None => false,
            },
        },
{
    match raw {
        None => SuiCtx::new_empty_sui_ctx(),
        Some(t) => SuiCtx { transaction: Some(Transaction::from_raw(t)) },
    }
}

} // verus!

