use mamoru_sdk::sui_ctx::{
    dummy_trans, load, Argument, CallArg, Calltrace, Command, CommandType, Event, GasData,
    Identifier, Object, ObjectId, ProgrammableTransaction, PublishCommand, SuiCtx, SuiTransaction,
    Transaction, TransactionExpiration, TransactionKind, UpgradeCommand,
};

fn other_object(id: &str) -> Object {
    Object::OtherObject(ObjectId { id: id.to_string() })
}

/// A transaction of the given kind with neutral values everywhere else.
fn transaction_of(kind: TransactionKind) -> Transaction {
    Transaction {
        kind,
        signers: Vec::new(),
        data: GasData { payment: Vec::new(), owner: String::new(), price: 0 },
        gas_owner: String::new(),
        gas: Vec::new(),
        gas_price: 0,
        gas_budget: 0,
        expiration: TransactionExpiration::NoExpiration,
        contains_shared_object: false,
        shared_input_objects: other_object("0"),
        move_calls: Vec::new(),
        receiving_objects: other_object("0"),
        is_system_tx: false,
        is_genesis_tx: false,
        is_end_of_epoch_tx: false,
        is_sponsored_tx: false,
        inner_sec: 0,
        inner_id: 0,
        inner_time: 0,
        digest: String::new(),
        success: false,
        gas_used: 0,
        gas_computation_cost: 0,
        gas_storage_cost: 0,
    }
}

fn publish(seq: u64, inner_sec: u64) -> Command {
    Command::Publish(PublishCommand { seq, deps: Vec::new(), inner_sec })
}

#[test]
fn empty_context_when_no_transaction() {
    let ctx = load(None);
    assert!(ctx.transaction().is_none());
    let ctx2 = SuiCtx::new_empty_sui_ctx();
    assert!(ctx2.transaction().is_none());
}

#[test]
fn load_maps_known_fields_and_defaults_the_rest() {
    let raw = SuiTransaction { sender: "0xsender".to_string(), gas_budget: 4242, time: 99 };
    let ctx = load(Some(raw));
    let tr = ctx.transaction().expect("a transaction was supplied");
    assert!(tr.is_programmable());
    assert_eq!(tr.signers, vec!["0xsender".to_string()]);
    assert_eq!(tr.gas_owner, "0xsender");
    assert_eq!(tr.data.owner, "0xsender");
    assert_eq!(tr.data.price, 0);
    assert_eq!(tr.gas_budget, 4242);
    assert_eq!(tr.gas_price, 0);
    assert_eq!(tr.inner_time, 99);
    assert!(!tr.success);
    assert_eq!(tr.gas_used, 0);
    assert_eq!(tr.commands(CommandType::Publish).len(), 0);
    assert_eq!(tr.calltraces().len(), 0);
    assert_eq!(tr.events().len(), 0);
    assert_eq!(tr.inputs().len(), 0);
}

#[test]
fn commands_publish_filter_keeps_order() {
    let a = publish(1, 10);
    let b = Command::Upgrade(UpgradeCommand::new(2, Vec::new(), 20));
    let c = publish(3, 30);
    let pt = ProgrammableTransaction {
        inputs: Vec::new(),
        commands: vec![a, b, c],
        calltraces: Vec::new(),
        events: Vec::new(),
    };
    let tr = transaction_of(TransactionKind::ProgrammableTransaction(pt));
    let publishes = tr.commands(CommandType::Publish);
    assert_eq!(publishes.len(), 2);
    match &publishes[0] {
        Command::Publish(p) => {
            assert_eq!(p.seq, 1);
            assert_eq!(p.inner_sec, 10);
        }
        _ => panic!("expected a publish command"),
    }
    match &publishes[1] {
        Command::Publish(p) => {
            assert_eq!(p.seq, 3);
            assert_eq!(p.inner_sec, 30);
        }
        _ => panic!("expected a publish command"),
    }
}

#[test]
fn commands_upgrade_filter_yields_nothing() {
    let pt = ProgrammableTransaction {
        inputs: Vec::new(),
        commands: vec![
            publish(1, 10),
            Command::Upgrade(UpgradeCommand::new(2, Vec::new(), 20)),
            publish(3, 30),
        ],
        calltraces: Vec::new(),
        events: Vec::new(),
    };
    let tr = transaction_of(TransactionKind::ProgrammableTransaction(pt));
    assert_eq!(tr.commands(CommandType::Upgrade).len(), 0);
}

#[test]
fn commands_on_non_programmable_yield_nothing() {
    let tr = transaction_of(TransactionKind::Other());
    assert!(!tr.is_programmable());
    assert_eq!(tr.commands(CommandType::Publish).len(), 0);
    assert_eq!(tr.commands(CommandType::Upgrade).len(), 0);
    assert_eq!(tr.calltraces().len(), 0);
    assert_eq!(tr.events().len(), 0);
    assert_eq!(tr.inputs().len(), 0);
}

#[test]
fn queries_hand_programmable_payload_back() {
    let trace = Calltrace {
        seq: 4,
        depth: 2,
        call_type: 1,
        gas_used: 55,
        transaction_module: Some("mod".to_string()),
        function: "run".to_string(),
    };
    let event = Event {
        package_id: "pkg".to_string(),
        transaction_module: Identifier("mod".to_string()),
        sender: "0xs".to_string(),
        type_: "T".to_string(),
        contents: vec![1, 2, 3],
    };
    let input = CallArg::Pure(vec![9, 9]);
    let pt = ProgrammableTransaction {
        inputs: vec![input],
        commands: Vec::new(),
        calltraces: vec![trace],
        events: vec![event],
    };
    let tr = transaction_of(TransactionKind::ProgrammableTransaction(pt));
    assert!(tr.is_programmable());

    let traces = tr.calltraces();
    assert_eq!(traces.len(), 1);
    assert_eq!(traces[0].seq, 4);
    assert_eq!(traces[0].depth, 2);
    assert_eq!(traces[0].gas_used, 55);
    assert_eq!(traces[0].transaction_module.as_deref(), Some("mod"));
    assert_eq!(traces[0].function, "run");

    let events = tr.events();
    assert_eq!(events.len(), 1);
    assert_eq!(events[0].package_id, "pkg");
    assert_eq!(events[0].sender, "0xs");
    assert_eq!(events[0].contents, vec![1, 2, 3]);

    let inputs = tr.inputs();
    assert_eq!(inputs.len(), 1);
    match &inputs[0] {
        CallArg::Pure(bytes) => assert_eq!(bytes, &vec![9, 9]),
        _ => panic!("expected the pure input back"),
    }
}

#[test]
fn placeholder_transaction_fields() {
    let tr = dummy_trans();
    assert!(matches!(tr.kind, TransactionKind::Other()));
    assert_eq!(tr.signers, vec!["Alice".to_string(), "Bob".to_string()]);
    assert_eq!(tr.gas_owner, "Alice");
    assert_eq!(tr.gas_price, 100);
    assert_eq!(tr.gas_budget, 1000);
    assert_eq!(tr.data.price, 100);
    assert!(!tr.contains_shared_object);
    assert!(!tr.success);
}

#[test]
fn parent_transaction_is_the_placeholder() {
    let event = Event {
        package_id: "p".to_string(),
        transaction_module: Identifier("m".to_string()),
        sender: "s".to_string(),
        type_: "t".to_string(),
        contents: Vec::new(),
    };
    let parent = event.get_parent_transaction();
    assert_eq!(parent.signers, vec!["Alice".to_string(), "Bob".to_string()]);
    assert_eq!(parent.gas_budget, 1000);

    let trace = Calltrace {
        seq: 0,
        depth: 0,
        call_type: 0,
        gas_used: 0,
        transaction_module: None,
        function: "f".to_string(),
    };
    let parent = trace.get_parent_transaction();
    assert_eq!(parent.gas_price, 100);
    assert!(matches!(parent.kind, TransactionKind::Other()));
}

#[test]
fn upgrade_command_new_fills_placeholders() {
    let deps = vec![other_object("d1"), other_object("d2")];
    let command = UpgradeCommand::new(7, deps, 21);
    assert_eq!(command.seq, 7);
    assert_eq!(command.deps.len(), 2);
    assert_eq!(command.inner_seq, 21);
    assert!(matches!(command.argument, Argument::Input(0)));
    match &command.object {
        Object::OtherObject(o) => assert_eq!(o.id, "0"),
        _ => panic!("expected the placeholder object"),
    }
}
