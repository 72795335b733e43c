//! The value encoding engine: a builder that turns heterogeneous named
//! scalar entries into one self-describing wire value.
//!
//! A finished value is a flat side array of scalar values plus a list of
//! `(key, index)` pairs; the pair list is the map, the index addresses the
//! side array. Nothing recursive crosses the boundary, so the receiving
//! host needs no reflection and no schema registry.

use vstd::prelude::*;

verus! {

/// A self-describing wire value: a scalar, or a composite made of
/// `(key, index)` pairs whose indices address a side array.
#[derive(Clone)]
pub enum ValueType {
    U64(u64),
    String(String),
    Bool(bool),
    /// The map case: an ordered list of `(key, index)` pairs. The side
    /// array the indices point into travels in [`ValueData::data`].
    Composite(Vec<(String, u8)>),
}

/// A wire value together with the side array that a composite needs.
/// Scalar values carry `data: None`; a built map carries `data: Some(arr)`
/// with every index of its pair list addressing `arr`.
pub struct ValueData {
    pub data: Option<Vec<ValueType>>,
    pub value: ValueType,
}

/// Mathematical shape of a [`ValueType`].
pub enum ValueTypeV {
    U64(u64),
    String(Seq<char>),
    Bool(bool),
    Composite(Seq<(Seq<char>, u8)>),
}

/// Mathematical shape of a [`ValueData`].
pub struct ValueDataV {
    pub data: Option<Seq<ValueTypeV>>,
    pub value: ValueTypeV,
}

impl DeepView for ValueType {
    type V = ValueTypeV;

    open spec fn deep_view(&self) -> ValueTypeV {
        match self {
            ValueType::U64(n) => ValueTypeV::U64(*n),
            ValueType::String(s) => ValueTypeV::String(s@),
            ValueType::Bool(b) => ValueTypeV::Bool(*b),
            ValueType::Composite(elems) => ValueTypeV::Composite(elems.deep_view()),
        }
    }
}

impl DeepView for ValueData {
    type V = ValueDataV;

    open spec fn deep_view(&self) -> ValueDataV {
        ValueDataV { data: self.data.deep_view(), value: self.value.deep_view() }
    }
}

/// The entry collection of a builder, read as a map from key to entry:
/// later pairs overwrite earlier ones with the same key.
pub open spec fn map_of(s: Seq<(Seq<char>, ValueDataV)>) -> Map<Seq<char>, ValueDataV>
    decreases s.len(),
{
    if s.len() == 0 {
        Map::empty()
    } else {
        map_of(s.drop_last()).insert(s.last().0, s.last().1)
    }
}

/// No two pairs of the sequence carry the same key.
pub open spec fn unique_keys(s: Seq<(Seq<char>, ValueDataV)>) -> bool {
    forall|i: int, j: int| 0 <= i < j < s.len() ==> (#[trigger] s[i]).0 != (#[trigger] s[j]).0
}

/// A builder for one wire value: named scalar entries, registered one by
/// one, finalized by [`data`]. Keys are unique; registering a name twice
/// overwrites the earlier entry.
pub struct DataBuilder {
    entries: Vec<(String, ValueData)>,
}

impl View for DataBuilder {
    type V = Map<Seq<char>, ValueDataV>;

    closed spec fn view(&self) -> Map<Seq<char>, ValueDataV> {
        map_of(self.entries.deep_view())
    }
}

/// The entry a scalar registration stores: no side array, just the value.
pub open spec fn scalar_entry(v: ValueTypeV) -> ValueDataV {
    ValueDataV { data: None, value: v }
}

impl DataBuilder {
    /// The collection behind the builder keeps one pair per key.
    pub closed spec fn wf(&self) -> bool {
        unique_keys(self.entries.deep_view())
    }

    /// An empty builder: no entries registered yet.
    pub fn new() -> (r: DataBuilder)
        ensures
            r.wf(),
            r@ == Map::<Seq<char>, ValueDataV>::empty(),
    {
        let r = DataBuilder { entries: Vec::new() };
        proof {
            assert(r.entries.deep_view() =~= Seq::<(Seq<char>, ValueDataV)>::empty());
        }
        r
    }

    /// The position of the entry that carries `key`, if one does.
    fn find(entries: &Vec<(String, ValueData)>, key: &String) -> (r: Option<usize>)
        ensures
            match r {
                Some(i) => i < entries@.len() && entries.deep_view()[i as int].0 == key@,
                None => forall|k: int|
                    0 <= k < entries@.len() ==> (#[trigger] entries.deep_view()[k]).0 != key@,
            },
    {
        let n = entries.len();
        let mut i: usize = 0;
        while i < n
            invariant
                n == entries@.len(),
                i <= n,
                forall|k: int| 0 <= k < i ==> (#[trigger] entries.deep_view()[k]).0 != key@,
            decreases n - i,
        {
            if entries[i].0 == *key {
                proof {
                    assert(entries.deep_view()[i as int].0 == entries@[i as int].0@);
                }
                return Some(i);
            }
            i += 1;
        }
        None
    }

    /// Registers `entry` under `name`, overwriting an entry of that name.
    fn put(&mut self, name: &'static str, entry: ValueData)
        requires
            old(self).wf(),
        ensures
            final(self).wf(),
            final(self)@ == old(self)@.insert(name@, entry.deep_view()),
    {
        let ghost ev = entry.deep_view();
        let key: String = name.to_owned();
        let ghost s = self.entries.deep_view();
        match Self::find(&self.entries, &key) {
            Some(i) => {
                let ghost pre = self.entries@;
                self.entries.set(i, (key, entry));
                proof {
                    let se = self.entries.deep_view();
                    assert(se[i as int] == (name@, ev));
                    assert forall|j: int| 0 <= j < se.len() && j != i implies se[j] == s[j] by {
                        assert(self.entries@[j] == pre[j]);
                    }
                    assert(se =~= s.update(i as int, (name@, ev)));
                    assert(se == s.update(i as int, (s[i as int].0, ev)));
                    lemma_map_of_update(s, i as int, ev);
                    assert forall|p: int, q: int| 0 <= p < q < se.len() implies (#[trigger] se[p]).0
                        != (#[trigger] se[q]).0 by {
                        assert(s[p].0 != s[q].0);
                        assert(se[p].0 == s[p].0 && se[q].0 == s[q].0);
                    }
                }
            },
            None => {
                self.entries.push((key, entry));
                proof {
                    let se = self.entries.deep_view();
                    assert(se =~= s.push((name@, ev)));
                    assert(se.drop_last() =~= s);
                    assert(se.last() == (name@, ev));
                    assert(map_of(se) == map_of(s).insert(name@, ev));
                    assert forall|p: int, q: int| 0 <= p < q < se.len() implies (#[trigger] se[p]).0
                        != (#[trigger] se[q]).0 by {
                        assert(se[p] == s[p]);
                        if q < se.len() - 1 {
                            assert(se[q] == s[q]);
                            assert(s[p].0 != s[q].0);
                        } else {
                            assert(se[q].0 == name@);
                            assert(s[p].0 != name@);
                        }
                    }
                }
            },
        }
    }

    /// Registers an integer entry under `name`; a later entry with the
    /// same name overwrites it.
    pub fn integer(&mut self, name: &'static str, value: u64)
        requires
            old(self).wf(),
        ensures
            final(self).wf(),
            final(self)@ == old(self)@.insert(name@, scalar_entry(ValueTypeV::U64(value))),
    {
        self.put(name, ValueData { data: None, value: ValueType::U64(value) });
    }

    /// Registers a text entry under `name`; a later entry with the same
    /// name overwrites it.
    pub fn text(&mut self, name: &'static str, value: String)
        requires
            old(self).wf(),
        ensures
            final(self).wf(),
            final(self)@ == old(self)@.insert(name@, scalar_entry(ValueTypeV::String(value@))),
    {
        self.put(name, ValueData { data: None, value: ValueType::String(value) });
    }

    /// Registers a boolean entry under `name`; a later entry with the same
    /// name overwrites it.
    pub fn bool(&mut self, name: &'static str, value: bool)
        requires
            old(self).wf(),
        ensures
            final(self).wf(),
            final(self)@ == old(self)@.insert(name@, scalar_entry(ValueTypeV::Bool(value))),
    {
        self.put(name, ValueData { data: None, value: ValueType::Bool(value) });
    }
}

/// The subsequence of pairs whose entry is scalar (carries no side array).
pub open spec fn scalars(s: Seq<(Seq<char>, ValueDataV)>) -> Seq<(Seq<char>, ValueDataV)> {
    s.filter(|p: (Seq<char>, ValueDataV)| p.1.data is None)
}

/// What it means for a finished wire value `r` to encode the entry map `m`:
/// `r` is a composite with a side array, the pair list has one pair per
/// scalar entry of `m` with no key repeated, and each pair's index points
/// at that entry's value in the side array. Entries of `m` that carry a
/// side array of their own are left out.
pub open spec fn encodes(r: ValueDataV, m: Map<Seq<char>, ValueDataV>) -> bool {
    &&& r.value is Composite
    &&& r.data is Some
    &&& {
        let elems = r.value->Composite_0;
        let arr = r.data->Some_0;
        &&& arr.len() == elems.len() <= 256
        &&& forall|p: int, q: int|
            0 <= p < q < elems.len() ==> (#[trigger] elems[p]).0 != (#[trigger] elems[q]).0
        &&& forall|j: int|
            0 <= j < elems.len() ==> {
                &&& (#[trigger] elems[j]).1 == j as u8
                &&& m.dom().contains(elems[j].0)
                &&& m[elems[j].0].data is None
                &&& arr[j] == m[elems[j].0].value
            }
        &&& forall|k: Seq<char>|
            m.dom().contains(k) && (#[trigger] m[k]).data is None ==> exists|j: int|
                0 <= j < elems.len() && (#[trigger] elems[j]).0 == k
    }
}

/// Reading one entry of a finished wire value back: look its key up in the
/// pair list and fetch the value the recorded index addresses.
pub open spec fn decode(r: ValueDataV, k: Seq<char>) -> Option<ValueTypeV> {
    if r.value is Composite && r.data is Some {
        let elems = r.value->Composite_0;
        let arr = r.data->Some_0;
        if exists|j: int| 0 <= j < elems.len() && (#[trigger] elems[j]).0 == k {
            let j = choose|j: int| 0 <= j < elems.len() && (#[trigger] elems[j]).0 == k;
            if 0 <= elems[j].1 < arr.len() {
                Some(arr[elems[j].1 as int])
            } else {
                None
            }
        } else {
            None
        }
    } else {
        None
    }
}

/// Every encoded entry decodes, by its recorded index, to the exact scalar
/// that was registered under its name; a name never registered decodes to
/// nothing. This holds of any entry map whose entries are all scalar, which
/// is every map a [`DataBuilder`] can yield.
pub proof fn lemma_encode_decode(r: ValueDataV, m: Map<Seq<char>, ValueDataV>, k: Seq<char>)
    requires
        encodes(r, m),
        forall|k2: Seq<char>| m.dom().contains(k2) ==> (#[trigger] m[k2]).data is None,
    ensures
        m.dom().contains(k) ==> decode(r, k) == Some(m[k].value),
        !m.dom().contains(k) ==> decode(r, k) is None,
{
    let elems = r.value->Composite_0;
    let arr = r.data->Some_0;
    if m.dom().contains(k) {
        assert(exists|j: int| 0 <= j < elems.len() && (#[trigger] elems[j]).0 == k);
        let j = choose|j: int| 0 <= j < elems.len() && (#[trigger] elems[j]).0 == k;
        assert(elems[j].1 == j as u8);
        assert(0 <= elems[j].1 < arr.len());
        assert(arr[elems[j].1 as int] == m[k].value);
    } else {
        if exists|j: int| 0 <= j < elems.len() && (#[trigger] elems[j]).0 == k {
            let j = choose|j: int| 0 <= j < elems.len() && (#[trigger] elems[j]).0 == k;
            assert(m.dom().contains(elems[j].0));
        }
    }
}

/// Updating the pair at `i` without changing its key reads, as a map, as
/// one insertion under that key.
proof fn lemma_map_of_update(s: Seq<(Seq<char>, ValueDataV)>, i: int, v: ValueDataV)
    requires
        0 <= i < s.len(),
        unique_keys(s),
    ensures
        map_of(s.update(i, (s[i].0, v))) == map_of(s).insert(s[i].0, v),
    decreases s.len(),
{
    let t = s.update(i, (s[i].0, v));
    if i == s.len() - 1 {
        assert(t.drop_last() =~= s.drop_last());
        assert(t.last() == (s[i].0, v));
        assert(map_of(s).insert(s[i].0, v) =~= map_of(s.drop_last()).insert(s[i].0, v));
    } else {
        assert(t.drop_last() =~= s.drop_last().update(i, (s[i].0, v)));
        assert(t.last() == s.last());
        assert(s.drop_last()[i] == s[i]);
        lemma_map_of_update(s.drop_last(), i, v);
        assert(s[i].0 != s.last().0);
        assert(map_of(s.drop_last()).insert(s[i].0, v).insert(s.last().0, s.last().1) =~= map_of(
            s.drop_last(),
        ).insert(s.last().0, s.last().1).insert(s[i].0, v));
    }
}

/// A key is in the map of a pair sequence exactly when some pair carries it.
proof fn lemma_map_of_contains(s: Seq<(Seq<char>, ValueDataV)>, k: Seq<char>)
    ensures
        map_of(s).dom().contains(k) <==> exists|i: int| 0 <= i < s.len() && (#[trigger] s[i]).0
            == k,
    decreases s.len(),
{
    if s.len() > 0 {
        lemma_map_of_contains(s.drop_last(), k);
        if k == s.last().0 {
            assert(s[s.len() - 1].0 == k);
        } else {
            if map_of(s).dom().contains(k) {
                let i = choose|i: int|
                    0 <= i < s.drop_last().len() && (#[trigger] s.drop_last()[i]).0 == k;
                assert(s[i] == s.drop_last()[i]);
                assert(s[i].0 == k);
            }
            if exists|i: int| 0 <= i < s.len() && (#[trigger] s[i]).0 == k {
                let i = choose|i: int| 0 <= i < s.len() && (#[trigger] s[i]).0 == k;
                assert(s[s.len() - 1] == s.last());
                assert(i < s.len() - 1);
                assert(s.drop_last()[i].0 == k);
            }
        }
    }
}

/// With no key repeated, each pair's key looks up that pair's entry.
proof fn lemma_map_of_index(s: Seq<(Seq<char>, ValueDataV)>, i: int)
    requires
        unique_keys(s),
        0 <= i < s.len(),
    ensures
        map_of(s).dom().contains(s[i].0),
        map_of(s)[s[i].0] == s[i].1,
    decreases s.len(),
{
    if i == s.len() - 1 {
        assert(s[i] == s.last());
    } else {
        assert(unique_keys(s.drop_last())) by {
            assert forall|p: int, q: int|
                0 <= p < q < s.drop_last().len() implies (#[trigger] s.drop_last()[p]).0
                != (#[trigger] s.drop_last()[q]).0 by {
                assert(s[p].0 != s[q].0);
            }
        }
        assert(s.drop_last()[i] == s[i]);
        lemma_map_of_index(s.drop_last(), i);
        assert(s[i].0 != s.last().0);
    }
}

/// When every entry is scalar, nothing is filtered away.
proof fn lemma_scalars_all(s: Seq<(Seq<char>, ValueDataV)>)
    requires
        forall|i: int| 0 <= i < s.len() ==> (#[trigger] s[i]).1.data is None,
    ensures
        scalars(s) == s,
    decreases s.len(),
{
    reveal(Seq::filter);
    if s.len() > 0 {
        let t = s.drop_last();
        assert(forall|i: int| 0 <= i < t.len() ==> (#[trigger] t[i]).1.data is None) by {
            assert(forall|i: int| 0 <= i < t.len() ==> t[i] == s[i]);
        }
        lemma_scalars_all(t);
        assert(s[s.len() - 1].1.data is None);
        assert(scalars(s) == scalars(t).push(s.last()));
        assert(t.push(s.last()) =~= s);
    }
}

/// With no key repeated, the map holds exactly one entry per pair.
proof fn lemma_map_of_len(s: Seq<(Seq<char>, ValueDataV)>)
    requires
        unique_keys(s),
    ensures
        map_of(s).dom().finite(),
        map_of(s).dom().len() == s.len(),
    decreases s.len(),
{
    if s.len() > 0 {
        let t = s.drop_last();
        assert(unique_keys(t)) by {
            assert forall|p: int, q: int|
                0 <= p < q < t.len() implies (#[trigger] t[p]).0 != (#[trigger] t[q]).0 by {
                assert(s[p].0 != s[q].0);
            }
        }
        lemma_map_of_len(t);
        lemma_map_of_contains(t, s.last().0);
        assert(!map_of(t).dom().contains(s.last().0)) by {
            if exists|i: int| 0 <= i < t.len() && (#[trigger] t[i]).0 == s.last().0 {
                let i = choose|i: int| 0 <= i < t.len() && (#[trigger] t[i]).0 == s.last().0;
                assert(s[i].0 == s[s.len() - 1].0);
            }
        }
        assert(map_of(s).dom() =~= map_of(t).dom().insert(s.last().0));
    }
}

/// The facts the finalizer needs about the scalar subsequence: its keys
/// are unique, each of its pairs is one of the sequence's pairs and looks
/// up correctly in the map, and every scalar entry of the map appears.
proof fn lemma_scalars(s: Seq<(Seq<char>, ValueDataV)>)
    requires
        unique_keys(s),
    ensures
        unique_keys(scalars(s)),
        forall|j: int|
            0 <= j < scalars(s).len() ==> {
                &&& map_of(s).dom().contains((#[trigger] scalars(s)[j]).0)
                &&& map_of(s)[scalars(s)[j].0] == scalars(s)[j].1
                &&& scalars(s)[j].1.data is None
            },
        forall|k: Seq<char>|
            map_of(s).dom().contains(k) && (#[trigger] map_of(s)[k]).data is None ==> exists|j: int|
                0 <= j < scalars(s).len() && (#[trigger] scalars(s)[j]).0 == k,
    decreases s.len(),
{
    reveal(Seq::filter);
    let pred = |p: (Seq<char>, ValueDataV)| p.1.data is None;
    if s.len() == 0 {
        assert(scalars(s).len() == 0);
        assert forall|k: Seq<char>|
            map_of(s).dom().contains(k) && (#[trigger] map_of(s)[k]).data is None implies exists|
            j: int,
        | 0 <= j < scalars(s).len() && (#[trigger] scalars(s)[j]).0 == k by {
            assert(false);
        }
    } else {
        let t = s.drop_last();
        let x = s.last();
        assert(unique_keys(t)) by {
            assert forall|p: int, q: int|
                0 <= p < q < t.len() implies (#[trigger] t[p]).0 != (#[trigger] t[q]).0 by {
                assert(s[p].0 != s[q].0);
            }
        }
        lemma_scalars(t);
        assert(scalars(s) == if pred(x) {
            scalars(t).push(x)
        } else {
            scalars(t)
        });
        // a key of the scalar subsequence of t is a key of some pair of t
        assert forall|j: int| 0 <= j < scalars(t).len() implies exists|i: int|
            0 <= i < t.len() && (#[trigger] t[i]) == #[trigger] scalars(t)[j] by {
            lemma_map_of_contains(t, scalars(t)[j].0);
            let i = choose|i: int| 0 <= i < t.len() && (#[trigger] t[i]).0 == scalars(t)[j].0;
            lemma_map_of_index(t, i);
            assert(t[i].1 == scalars(t)[j].1);
            assert(t[i] == scalars(t)[j]);
        }
        // the appended key, when one is appended, differs from all of them
        if pred(x) {
            assert forall|j: int| 0 <= j < scalars(t).len() implies (#[trigger] scalars(t)[j]).0
                != x.0 by {
                let i = choose|i: int| 0 <= i < t.len() && (#[trigger] t[i]) == scalars(t)[j];
                assert(s[i].0 != s[s.len() - 1].0);
            }
        }
        assert(unique_keys(scalars(s))) by {
            assert forall|p: int, q: int|
                0 <= p < q < scalars(s).len() implies (#[trigger] scalars(s)[p]).0
                != (#[trigger] scalars(s)[q]).0 by {
                if q < scalars(t).len() {
                    assert(scalars(t)[p].0 != scalars(t)[q].0);
                } else {
                    assert(scalars(s)[q] == x);
                    assert(scalars(s)[p] == scalars(t)[p]);
                }
            }
        }
        assert forall|j: int| 0 <= j < scalars(s).len() implies {
            &&& map_of(s).dom().contains((#[trigger] scalars(s)[j]).0)
            &&& map_of(s)[scalars(s)[j].0] == scalars(s)[j].1
            &&& scalars(s)[j].1.data is None
        } by {
            if j < scalars(t).len() {
                assert(scalars(s)[j] == scalars(t)[j]);
                // x's key differs from this one, so the final insert keeps it
                lemma_map_of_contains(t, scalars(t)[j].0);
                let i = choose|i: int| 0 <= i < t.len() && (#[trigger] t[i]).0 == scalars(t)[j].0;
                assert(s[i].0 != s[s.len() - 1].0);
                assert(scalars(t)[j].0 != x.0);
            } else {
                assert(scalars(s)[j] == x);
                assert(map_of(s) == map_of(t).insert(x.0, x.1));
            }
        }
        assert forall|k: Seq<char>|
            map_of(s).dom().contains(k) && (#[trigger] map_of(s)[k]).data is None implies exists|
            j: int,
        | 0 <= j < scalars(s).len() && (#[trigger] scalars(s)[j]).0 == k by {
            if k == x.0 {
                assert(map_of(s)[k] == x.1);
                assert(pred(x));
                assert(scalars(s)[scalars(s).len() - 1] == x);
            } else {
                assert(map_of(t).dom().contains(k) && map_of(t)[k].data is None);
                let j = choose|j: int|
                    0 <= j < scalars(t).len() && (#[trigger] scalars(t)[j]).0 == k;
                assert(scalars(s)[j] == scalars(t)[j]);
            }
        }
    }
}

/// Duplicates a pair list, one `(key, index)` pair at a time.
fn copy_pairs(v: &Vec<(String, u8)>) -> (r: Vec<(String, u8)>)
    ensures
        r.deep_view() == v.deep_view(),
{
    let mut r: Vec<(String, u8)> = Vec::new();
    let n = v.len();
    let mut i: usize = 0;
    while i < n
        invariant
            n == v@.len(),
            i <= n,
            r.deep_view() =~= v.deep_view().take(i as int),
        decreases n - i,
    {
        let ghost rv0 = r.deep_view();
        let key = v[i].0.clone();
        proof {
            assert(key@ == v@[i as int].0@);
        }
        r.push((key, v[i].1));
        proof {
            assert(r@.len() == rv0.len() + 1);
            assert(r.deep_view()[i as int] == (v@[i as int].0@, v@[i as int].1));
            assert(v.deep_view()[i as int] == (v@[i as int].0@, v@[i as int].1));
            assert forall|j: int| 0 <= j < rv0.len() implies r.deep_view()[j] == rv0[j] by {
                assert(r@[j] == r@[j]);
            }
            assert(r.deep_view() =~= v.deep_view().take(i + 1 as int));
        }
        i += 1;
    }
    proof {
        assert(v.deep_view().take(n as int) =~= v.deep_view());
    }
    r
}

/// Duplicates one wire value.
fn copy_value_type(v: &ValueType) -> (r: ValueType)
    ensures
        r.deep_view() == v.deep_view(),
{
    match v {
        ValueType::U64(n) => ValueType::U64(*n),
        ValueType::String(s) => ValueType::String(s.clone()),
        ValueType::Bool(b) => ValueType::Bool(*b),
        ValueType::Composite(elems) => ValueType::Composite(copy_pairs(elems)),
    }
}

/// Finalizes a builder into one self-describing wire value: a composite
/// whose pair list names every scalar entry once and whose indices address
/// the side array position holding that entry's value. An entry that is
/// itself a composite is silently left out; an empty builder yields a
/// composite with an empty pair list and an empty side array.
pub fn data(b: &DataBuilder) -> (r: ValueData)
    requires
        b.wf(),
        b@.dom().len() <= 256,
    ensures
        encodes(r.deep_view(), b@),
        (forall|k: Seq<char>| b@.dom().contains(k) ==> (#[trigger] b@[k]).data is None)
            ==> r.deep_view().value->Composite_0.len() == b@.dom().len(),
{
    let ghost s = b.entries.deep_view();
    proof {
        lemma_map_of_len(s);
        lemma_scalars(s);
        reveal(Seq::filter);
    }
    let mut arr: Vec<ValueType> = Vec::new();
    let mut elems: Vec<(String, u8)> = Vec::new();
    let n = b.entries.len();
    let mut i: usize = 0;
    proof {
        assert(s.take(0) =~= Seq::<(Seq<char>, ValueDataV)>::empty());
        assert(scalars(s.take(0)).len() == 0);
    }
    while i < n
        invariant
            s == b.entries.deep_view(),
            n == b.entries@.len(),
            n <= 256,
            i <= n,
            arr.deep_view().len() == scalars(s.take(i as int)).len(),
            elems.deep_view().len() == scalars(s.take(i as int)).len(),
            scalars(s.take(i as int)).len() <= i,
            forall|j: int|
                0 <= j < elems.deep_view().len() ==> {
                    &&& (#[trigger] elems.deep_view()[j]).0 == scalars(s.take(i as int))[j].0
                    &&& elems.deep_view()[j].1 == j as u8
                    &&& arr.deep_view()[j] == scalars(s.take(i as int))[j].1.value
                },
        decreases n - i,
    {
        let ghost prefix = s.take(i as int);
        let ghost extended = s.take(i + 1 as int);
        proof {
            reveal(Seq::filter);
            assert(extended.drop_last() =~= prefix);
            assert(extended.last() == s[i as int]);
        }
        let e = &b.entries[i];
        if e.1.data.is_none() {
            proof {
                assert(s[i as int].1.data is None);
                assert(scalars(extended) == scalars(prefix).push(s[i as int]));
            }
            let ghost av0 = arr.deep_view();
            let ghost ev0 = elems.deep_view();
            let idx = arr.len();
            let val = copy_value_type(&e.1.value);
            let key = e.0.clone();
            proof {
                assert(s[i as int] == (b.entries@[i as int].0@, b.entries@[i as int].1.deep_view()));
                assert(val.deep_view() == s[i as int].1.value);
                assert(key@ == s[i as int].0);
            }
            arr.push(val);
            elems.push((key, idx as u8));
            proof {
                let av = arr.deep_view();
                let ev = elems.deep_view();
                assert(av.len() == av0.len() + 1 && ev.len() == ev0.len() + 1);
                assert(av[av0.len() as int] == s[i as int].1.value);
                assert(ev[ev0.len() as int] == (s[i as int].0, idx as u8));
                assert(forall|j: int| 0 <= j < av0.len() ==> #[trigger] av[j] == av0[j]);
                assert(forall|j: int| 0 <= j < ev0.len() ==> #[trigger] ev[j] == ev0[j]);
                assert(scalars(extended)[idx as int] == s[i as int]);
                assert(forall|j: int|
                    0 <= j < idx ==> #[trigger] scalars(extended)[j] == scalars(prefix)[j]);
            }
        } else {
            proof {
                assert(!(s[i as int].1.data is None));
                assert(scalars(extended) == scalars(prefix));
            }
        }
        i += 1;
    }
    proof {
        assert(s.take(n as int) =~= s);
    }
    let r = ValueData { data: Some(arr), value: ValueType::Composite(elems) };
    proof {
        let rv = r.deep_view();
        let sc = scalars(s);
        assert(rv.value->Composite_0 =~= elems.deep_view());
        assert(rv.data->Some_0 =~= arr.deep_view());
        assert forall|p: int, q: int|
            0 <= p < q < elems.deep_view().len() implies (#[trigger] elems.deep_view()[p]).0
            != (#[trigger] elems.deep_view()[q]).0 by {
            assert(sc[p].0 != sc[q].0);
        }
        assert forall|k: Seq<char>|
            b@.dom().contains(k) && (#[trigger] b@[k]).data is None implies exists|j: int|
            0 <= j < elems.deep_view().len() && (#[trigger] elems.deep_view()[j]).0 == k by {
            let j = choose|j: int| 0 <= j < sc.len() && (#[trigger] sc[j]).0 == k;
            assert(elems.deep_view()[j].0 == k);
        }
        if forall|k: Seq<char>| b@.dom().contains(k) ==> (#[trigger] b@[k]).data is None {
            assert forall|i2: int| 0 <= i2 < s.len() implies (#[trigger] s[i2]).1.data is None by {
                lemma_map_of_index(s, i2);
            }
            lemma_scalars_all(s);
        }
    }
    r
}

} // verus!

