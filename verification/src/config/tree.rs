//! The raw key/value tree that a configuration file is read into before it
//! is given its typed form. Migrations work on this tree, so that they see the
//! shape a file was written in, whatever version wrote it.

use vstd::prelude::*;
use crate::text::same_chars;
use crate::text::chars_of;

verus! {

/// A value of the raw tree.
#[derive(Debug, PartialEq)]
pub enum Value {
    /// An explicit null (`~`), as opposed to a missing key.
    Null,
    Bool(bool),
    Int(i128),
    /// A number with a fraction, kept as written.
    Real(String),
    Text(String),
    List(Vec<Value>),
    /// A mapping; a key is looked up at its first occurrence.
    Dict(Vec<Entry>),
}

/// One key of a mapping with its value.
#[derive(Debug, PartialEq)]
pub struct Entry {
    pub key: String,
    pub value: Value,
}

/// The mathematical form of a `Value`.
pub enum Tree {
    Null,
    Bool(bool),
    Int(int),
    Real(Seq<char>),
    Text(Seq<char>),
    List(Seq<Tree>),
    Dict(Seq<(Seq<char>, Tree)>),
}

/// The kind of a value, for error reports.
#[derive(Clone, Copy, Debug, PartialEq, Eq, Structural)]
pub enum Kind {
    Unit,
    Bool,
    Integer,
    Real,
    Text,
    List,
    Dict,
}

/// The mathematical form of `value`.
pub open spec fn tree_of(value: Value) -> Tree
    decreases value,
{
    match value {
        Value::Null => Tree::Null,
        Value::Bool(b) => Tree::Bool(b),
        Value::Int(n) => Tree::Int(n as int),
        Value::Real(s) => Tree::Real(s@),
        Value::Text(s) => Tree::Text(s@),
        Value::List(items) => Tree::List(
            Seq::new(
                items@.len(),
                |i: int|
                    if 0 <= i < items@.len() {
                        tree_of(items@[i])
                    } else {
                        Tree::Null
                    },
            ),
        ),
        Value::Dict(entries) => Tree::Dict(
            Seq::new(
                entries@.len(),
                |i: int|
                    if 0 <= i < entries@.len() {
                        (entries@[i].key@, tree_of(entries@[i].value))
                    } else {
                        (Seq::empty(), Tree::Null)
                    },
            ),
        ),
    }
}

impl View for Value {
    type V = Tree;

    open spec fn view(&self) -> Tree {
        tree_of(*self)
    }
}

/// The entries `entries` in their mathematical form.
pub open spec fn entries_view(entries: Seq<Entry>) -> Seq<(Seq<char>, Tree)> {
    Seq::new(entries.len(), |i: int| (entries[i].key@, entries[i].value@))
}

impl Tree {
    /// The kind of this tree.
    pub open spec fn kind(self) -> Kind {
        match self {
            Tree::Null => Kind::Unit,
            Tree::Bool(_) => Kind::Bool,
            Tree::Int(_) => Kind::Integer,
            Tree::Real(_) => Kind::Real,
            Tree::Text(_) => Kind::Text,
            Tree::List(_) => Kind::List,
            Tree::Dict(_) => Kind::Dict,
        }
    }
}

/// The position of the first entry of `entries` with the key `key`, or the
/// length of `entries` if there is none.
pub open spec fn position<V>(entries: Seq<(Seq<char>, V)>, key: Seq<char>) -> int
    decreases entries.len(),
{
    if entries.len() == 0 {
        0
    } else if entries[0].0 == key {
        0
    } else {
        1 + position(entries.drop_first(), key)
    }
}

/// What `entries` hold under `key`, if anything.
pub open spec fn lookup<V>(entries: Seq<(Seq<char>, V)>, key: Seq<char>) -> Option<V> {
    let at = position(entries, key);
    if at < entries.len() {
        Some(entries[at].1)
    } else {
        None
    }
}

/// `entries` with `value` under `key`: in place of what was there, or at the
/// end.
pub open spec fn store<V>(entries: Seq<(Seq<char>, V)>, key: Seq<char>, value: V) -> Seq<
    (Seq<char>, V),
> {
    let at = position(entries, key);
    if at < entries.len() {
        entries.update(at, (key, value))
    } else {
        entries.push((key, value))
    }
}

/// The position is within bounds, no earlier entry has the key, and the
/// entry at the position has it.
pub proof fn lemma_position<V>(entries: Seq<(Seq<char>, V)>, key: Seq<char>)
    ensures
        0 <= position(entries, key) <= entries.len(),
        forall|i: int| 0 <= i < position(entries, key) ==> (#[trigger] entries[i]).0 != key,
        position(entries, key) < entries.len() ==> entries[position(entries, key)].0 == key,
    decreases entries.len(),
{
    if entries.len() > 0 && entries[0].0 != key {
        lemma_position(entries.drop_first(), key);
        assert forall|i: int| 0 <= i < position(entries, key) implies (#[trigger] entries[i]).0
            != key by {
            if i > 0 {
                assert(entries[i] == entries.drop_first()[i - 1]);
            }
        }
    }
}

/// The first position at which `entries` has the key `key` is its position.
pub proof fn lemma_position_is<V>(entries: Seq<(Seq<char>, V)>, key: Seq<char>, at: int)
    requires
        0 <= at <= entries.len(),
        forall|i: int| 0 <= i < at ==> (#[trigger] entries[i]).0 != key,
        at < entries.len() ==> entries[at].0 == key,
    ensures
        position(entries, key) == at,
    decreases entries.len(),
{
    if entries.len() > 0 {
        if at == 0 {
        } else {
            assert(entries[0].0 != key);
            assert forall|i: int| 0 <= i < at - 1 implies (#[trigger] entries.drop_first()[i]).0
                != key by {
                assert(entries.drop_first()[i] == entries[i + 1]);
            }
            lemma_position_is(entries.drop_first(), key, at - 1);
        }
    }
}

/// What is stored under a key is what is found there, and other keys keep
/// what they had.
pub proof fn lemma_lookup_store<V>(
    entries: Seq<(Seq<char>, V)>,
    key: Seq<char>,
    value: V,
    other: Seq<char>,
)
    ensures
        lookup(store(entries, key, value), key) == Some(value),
        other != key ==> lookup(store(entries, key, value), other) == lookup(entries, other),
{
    lemma_position(entries, key);
    lemma_position(entries, other);
    let at = position(entries, key);
    let after = store(entries, key, value);
    lemma_position_is(after, key, at);
    if other != key {
        let there = position(entries, other);
        if there < entries.len() {
            lemma_position_is(after, other, there);
        } else {
            lemma_position_is(after, other, after.len() as int);
        }
    }
}

/// Putting under a key the value that is already there changes nothing.
pub proof fn lemma_store_same<V>(entries: Seq<(Seq<char>, V)>, key: Seq<char>, value: V)
    requires
        lookup(entries, key) == Some(value),
    ensures
        store(entries, key, value) == entries,
{
    lemma_position(entries, key);
    assert(store(entries, key, value) =~= entries);
}

/// The position of the first entry with the key `key`, or `entries.len()`.
pub fn find(entries: &Vec<Entry>, key: &str) -> (at: usize)
    ensures
        at == position(entries_view(entries@), key@),
        at <= entries.len(),
{
    let wanted = chars_of(key);
    let mut i: usize = 0;
    while i < entries.len()
        invariant
            i <= entries.len(),
            wanted@ == key@,
            forall|j: int| 0 <= j < i ==> (#[trigger] entries_view(entries@)[j]).0 != key@,
        decreases entries.len() - i,
    {
        let candidate = chars_of(entries[i].key.as_str());
        if same_chars(&candidate, &wanted) {
            proof {
                lemma_position_is(entries_view(entries@), key@, i as int);
            }
            return i;
        }
        i += 1;
    }
    proof {
        lemma_position_is(entries_view(entries@), key@, i as int);
    }
    i
}

/// The value under `key`, if `entries` have one.
pub fn get<'a>(entries: &'a Vec<Entry>, key: &str) -> (r: Option<&'a Value>)
    ensures
        r matches Some(v) ==> lookup(entries_view(entries@), key@) == Some(v@),
        r is None ==> lookup(entries_view(entries@), key@) is None,
{
    let at = find(entries, key);
    if at < entries.len() {
        Some(&entries[at].value)
    } else {
        None
    }
}

/// Puts `value` under `key`: in place of what was there, or at the end.
pub fn put(entries: &mut Vec<Entry>, key: &str, value: Value)
    ensures
        entries_view(final(entries)@) == store(entries_view(old(entries)@), key@, value@),
{
    let at = find(entries, key);
    let entry = Entry { key: String::from_str(key), value };
    if at < entries.len() {
        entries.set(at, entry);
    } else {
        entries.push(entry);
    }
    assert(entries_view(entries@) =~= store(entries_view(old(entries)@), key@, value@));
}

/// The items `items` in their mathematical form.
pub open spec fn items_view(items: Seq<Value>) -> Seq<Tree> {
    Seq::new(items.len(), |i: int| items[i]@)
}

/// The relation between a list and its items.
pub proof fn lemma_list_view(items: Vec<Value>)
    ensures
        Value::List(items)@ == Tree::List(items_view(items@)),
{
    reveal_with_fuel(tree_of, 2);
    assert(Value::List(items)@->List_0 =~= items_view(items@));
}

/// The relation between a mapping and its entries.
pub proof fn lemma_dict_view(entries: Vec<Entry>)
    ensures
        Value::Dict(entries)@ == Tree::Dict(entries_view(entries@)),
{
    reveal_with_fuel(tree_of, 2);
    assert(Value::Dict(entries)@->Dict_0 =~= entries_view(entries@));
}

/// The entries of `over` whose keys `base` does not have, in their order.
pub open spec fn added(base: Seq<(Seq<char>, Tree)>, over: Seq<(Seq<char>, Tree)>) -> Seq<
    (Seq<char>, Tree),
>
    decreases over.len(),
{
    if over.len() == 0 {
        Seq::empty()
    } else if lookup(base, over.last().0) is None {
        added(base, over.drop_last()).push(over.last())
    } else {
        added(base, over.drop_last())
    }
}

/// The tree `base` overlaid with `over`: two mappings are united, key by
/// key, and wherever both have a value that is not a mapping, the one of
/// `over` wins. The keys of `base` keep their places; new keys follow.
pub open spec fn merged(base: Tree, over: Tree) -> Tree
    decreases base,
{
    match (base, over) {
        (Tree::Dict(b), Tree::Dict(o)) => Tree::Dict(
            Seq::new(
                b.len(),
                |i: int|
                    if 0 <= i < b.len() {
                        (
                            b[i].0,
                            match lookup(o, b[i].0) {
                                Some(v) => merged(b[i].1, v),
                                None => b[i].1,
                            },
                        )
                    } else {
                        (Seq::empty(), Tree::Null)
                    },
            ) + added(b, o),
        ),
        _ => over,
    }
}

/// The tree `base` overlaid with `over`.
pub fn merge(base: &Value, over: &Value) -> (r: Value)
    ensures
        r@ == merged(base@, over@),
    decreases base,
{
    match (base, over) {
        (Value::Dict(b), Value::Dict(o)) => {
            let result = merge_entries(b, o);
            proof {
                lemma_dict_view(*b);
                lemma_dict_view(*o);
                lemma_dict_view(result);
            }
            Value::Dict(result)
        },
        _ => copy_value(over),
    }
}

/// The entries `b` overlaid with the entries `o`.
pub fn merge_entries(b: &Vec<Entry>, o: &Vec<Entry>) -> (result: Vec<Entry>)
    ensures
        Tree::Dict(entries_view(result@)) == merged(
            Tree::Dict(entries_view(b@)),
            Tree::Dict(entries_view(o@)),
        ),
    decreases b,
{
    let ghost bv = entries_view(b@);
    let ghost ov = entries_view(o@);
    let mut result: Vec<Entry> = Vec::new();
    let mut i: usize = 0;
    while i < b.len()
        invariant
            i <= b.len(),
            result.len() == i,
            bv == entries_view(b@),
            ov == entries_view(o@),
            forall|j: int|
                0 <= j < i ==> (#[trigger] result@[j]).key@ == bv[j].0 && result@[j].value@
                    == match lookup(ov, bv[j].0) {
                    Some(v) => merged(bv[j].1, v),
                    None => bv[j].1,
                },
        decreases b.len() - i,
    {
        let key = b[i].key.clone();
        let value = match get(o, b[i].key.as_str()) {
            Some(v) => merge(&b[i].value, v),
            None => copy_value(&b[i].value),
        };
        result.push(Entry { key, value });
        i += 1;
    }
    let ghost kept = entries_view(result@);
    let mut k: usize = 0;
    assert(ov.take(0) =~= Seq::empty());
    assert(entries_view(result@) =~= kept + added(bv, ov.take(0)));
    while k < o.len()
        invariant
            k <= o.len(),
            bv == entries_view(b@),
            ov == entries_view(o@),
            kept.len() == b.len(),
            entries_view(result@) == kept + added(bv, ov.take(k as int)),
        decreases o.len() - k,
    {
        assert(ov.take(k + 1).drop_last() == ov.take(k as int));
        assert(ov.take(k + 1).last() == ov[k as int]);
        if get(b, o[k].key.as_str()).is_none() {
            let key = o[k].key.clone();
            let value = copy_value(&o[k].value);
            let ghost before = entries_view(result@);
            result.push(Entry { key, value });
            assert(added(bv, ov.take(k + 1)) == added(bv, ov.take(k as int)).push(ov[k as int]));
            assert(entries_view(result@) =~= before.push(ov[k as int]));
            assert(entries_view(result@) =~= kept + added(bv, ov.take(k + 1)));
        } else {
            assert(added(bv, ov.take(k + 1)) == added(bv, ov.take(k as int)));
        }
        k += 1;
    }
    proof {
        assert(ov.take(o.len() as int) == ov);
        let want = merged(Tree::Dict(bv), Tree::Dict(ov))->Dict_0;
        assert(kept =~= want.take(b.len() as int));
        assert(entries_view(result@) =~= want);
    }
    result
}

/// A copy of `value`.
pub fn copy_value(value: &Value) -> (r: Value)
    ensures
        r@ == value@,
    decreases value,
{
    match value {
        Value::Null => Value::Null,
        Value::Bool(b) => Value::Bool(*b),
        Value::Int(n) => Value::Int(*n),
        Value::Real(s) => Value::Real(s.clone()),
        Value::Text(s) => Value::Text(s.clone()),
        Value::List(items) => Value::List(copy_items(items)),
        Value::Dict(entries) => Value::Dict(copy_entries(entries)),
    }
}

/// A copy of `items`.
pub fn copy_items(items: &Vec<Value>) -> (r: Vec<Value>)
    ensures
        Value::List(r)@ == Value::List(*items)@,
    decreases items,
{
    let mut copy: Vec<Value> = Vec::new();
    let mut i: usize = 0;
    while i < items.len()
        invariant
            i <= items.len(),
            copy.len() == i,
            forall|j: int| 0 <= j < i ==> (#[trigger] copy@[j])@ == items@[j]@,
        decreases items.len() - i,
    {
        copy.push(copy_value(&items[i]));
        i += 1;
    }
    proof {
        lemma_list_view(*items);
        lemma_list_view(copy);
        assert(items_view(copy@) =~= items_view(items@));
    }
    copy
}

/// A copy of `entries`.
pub fn copy_entries(entries: &Vec<Entry>) -> (r: Vec<Entry>)
    ensures
        entries_view(r@) == entries_view(entries@),
        Value::Dict(r)@ == Value::Dict(*entries)@,
    decreases entries,
{
    let mut copy: Vec<Entry> = Vec::new();
    let mut i: usize = 0;
    while i < entries.len()
        invariant
            i <= entries.len(),
            copy.len() == i,
            forall|j: int|
                0 <= j < i ==> (#[trigger] copy@[j]).key@ == entries@[j].key@ && copy@[j].value@
                    == entries@[j].value@,
        decreases entries.len() - i,
    {
        let key = entries[i].key.clone();
        let inner = copy_value(&entries[i].value);
        copy.push(Entry { key, value: inner });
        i += 1;
    }
    proof {
        lemma_dict_view(*entries);
        lemma_dict_view(copy);
        assert(entries_view(copy@) =~= entries_view(entries@));
    }
    copy
}

} // verus!
