//! Reading single settings out of the raw tree, copying and comparing them.
//!
//! A setting that the tree does not mention takes its default. An explicit
//! null is "no value". Anything else has to be of the setting's type.

use vstd::prelude::*;
use crate::config::tree::{entries_view, get, lemma_dict_view, lookup, Entry, Kind, Tree, Value};
use crate::config::types::Variables;
use crate::text::{chars_of, same_chars};

verus! {

/// What is wrong with a value of the tree.
#[derive(Clone, Copy, Debug, PartialEq, Eq, Structural)]
pub enum Fault {
    /// The value is of the kind `found`, which the setting cannot take.
    InvalidType { found: Kind },
    /// The number does not fit the setting.
    OutOfRange,
    /// A section that has to be there is missing.
    Missing,
}

/// The kind of `value`.
pub fn kind_of(value: &Value) -> (r: Kind)
    ensures
        r == value@.kind(),
{
    match value {
        Value::Null => Kind::Unit,
        Value::Bool(_) => Kind::Bool,
        Value::Int(_) => Kind::Integer,
        Value::Real(_) => Kind::Real,
        Value::Text(_) => Kind::Text,
        Value::List(items) => {
            proof {
                crate::config::tree::lemma_list_view(*items);
            }
            Kind::List
        },
        Value::Dict(entries) => {
            proof {
                lemma_dict_view(*entries);
            }
            Kind::Dict
        },
    }
}

/// The fault of the flag `name` in `entries`, if it has one.
pub open spec fn flag_fault(entries: Seq<(Seq<char>, Tree)>, name: Seq<char>) -> Option<Fault> {
    match lookup(entries, name) {
        None | Some(Tree::Null) | Some(Tree::Bool(_)) => None,
        Some(t) => Some(Fault::InvalidType { found: t.kind() }),
    }
}

/// The flag `name` in `entries`, with `default` where they do not mention it.
pub open spec fn flag_value(
    entries: Seq<(Seq<char>, Tree)>,
    name: Seq<char>,
    default: Option<bool>,
) -> Option<bool> {
    match lookup(entries, name) {
        None => default,
        Some(Tree::Bool(b)) => Some(b),
        _ => None,
    }
}

/// Reads the flag `name`.
pub fn read_flag(entries: &Vec<Entry>, name: &str, default: Option<bool>) -> (r: Result<
    Option<bool>,
    Fault,
>)
    ensures
        match r {
            Ok(v) => flag_fault(entries_view(entries@), name@) is None && v == flag_value(
                entries_view(entries@),
                name@,
                default,
            ),
            Err(f) => flag_fault(entries_view(entries@), name@) == Some(f),
        },
{
    match get(entries, name) {
        None => Ok(default),
        Some(Value::Null) => Ok(None),
        Some(Value::Bool(b)) => Ok(Some(*b)),
        Some(other) => Err(Fault::InvalidType { found: kind_of(other) }),
    }
}

/// The fault of the text `name` in `entries`, if it has one.
pub open spec fn text_fault(entries: Seq<(Seq<char>, Tree)>, name: Seq<char>) -> Option<Fault> {
    match lookup(entries, name) {
        None | Some(Tree::Null) | Some(Tree::Text(_)) => None,
        Some(t) => Some(Fault::InvalidType { found: t.kind() }),
    }
}

/// The text `name` in `entries`, with `default` where they do not mention it.
pub open spec fn text_value(
    entries: Seq<(Seq<char>, Tree)>,
    name: Seq<char>,
    default: Option<Seq<char>>,
) -> Option<Seq<char>> {
    match lookup(entries, name) {
        None => default,
        Some(Tree::Text(s)) => Some(s),
        _ => None,
    }
}

/// A copy of `text`.
pub fn copy_text(text: &Option<String>) -> (r: Option<String>)
    ensures
        r.deep_view() == text.deep_view(),
{
    match text {
        Some(s) => Some(s.clone()),
        None => None,
    }
}

/// Reads the text `name`.
pub fn read_text(entries: &Vec<Entry>, name: &str, default: &Option<String>) -> (r: Result<
    Option<String>,
    Fault,
>)
    ensures
        match r {
            Ok(v) => text_fault(entries_view(entries@), name@) is None && v.deep_view()
                == text_value(entries_view(entries@), name@, default.deep_view()),
            Err(f) => text_fault(entries_view(entries@), name@) == Some(f),
        },
{
    match get(entries, name) {
        None => Ok(copy_text(default)),
        Some(Value::Null) => Ok(None),
        Some(Value::Text(s)) => Ok(Some(s.clone())),
        Some(other) => Err(Fault::InvalidType { found: kind_of(other) }),
    }
}

/// The fault of the number `name` in `entries`, which has to lie between
/// `low` and `high`, if it has one.
pub open spec fn number_fault(
    entries: Seq<(Seq<char>, Tree)>,
    name: Seq<char>,
    low: int,
    high: int,
) -> Option<Fault> {
    match lookup(entries, name) {
        None | Some(Tree::Null) => None,
        Some(Tree::Int(n)) => if low <= n <= high {
            None
        } else {
            Some(Fault::OutOfRange)
        },
        Some(t) => Some(Fault::InvalidType { found: t.kind() }),
    }
}

/// The number `name` in `entries`, with `default` where they do not mention
/// it.
pub open spec fn number_value(
    entries: Seq<(Seq<char>, Tree)>,
    name: Seq<char>,
    default: Option<int>,
) -> Option<int> {
    match lookup(entries, name) {
        None => default,
        Some(Tree::Int(n)) => Some(n),
        _ => None,
    }
}

/// Reads the number `name`, which has to lie between `low` and `high`.
pub fn read_number(
    entries: &Vec<Entry>,
    name: &str,
    default: Option<i128>,
    low: i128,
    high: i128,
) -> (r: Result<Option<i128>, Fault>)
    requires
        default matches Some(d) ==> low <= d <= high,
    ensures
        match r {
            Ok(v) => {
                &&& number_fault(entries_view(entries@), name@, low as int, high as int) is None
                &&& number_value(
                    entries_view(entries@),
                    name@,
                    match default {
                        Some(d) => Some(d as int),
                        None => None,
                    },
                ) == match v {
                    Some(n) => Some(n as int),
                    None => None,
                }
                &&& v matches Some(n) ==> low <= n <= high
            },
            Err(f) => number_fault(entries_view(entries@), name@, low as int, high as int)
                == Some(f),
        },
{
    match get(entries, name) {
        None => Ok(default),
        Some(Value::Null) => Ok(None),
        Some(Value::Int(n)) => {
            if low <= *n && *n <= high {
                Ok(Some(*n))
            } else {
                Err(Fault::OutOfRange)
            }
        },
        Some(other) => Err(Fault::InvalidType { found: kind_of(other) }),
    }
}

/// The position of the first of `entries` whose value is no text, or their
/// number if all are.
pub open spec fn first_non_text(entries: Seq<(Seq<char>, Tree)>) -> int
    decreases entries.len(),
{
    if entries.len() == 0 {
        0
    } else if !(entries[0].1 is Text) {
        0
    } else {
        1 + first_non_text(entries.drop_first())
    }
}

/// Whether every one of `entries` holds a text.
pub open spec fn all_text(entries: Seq<(Seq<char>, Tree)>) -> bool {
    forall|i: int| 0 <= i < entries.len() ==> (#[trigger] entries[i]).1 is Text
}

/// The variables that `entries`, all of them texts, define.
pub open spec fn variables_of(entries: Seq<(Seq<char>, Tree)>) -> Seq<(Seq<char>, Seq<char>)> {
    Seq::new(entries.len(), |i: int| (entries[i].0, entries[i].1->Text_0))
}

/// The position of the first value that is no text is within bounds, all
/// values before it are texts, and the one at it is not.
pub proof fn lemma_first_non_text(entries: Seq<(Seq<char>, Tree)>)
    ensures
        0 <= first_non_text(entries) <= entries.len(),
        forall|i: int| 0 <= i < first_non_text(entries) ==> (#[trigger] entries[i]).1 is Text,
        first_non_text(entries) < entries.len() ==> !(entries[first_non_text(entries)].1 is Text),
        first_non_text(entries) == entries.len() <==> all_text(entries),
    decreases entries.len(),
{
    if entries.len() > 0 && entries[0].1 is Text {
        lemma_first_non_text(entries.drop_first());
        assert forall|i: int| 0 <= i < first_non_text(entries) implies (#[trigger] entries[i]).1
            is Text by {
            if i > 0 {
                assert(entries[i] == entries.drop_first()[i - 1]);
            }
        }
        if first_non_text(entries) < entries.len() {
            assert(entries[first_non_text(entries)] == entries.drop_first()[first_non_text(
                entries,
            ) - 1]);
        }
    }
}

/// The fault of the list of variables `name` in `entries`, if it has one.
pub open spec fn variables_fault(entries: Seq<(Seq<char>, Tree)>, name: Seq<char>) -> Option<
    Fault,
> {
    match lookup(entries, name) {
        None | Some(Tree::Null) => None,
        Some(Tree::Dict(vars)) => if all_text(vars) {
            None
        } else {
            Some(Fault::InvalidType { found: vars[first_non_text(vars)].1.kind() })
        },
        Some(t) => Some(Fault::InvalidType { found: t.kind() }),
    }
}

/// The list of variables `name` in `entries`, with `default` where they do
/// not mention it.
pub open spec fn variables_value(
    entries: Seq<(Seq<char>, Tree)>,
    name: Seq<char>,
    default: Option<Seq<(Seq<char>, Seq<char>)>>,
) -> Option<Seq<(Seq<char>, Seq<char>)>> {
    match lookup(entries, name) {
        None => default,
        Some(Tree::Dict(vars)) => Some(variables_of(vars)),
        _ => None,
    }
}

/// A copy of `vars`.
pub fn copy_variables(vars: &Option<Variables>) -> (r: Option<Variables>)
    ensures
        r.deep_view() == vars.deep_view(),
{
    match vars {
        None => None,
        Some(list) => {
            let mut copy: Variables = Vec::new();
            let mut i: usize = 0;
            while i < list.len()
                invariant
                    i <= list.len(),
                    copy.len() == i,
                    copy.deep_view() == list.deep_view().take(i as int),
                decreases list.len() - i,
            {
                let ghost before = copy;
                copy.push((list[i].0.clone(), list[i].1.clone()));
                assert forall|j: int| 0 <= j <= i implies copy.deep_view()[j]
                    == list.deep_view()[j] by {
                    if j < i {
                        assert(copy@[j] == before@[j]);
                        assert(before.deep_view()[j] == list.deep_view().take(i as int)[j]);
                    }
                }
                assert(copy.deep_view() =~= list.deep_view().take(i + 1));
                i += 1;
            }
            assert(list.deep_view().take(list.len() as int) == list.deep_view());
            Some(copy)
        },
    }
}

/// Reads the list of variables `name`.
#[verifier::loop_isolation(false)]
pub fn read_variables(entries: &Vec<Entry>, name: &str, default: &Option<Variables>) -> (r:
    Result<Option<Variables>, Fault>)
    ensures
        match r {
            Ok(v) => variables_fault(entries_view(entries@), name@) is None && v.deep_view()
                == variables_value(entries_view(entries@), name@, default.deep_view()),
            Err(f) => variables_fault(entries_view(entries@), name@) == Some(f),
        },
{
    match get(entries, name) {
        None => Ok(copy_variables(default)),
        Some(Value::Null) => Ok(None),
        Some(Value::Dict(vars)) => {
            proof {
                lemma_dict_view(*vars);
                lemma_first_non_text(entries_view(vars@));
            }
            let mut list: Variables = Vec::new();
            let mut i: usize = 0;
            while i < vars.len()
                invariant
                    i <= vars.len(),
                    forall|j: int|
                        0 <= j < i ==> (#[trigger] entries_view(vars@)[j]).1 is Text,
                    list.len() == i,
                    list.deep_view() == variables_of(entries_view(vars@)).take(i as int),
                decreases vars.len() - i,
            {
                match &vars[i].value {
                    Value::Text(s) => {
                        let ghost before = list;
                        list.push((vars[i].key.clone(), s.clone()));
                        assert forall|j: int| 0 <= j <= i implies list.deep_view()[j]
                            == variables_of(entries_view(vars@))[j] by {
                            if j < i {
                                assert(list@[j] == before@[j]);
                                assert(before.deep_view()[j] == variables_of(
                                    entries_view(vars@),
                                ).take(i as int)[j]);
                            }
                        }
                        assert(list.deep_view() =~= variables_of(entries_view(vars@)).take(
                            i + 1,
                        ));
                    },
                    other => {
                        let found = kind_of(other);
                        proof {
                            let all = entries_view(vars@);
                            assert(!(all[i as int].1 is Text));
                            lemma_first_non_text_is(all, i as int);
                        }
                        return Err(Fault::InvalidType { found });
                    },
                }
                i += 1;
            }
            assert(variables_of(entries_view(vars@)).take(vars.len() as int) == variables_of(
                entries_view(vars@),
            ));
            assert(all_text(entries_view(vars@)));
            Ok(Some(list))
        },
        Some(other) => {
            let found = kind_of(other);
            Err(Fault::InvalidType { found })
        },
    }
}

/// The first position at which a value is no text is `at`, if all values
/// before `at` are texts and the one at `at` is not.
pub proof fn lemma_first_non_text_is(entries: Seq<(Seq<char>, Tree)>, at: int)
    requires
        0 <= at < entries.len(),
        forall|j: int| 0 <= j < at ==> (#[trigger] entries[j]).1 is Text,
        !(entries[at].1 is Text),
    ensures
        first_non_text(entries) == at,
        !all_text(entries),
    decreases entries.len(),
{
    if at > 0 {
        assert(entries[0].1 is Text);
        assert forall|j: int| 0 <= j < at - 1 implies (#[trigger] entries.drop_first()[j]).1
            is Text by {
            assert(entries.drop_first()[j] == entries[j + 1]);
        }
        lemma_first_non_text_is(entries.drop_first(), at - 1);
    }
}

/// The fault of the section `name` in `entries`, if it has one; a section
/// that is not there is a fault only if it is `required`.
pub open spec fn section_fault(
    entries: Seq<(Seq<char>, Tree)>,
    name: Seq<char>,
    required: bool,
) -> Option<Fault> {
    match lookup(entries, name) {
        None => if required {
            Some(Fault::Missing)
        } else {
            None
        },
        Some(Tree::Dict(_)) => None,
        Some(t) => Some(Fault::InvalidType { found: t.kind() }),
    }
}

/// The entries of the section `name` in `entries`; none if it is not there.
pub open spec fn section_entries(entries: Seq<(Seq<char>, Tree)>, name: Seq<char>) -> Seq<
    (Seq<char>, Tree),
> {
    match lookup(entries, name) {
        Some(Tree::Dict(inner)) => inner,
        _ => Seq::empty(),
    }
}

/// Whether the options `a` and `b` hold the same text.
pub fn same_text(a: &Option<String>, b: &Option<String>) -> (r: bool)
    ensures
        r == (a.deep_view() == b.deep_view()),
{
    match (a, b) {
        (None, None) => true,
        (Some(x), Some(y)) => same_chars(&chars_of(x.as_str()), &chars_of(y.as_str())),
        _ => false,
    }
}

/// Whether the options `a` and `b` hold the same flag.
pub fn same_flag(a: Option<bool>, b: Option<bool>) -> (r: bool)
    ensures
        r == (a == b),
{
    match (a, b) {
        (None, None) => true,
        (Some(x), Some(y)) => x == y,
        _ => false,
    }
}

/// Whether the options `a` and `b` hold the same number.
pub fn same_number(a: Option<i64>, b: Option<i64>) -> (r: bool)
    ensures
        r == (a == b),
{
    match (a, b) {
        (None, None) => true,
        (Some(x), Some(y)) => x == y,
        _ => false,
    }
}

/// Whether `a` and `b` list the same variables in the same order.
#[verifier::loop_isolation(false)]
pub fn same_variables(a: &Option<Variables>, b: &Option<Variables>) -> (r: bool)
    ensures
        r == (a.deep_view() == b.deep_view()),
{
    match (a, b) {
        (None, None) => true,
        (Some(x), Some(y)) => {
            if x.len() != y.len() {
                assert(x.deep_view().len() != y.deep_view().len());
                return false;
            }
            let mut i: usize = 0;
            while i < x.len()
                invariant
                    i <= x.len(),
                    x.len() == y.len(),
                    forall|j: int| 0 <= j < i ==> x.deep_view()[j] == y.deep_view()[j],
                decreases x.len() - i,
            {
                let same_name = same_chars(
                    &chars_of(x[i].0.as_str()),
                    &chars_of(y[i].0.as_str()),
                );
                let same_value = same_chars(
                    &chars_of(x[i].1.as_str()),
                    &chars_of(y[i].1.as_str()),
                );
                if !same_name || !same_value {
                    assert(x.deep_view()[i as int] == (x@[i as int].0@, x@[i as int].1@));
                    assert(y.deep_view()[i as int] == (y@[i as int].0@, y@[i as int].1@));
                    assert(x.deep_view()[i as int] != y.deep_view()[i as int]);
                    return false;
                }
                i += 1;
            }
            assert(x.deep_view() =~= y.deep_view());
            true
        },
        _ => false,
    }
}

} // verus!
