//! Schema migrations of the raw tree.
//!
//! A migration is a pure transformation that rewrites a legacy shape into the
//! current one. It fires only where it finds the legacy shape, so applying it
//! again changes nothing. Migrations run in a fixed order, before the tree is
//! given its typed form: they see a file as it was written.

use vstd::prelude::*;
use crate::config::fields::all_text;
use crate::config::history::{recorded, MigrationHistory};
use crate::config::tree::{
    copy_entries, copy_value, entries_view, get, lemma_dict_view, lemma_lookup_store,
    lemma_position, lemma_store_same, lookup, position, put, store, Entry, Tree, Value,
};

verus! {

/// Whether `env` has the shape that the server's environment variables had
/// before they could be switched off: nothing at all, or a plain mapping
/// from names to texts.
pub open spec fn is_legacy_env(env: Tree) -> bool {
    env is Null || (env matches Tree::Dict(vars) && all_text(vars))
}

/// The current shape of the environment variables `env`: a legacy mapping
/// becomes the list of variables of a section that is switched on, nothing
/// becomes a section that is switched off, and the current shape stays.
pub open spec fn upgraded_env(env: Tree) -> Tree {
    match env {
        Tree::Null => Tree::Dict(seq![("enabled"@, Tree::Bool(false))]),
        Tree::Dict(vars) => if all_text(vars) {
            Tree::Dict(seq![("enabled"@, Tree::Bool(true)), ("vars"@, Tree::Dict(vars))])
        } else {
            env
        },
        _ => env,
    }
}

/// The document `tree` with the server's environment variables, found under
/// `memos.env`, in their current shape.
pub open spec fn with_upgraded_env(tree: Tree) -> Tree {
    match tree {
        Tree::Dict(top) => match lookup(top, "memos"@) {
            Some(Tree::Dict(memos)) => match lookup(memos, "env"@) {
                Some(env) => Tree::Dict(
                    store(top, "memos"@, Tree::Dict(store(memos, "env"@, upgraded_env(env)))),
                ),
                None => tree,
            },
            _ => tree,
        },
        _ => tree,
    }
}

/// The server's environment variables as the document `tree` holds them
/// under `memos.env`, if it mentions them.
pub open spec fn server_env(tree: Tree) -> Option<Tree> {
    match tree {
        Tree::Dict(top) => match lookup(top, "memos"@) {
            Some(Tree::Dict(memos)) => lookup(memos, "env"@),
            _ => None,
        },
        _ => None,
    }
}

/// Whether every one of `entries` holds a text.
fn holds_texts_only(entries: &Vec<Entry>) -> (r: bool)
    ensures
        r == all_text(entries_view(entries@)),
{
    let mut i: usize = 0;
    while i < entries.len()
        invariant
            i <= entries.len(),
            forall|j: int| 0 <= j < i ==> (#[trigger] entries_view(entries@)[j]).1 is Text,
        decreases entries.len() - i,
    {
        match &entries[i].value {
            Value::Text(_) => {},
            _ => {
                assert(!(entries_view(entries@)[i as int].1 is Text));
                return false;
            },
        }
        i += 1;
    }
    true
}

/// The current shape of the environment variables `env`.
pub fn upgrade_env(env: &Value) -> (r: Value)
    ensures
        r@ == upgraded_env(env@),
{
    match env {
        Value::Null => {
            let mut section: Vec<Entry> = Vec::new();
            section.push(Entry { key: String::from_str("enabled"), value: Value::Bool(false) });
            proof {
                lemma_dict_view(section);
                assert(entries_view(section@) =~= seq![("enabled"@, Tree::Bool(false))]);
            }
            Value::Dict(section)
        },
        Value::Dict(vars) => {
            proof {
                lemma_dict_view(*vars);
            }
            if holds_texts_only(vars) {
                let list = copy_entries(vars);
                let mut section: Vec<Entry> = Vec::new();
                section.push(Entry { key: String::from_str("enabled"), value: Value::Bool(true) });
                section.push(Entry { key: String::from_str("vars"), value: Value::Dict(list) });
                proof {
                    lemma_dict_view(section);
                    lemma_dict_view(list);
                    assert(entries_view(section@) =~= seq![
                        ("enabled"@, Tree::Bool(true)),
                        ("vars"@, Tree::Dict(entries_view(vars@))),
                    ]);
                }
                Value::Dict(section)
            } else {
                copy_value(env)
            }
        },
        _ => copy_value(env),
    }
}

/// Brings a document written before the server's environment variables
/// could be switched off into the current shape.
pub fn v_0_1_7_to_v1_0_0(tree: &Value) -> (r: Value)
    ensures
        r@ == with_upgraded_env(tree@),
{
    match tree {
        Value::Dict(top) => {
            proof {
                lemma_dict_view(*top);
            }
            match get(top, "memos") {
                Some(Value::Dict(memos)) => {
                    proof {
                        lemma_dict_view(*memos);
                    }
                    match get(memos, "env") {
                        Some(env) => {
                            let upgraded = upgrade_env(env);
                            let mut section = copy_entries(memos);
                            put(&mut section, "env", upgraded);
                            let mut document = copy_entries(top);
                            proof {
                                lemma_dict_view(section);
                            }
                            put(&mut document, "memos", Value::Dict(section));
                            proof {
                                lemma_dict_view(document);
                            }
                            Value::Dict(document)
                        },
                        None => copy_value(tree),
                    }
                },
                _ => copy_value(tree),
            }
        },
        _ => copy_value(tree),
    }
}

/// The document `tree` after all migrations, in their order.
pub open spec fn migrated(tree: Tree) -> Tree {
    with_upgraded_env(tree)
}

/// Applies every migration to `tree`, in order.
pub fn migrate(tree: &Value) -> (r: Value)
    ensures
        r@ == migrated(tree@),
{
    v_0_1_7_to_v1_0_0(tree)
}

/// The identifier of the migration that brings the server's environment
/// variables into their current shape.
pub const LEGACY_ENV_FORMAT: &'static str = "v0.1.7-to-v1.0.0";

/// Applies the migrations that `history` does not record to `tree`, and
/// records them as completed at `now`. A migration that is recorded is not
/// applied again.
pub fn migrate_recorded(tree: &Value, history: &mut MigrationHistory, now: u64) -> (r: Value)
    ensures
        r@ == if lookup(old(history)@, LEGACY_ENV_FORMAT@) is None {
            migrated(tree@)
        } else {
            tree@
        },
        final(history)@ == recorded(old(history)@, LEGACY_ENV_FORMAT@, now),
{
    if history.is_pending(LEGACY_ENV_FORMAT) {
        let r = v_0_1_7_to_v1_0_0(tree);
        history.record(LEGACY_ENV_FORMAT, now);
        r
    } else {
        history.record(LEGACY_ENV_FORMAT, now);
        copy_value(tree)
    }
}

/// Putting under a key what is already there changes nothing.
pub proof fn lemma_store_again(entries: Seq<(Seq<char>, Tree)>, key: Seq<char>, value: Tree)
    ensures
        store(store(entries, key, value), key, value) == store(entries, key, value),
{
    lemma_lookup_store(entries, key, value, key);
    let once = store(entries, key, value);
    lemma_position(once, key);
    assert(once[position(once, key)] == (key, value));
    assert(store(once, key, value) =~= once);
}

/// The current shape of environment variables is not a legacy shape, so
/// upgrading it again changes nothing.
pub proof fn lemma_upgraded_env_is_current(env: Tree)
    ensures
        upgraded_env(upgraded_env(env)) == upgraded_env(env),
{
    match env {
        Tree::Null => {
            let section = seq![("enabled"@, Tree::Bool(false))];
            assert(!(section[0].1 is Text));
        },
        Tree::Dict(vars) => {
            if all_text(vars) {
                let section = seq![("enabled"@, Tree::Bool(true)), ("vars"@, Tree::Dict(vars))];
                assert(!(section[0].1 is Text));
            }
        },
        _ => {},
    }
}

/// Applying the legacy-environment migration twice gives what applying it
/// once gives, for every document.
pub proof fn lemma_migration_is_idempotent(tree: Tree)
    ensures
        with_upgraded_env(with_upgraded_env(tree)) == with_upgraded_env(tree),
        migrated(migrated(tree)) == migrated(tree),
{
    match tree {
        Tree::Dict(top) => match lookup(top, "memos"@) {
            Some(Tree::Dict(memos)) => match lookup(memos, "env"@) {
                Some(env) => {
                    let env1 = upgraded_env(env);
                    let memos1 = store(memos, "env"@, env1);
                    let top1 = store(top, "memos"@, Tree::Dict(memos1));
                    lemma_lookup_store(top, "memos"@, Tree::Dict(memos1), "memos"@);
                    lemma_lookup_store(memos, "env"@, env1, "env"@);
                    lemma_upgraded_env_is_current(env);
                    lemma_store_again(memos, "env"@, env1);
                    lemma_store_again(top, "memos"@, Tree::Dict(memos1));
                },
                None => {},
            },
            _ => {},
        },
        _ => {},
    }
}

/// A document that does not hold the server's environment variables in
/// their legacy shape is left as it is by every migration.
pub proof fn lemma_current_shape_is_kept(tree: Tree)
    requires
        server_env(tree) matches Some(env) ==> !is_legacy_env(env),
    ensures
        migrated(tree) == tree,
{
    match tree {
        Tree::Dict(top) => match lookup(top, "memos"@) {
            Some(Tree::Dict(memos)) => match lookup(memos, "env"@) {
                Some(env) => {
                    assert(upgraded_env(env) == env);
                    lemma_store_same(memos, "env"@, env);
                    lemma_store_same(top, "memos"@, Tree::Dict(memos));
                },
                None => {},
            },
            _ => {},
        },
        _ => {},
    }
}

} // verus!
