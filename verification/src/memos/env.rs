//! The environment of the managed server.
//!
//! The server reads its settings from variables whose names begin with
//! `MEMOS_`. The variables that the user configured go in first; the
//! variables that the launcher manages go in second, so that they win:
//! mode, address, port, data directory, and a few safety defaults that the
//! user must not override.

use vstd::prelude::*;
use vstd::utf8::is_ascii_chars;
use crate::config::tree::{lemma_position_is, lookup, store};
use crate::config::types::Variables;
use crate::decimal::{decimal, format_decimal};
use crate::runtime_config::{RuntimeConfig, RuntimeConfigView};
use crate::text::{
    ascii_upper, chars_of, has_prefix, push_all, replace_char, same_chars, string_of,
    uppercase_of, with_replaced,
};

verus! {

/// The name of the server's variable for the key whose uppercase form is
/// `upper`: hyphens become underscores, and the prefix `MEMOS_` is put in
/// front unless it is there.
pub open spec fn env_key_from(upper: Seq<char>) -> Seq<char> {
    let name = replace_char(upper, '-', '_');
    if "MEMOS_"@.is_prefix_of(name) {
        name
    } else {
        "MEMOS_"@ + name
    }
}

/// The name of the server's variable for `key`.
pub open spec fn env_key(key: Seq<char>) -> Seq<char> {
    env_key_from(uppercase_of(key))
}

/// The name of the server's variable for the key whose uppercase form is
/// `upper`.
pub fn env_key_of(upper: &str) -> (r: String)
    ensures
        r@ == env_key_from(upper@),
{
    let name = with_replaced(&chars_of(upper), '-', '_');
    let prefix = chars_of("MEMOS_");
    if has_prefix(&name, &prefix) {
        string_of(&name)
    } else {
        let mut full = prefix;
        push_all(&mut full, &name);
        string_of(&full)
    }
}

/// The name of the server's variable for `key`: uppercased, hyphens turned
/// into underscores, with the prefix `MEMOS_`.
pub fn make_env_key(key: &str) -> (r: String)
    ensures
        r@ == env_key(key@),
        is_ascii_chars(key@) ==> r@ == env_key_from(ascii_upper(key@)),
{
    let upper = key.to_uppercase();
    env_key_of(upper.as_str())
}

/// The variables that the launcher manages.
#[derive(Clone, Copy, Debug, PartialEq, Eq, Structural)]
pub enum ManagedVar {
    Mode,
    Addr,
    Port,
    Data,
    Metric,
    InstanceUrl,
    Public,
    PasswordAuth,
}

impl ManagedVar {
    /// The name of the server's variable.
    pub open spec fn env_name(self) -> Seq<char> {
        match self {
            ManagedVar::Mode => "MEMOS_MODE"@,
            ManagedVar::Addr => "MEMOS_ADDR"@,
            ManagedVar::Port => "MEMOS_PORT"@,
            ManagedVar::Data => "MEMOS_DATA"@,
            ManagedVar::Metric => "MEMOS_METRIC"@,
            ManagedVar::InstanceUrl => "MEMOS_INSTANCE_URL"@,
            ManagedVar::Public => "MEMOS_PUBLIC"@,
            ManagedVar::PasswordAuth => "MEMOS_PASSWORD_AUTH"@,
        }
    }

    /// The name of the server's variable, made from the key of the setting.
    pub fn key(self) -> (r: String)
        ensures
            r@ == self.env_name(),
    {
        proof {
            reveal_strlit("MEMOS_");
        }
        match self {
            ManagedVar::Mode => {
                let key = make_env_key("mode");
                proof {
                    reveal_strlit("mode");
                    reveal_strlit("MEMOS_MODE");
                    let up = ascii_upper("mode"@);
                    assert(up[0] == 'M');
                    assert(up[1] == 'O');
                    assert(up[2] == 'D');
                    assert(up[3] == 'E');
                    let name = replace_char(up, '-', '_');
                    assert(name =~= up);
                    assert(!"MEMOS_"@.is_prefix_of(name));
                    assert(key@ =~= "MEMOS_MODE"@);
                }
                key
            },
            ManagedVar::Addr => {
                let key = make_env_key("addr");
                proof {
                    reveal_strlit("addr");
                    reveal_strlit("MEMOS_ADDR");
                    let up = ascii_upper("addr"@);
                    assert(up[0] == 'A');
                    assert(up[1] == 'D');
                    assert(up[2] == 'D');
                    assert(up[3] == 'R');
                    let name = replace_char(up, '-', '_');
                    assert(name =~= up);
                    assert(!"MEMOS_"@.is_prefix_of(name));
                    assert(key@ =~= "MEMOS_ADDR"@);
                }
                key
            },
            ManagedVar::Port => {
                let key = make_env_key("port");
                proof {
                    reveal_strlit("port");
                    reveal_strlit("MEMOS_PORT");
                    let up = ascii_upper("port"@);
                    assert(up[0] == 'P');
                    assert(up[1] == 'O');
                    assert(up[2] == 'R');
                    assert(up[3] == 'T');
                    let name = replace_char(up, '-', '_');
                    assert(name =~= up);
                    assert(!"MEMOS_"@.is_prefix_of(name));
                    assert(key@ =~= "MEMOS_PORT"@);
                }
                key
            },
            ManagedVar::Data => {
                let key = make_env_key("data");
                proof {
                    reveal_strlit("data");
                    reveal_strlit("MEMOS_DATA");
                    let up = ascii_upper("data"@);
                    assert(up[0] == 'D');
                    assert(up[1] == 'A');
                    assert(up[2] == 'T');
                    assert(up[3] == 'A');
                    let name = replace_char(up, '-', '_');
                    assert(name =~= up);
                    assert(!"MEMOS_"@.is_prefix_of(name));
                    assert(key@ =~= "MEMOS_DATA"@);
                }
                key
            },
            ManagedVar::Metric => {
                let key = make_env_key("metric");
                proof {
                    reveal_strlit("metric");
                    reveal_strlit("MEMOS_METRIC");
                    let up = ascii_upper("metric"@);
                    assert(up[0] == 'M');
                    assert(up[1] == 'E');
                    assert(up[2] == 'T');
                    assert(up[3] == 'R');
                    assert(up[4] == 'I');
                    assert(up[5] == 'C');
                    let name = replace_char(up, '-', '_');
                    assert(name =~= up);
                    assert(name.subrange(0, 6)[2] != "MEMOS_"@[2]);
                    assert(!"MEMOS_"@.is_prefix_of(name));
                    assert(key@ =~= "MEMOS_METRIC"@);
                }
                key
            },
            ManagedVar::InstanceUrl => {
                let key = make_env_key("instance_url");
                proof {
                    reveal_strlit("instance_url");
                    reveal_strlit("MEMOS_INSTANCE_URL");
                    let up = ascii_upper("instance_url"@);
                    assert(up[0] == 'I');
                    assert(up[1] == 'N');
                    assert(up[2] == 'S');
                    assert(up[3] == 'T');
                    assert(up[4] == 'A');
                    assert(up[5] == 'N');
                    assert(up[6] == 'C');
                    assert(up[7] == 'E');
                    assert(up[8] == '_');
                    assert(up[9] == 'U');
                    assert(up[10] == 'R');
                    assert(up[11] == 'L');
                    let name = replace_char(up, '-', '_');
                    assert(name =~= up);
                    assert(name.subrange(0, 6)[0] != "MEMOS_"@[0]);
                    assert(!"MEMOS_"@.is_prefix_of(name));
                    assert(key@ =~= "MEMOS_INSTANCE_URL"@);
                }
                key
            },
            ManagedVar::Public => {
                let key = make_env_key("public");
                proof {
                    reveal_strlit("public");
                    reveal_strlit("MEMOS_PUBLIC");
                    let up = ascii_upper("public"@);
                    assert(up[0] == 'P');
                    assert(up[1] == 'U');
                    assert(up[2] == 'B');
                    assert(up[3] == 'L');
                    assert(up[4] == 'I');
                    assert(up[5] == 'C');
                    let name = replace_char(up, '-', '_');
                    assert(name =~= up);
                    assert(name.subrange(0, 6)[0] != "MEMOS_"@[0]);
                    assert(!"MEMOS_"@.is_prefix_of(name));
                    assert(key@ =~= "MEMOS_PUBLIC"@);
                }
                key
            },
            ManagedVar::PasswordAuth => {
                let key = make_env_key("password_auth");
                proof {
                    reveal_strlit("password_auth");
                    reveal_strlit("MEMOS_PASSWORD_AUTH");
                    let up = ascii_upper("password_auth"@);
                    assert(up[0] == 'P');
                    assert(up[1] == 'A');
                    assert(up[2] == 'S');
                    assert(up[3] == 'S');
                    assert(up[4] == 'W');
                    assert(up[5] == 'O');
                    assert(up[6] == 'R');
                    assert(up[7] == 'D');
                    assert(up[8] == '_');
                    assert(up[9] == 'A');
                    assert(up[10] == 'U');
                    assert(up[11] == 'T');
                    assert(up[12] == 'H');
                    let name = replace_char(up, '-', '_');
                    assert(name =~= up);
                    assert(name.subrange(0, 6)[0] != "MEMOS_"@[0]);
                    assert(!"MEMOS_"@.is_prefix_of(name));
                    assert(key@ =~= "MEMOS_PASSWORD_AUTH"@);
                }
                key
            },
        }
    }
}

/// `vars` after every one of `items` was put in, in order: a name that is
/// there keeps its place and gets the new value, a new name goes to the end.
pub open spec fn stored_all(
    vars: Seq<(Seq<char>, Seq<char>)>,
    items: Seq<(Seq<char>, Seq<char>)>,
) -> Seq<(Seq<char>, Seq<char>)>
    decreases items.len(),
{
    if items.len() == 0 {
        vars
    } else {
        store(stored_all(vars, items.drop_last()), items.last().0, items.last().1)
    }
}

/// The text in `text`, or the empty text.
pub open spec fn text_or_empty(text: Option<Seq<char>>) -> Seq<char> {
    match text {
        Some(s) => s,
        None => Seq::empty(),
    }
}

/// The variables that the launcher manages, with their values.
pub open spec fn managed_vars(config: RuntimeConfigView) -> Seq<(Seq<char>, Seq<char>)> {
    seq![
        ("MEMOS_MODE"@, text_or_empty(config.yaml.memos.mode)),
        ("MEMOS_ADDR"@, text_or_empty(config.yaml.memos.addr)),
        (
            "MEMOS_PORT"@,
            decimal(
                match config.yaml.memos.port {
                    Some(p) => p as nat,
                    None => 0,
                },
            ),
        ),
        ("MEMOS_DATA"@, config.paths.memos_data),
        ("MEMOS_METRIC"@, "false"@),
        ("MEMOS_INSTANCE_URL"@, config.memos_url),
        ("MEMOS_PUBLIC"@, "false"@),
        ("MEMOS_PASSWORD_AUTH"@, "true"@),
    ]
}

/// The variables that the user configured for the server, if they are
/// switched on.
pub open spec fn user_vars(config: RuntimeConfigView) -> Seq<(Seq<char>, Seq<char>)> {
    match config.yaml.memos.env.vars {
        Some(vars) if config.yaml.memos.env.enabled == Some(true) => vars,
        _ => Seq::empty(),
    }
}

/// The variables `vars` under the names that the server reads: every name
/// uppercased, with underscores for hyphens and the prefix `MEMOS_`.
pub open spec fn keyed(vars: Seq<(Seq<char>, Seq<char>)>) -> Seq<(Seq<char>, Seq<char>)> {
    Seq::new(vars.len(), |i: int| (env_key(vars[i].0), vars[i].1))
}

/// The environment of the managed server: the user's variables under the
/// names that the server reads, then the managed ones on top, so that a
/// managed variable wins over a user's variable of the same name.
pub open spec fn prepared_env(config: RuntimeConfigView) -> Seq<(Seq<char>, Seq<char>)> {
    stored_all(stored_all(Seq::empty(), keyed(user_vars(config))), managed_vars(config))
}

/// The variables that the user configured for the launcher itself, if they
/// are switched on.
pub open spec fn launcher_vars(config: RuntimeConfigView) -> Seq<(Seq<char>, Seq<char>)> {
    match config.yaml.memospot.env.vars {
        Some(vars) if config.yaml.memospot.env.enabled == Some(true) => vars,
        _ => Seq::empty(),
    }
}

/// The variables to set in the launcher's own environment, in order: those
/// that the user configured for it, if they are switched on. They are set
/// after the launcher's own choices, so that the user has the last word.
pub fn set_env_vars(rtcfg: &RuntimeConfig) -> (r: Variables)
    ensures
        r.deep_view() == launcher_vars(rtcfg@),
{
    let enabled = match rtcfg.yaml.memospot.env.enabled {
        Some(b) => b,
        None => false,
    };
    if enabled {
        match crate::config::fields::copy_variables(&rtcfg.yaml.memospot.env.vars) {
            Some(vars) => vars,
            None => {
                let none: Variables = Vec::new();
                assert(none.deep_view() =~= Seq::empty());
                none
            },
        }
    } else {
        let none: Variables = Vec::new();
        assert(none.deep_view() =~= Seq::empty());
        none
    }
}

/// Puts `value` under `key`: in place of what was there, or at the end.
pub fn put_var(vars: &mut Variables, key: String, value: String)
    ensures
        final(vars).deep_view() == store(old(vars).deep_view(), key@, value@),
{
    let wanted = chars_of(key.as_str());
    let mut i: usize = 0;
    while i < vars.len()
        invariant
            i <= vars.len(),
            wanted@ == key@,
            *vars == *old(vars),
            forall|j: int| 0 <= j < i ==> (#[trigger] vars.deep_view()[j]).0 != key@,
        decreases vars.len() - i,
    {
        let candidate = chars_of(vars[i].0.as_str());
        assert(vars.deep_view()[i as int].0 == vars@[i as int].0@);
        if same_chars(&candidate, &wanted) {
            proof {
                lemma_position_is(vars.deep_view(), key@, i as int);
            }
            vars.set(i, (key, value));
            assert(vars.deep_view() =~= store(old(vars).deep_view(), key@, value@));
            return ;
        }
        i += 1;
    }
    proof {
        lemma_position_is(vars.deep_view(), key@, i as int);
    }
    vars.push((key, value));
    assert(vars.deep_view() =~= store(old(vars).deep_view(), key@, value@));
}

/// The environment of the managed server. The variables that the user
/// configured go in first, if they are switched on, each under its name
/// uppercased and prefixed; the managed ones go in second and replace what
/// has their name.
pub fn prepare_env(rtcfg: &RuntimeConfig) -> (r: Variables)
    ensures
        r.deep_view() == prepared_env(rtcfg@),
{
    let mut env: Variables = Vec::new();
    assert(env.deep_view() =~= Seq::empty());
    let enabled = match rtcfg.yaml.memos.env.enabled {
        Some(b) => b,
        None => false,
    };
    let ghost user = keyed(user_vars(rtcfg@));
    if enabled {
        match &rtcfg.yaml.memos.env.vars {
            Some(vars) => {
                let mut i: usize = 0;
                assert(user.take(0) =~= Seq::empty());
                while i < vars.len()
                    invariant
                        i <= vars.len(),
                        user == keyed(vars.deep_view()),
                        env.deep_view() == stored_all(Seq::empty(), user.take(i as int)),
                    decreases vars.len() - i,
                {
                    assert(user.take(i + 1).drop_last() == user.take(i as int));
                    assert(user.take(i + 1).last() == (
                        env_key(vars@[i as int].0@),
                        vars@[i as int].1@,
                    ));
                    put_var(&mut env, make_env_key(vars[i].0.as_str()), vars[i].1.clone());
                    i += 1;
                }
                assert(user.take(vars.len() as int) == user);
            },
            None => {},
        }
    }
    assert(env.deep_view() == stored_all(Seq::empty(), user));
    let ghost base = env.deep_view();
    let ghost managed = managed_vars(rtcfg@);
    assert(managed.take(0) =~= Seq::empty());
    assert(env.deep_view() == stored_all(base, managed.take(0)));
    let mode = match &rtcfg.yaml.memos.mode {
        Some(s) => s.clone(),
        None => String::new(),
    };
    put_var(&mut env, ManagedVar::Mode.key(), mode);
    proof {
        lemma_take_next(base, managed, 0);
        assert(managed[0].0 == "MEMOS_MODE"@);
        assert(stored_all(base, managed.take(1)) == store(
            stored_all(base, managed.take(0)),
            managed[0].0,
            managed[0].1,
        ));
        assert(env.deep_view() == stored_all(base, managed.take(1)));
    }
    let addr = match &rtcfg.yaml.memos.addr {
        Some(s) => s.clone(),
        None => String::new(),
    };
    put_var(&mut env, ManagedVar::Addr.key(), addr);
    proof {
        lemma_take_next(base, managed, 1);
        assert(managed[1].0 == "MEMOS_ADDR"@);
        assert(stored_all(base, managed.take(2)) == store(
            stored_all(base, managed.take(1)),
            managed[1].0,
            managed[1].1,
        ));
        assert(env.deep_view() == stored_all(base, managed.take(2)));
    }
    let port: u16 = match rtcfg.yaml.memos.port {
        Some(p) => p,
        None => 0,
    };
    put_var(&mut env, ManagedVar::Port.key(), string_of(&format_decimal(port as u64)));
    proof {
        lemma_take_next(base, managed, 2);
        assert(managed[2].0 == "MEMOS_PORT"@);
        assert(stored_all(base, managed.take(3)) == store(
            stored_all(base, managed.take(2)),
            managed[2].0,
            managed[2].1,
        ));
        assert(env.deep_view() == stored_all(base, managed.take(3)));
    }
    put_var(&mut env, ManagedVar::Data.key(), rtcfg.paths.memos_data.clone());
    proof {
        lemma_take_next(base, managed, 3);
        assert(managed[3].0 == "MEMOS_DATA"@);
        assert(stored_all(base, managed.take(4)) == store(
            stored_all(base, managed.take(3)),
            managed[3].0,
            managed[3].1,
        ));
        assert(env.deep_view() == stored_all(base, managed.take(4)));
    }
    put_var(&mut env, ManagedVar::Metric.key(), String::from_str("false"));
    proof {
        lemma_take_next(base, managed, 4);
        assert(managed[4].0 == "MEMOS_METRIC"@);
        assert(stored_all(base, managed.take(5)) == store(
            stored_all(base, managed.take(4)),
            managed[4].0,
            managed[4].1,
        ));
        assert(env.deep_view() == stored_all(base, managed.take(5)));
    }
    put_var(&mut env, ManagedVar::InstanceUrl.key(), rtcfg.memos_url.clone());
    proof {
        lemma_take_next(base, managed, 5);
        assert(managed[5].0 == "MEMOS_INSTANCE_URL"@);
        assert(stored_all(base, managed.take(6)) == store(
            stored_all(base, managed.take(5)),
            managed[5].0,
            managed[5].1,
        ));
        assert(env.deep_view() == stored_all(base, managed.take(6)));
    }
    put_var(&mut env, ManagedVar::Public.key(), String::from_str("false"));
    proof {
        lemma_take_next(base, managed, 6);
        assert(managed[6].0 == "MEMOS_PUBLIC"@);
        assert(stored_all(base, managed.take(7)) == store(
            stored_all(base, managed.take(6)),
            managed[6].0,
            managed[6].1,
        ));
        assert(env.deep_view() == stored_all(base, managed.take(7)));
    }
    put_var(&mut env, ManagedVar::PasswordAuth.key(), String::from_str("true"));
    proof {
        lemma_take_next(base, managed, 7);
        assert(managed[7].0 == "MEMOS_PASSWORD_AUTH"@);
        assert(stored_all(base, managed.take(8)) == store(
            stored_all(base, managed.take(7)),
            managed[7].0,
            managed[7].1,
        ));
        assert(env.deep_view() == stored_all(base, managed.take(8)));
        assert(managed.take(8) == managed);
    }
    env
}

/// Putting the first `n + 1` items in is putting the first `n` in and then
/// the next.
pub proof fn lemma_take_next(
    vars: Seq<(Seq<char>, Seq<char>)>,
    items: Seq<(Seq<char>, Seq<char>)>,
    n: int,
)
    requires
        0 <= n < items.len(),
    ensures
        stored_all(vars, items.take(n + 1)) == store(
            stored_all(vars, items.take(n)),
            items[n].0,
            items[n].1,
        ),
{
    assert(items.take(n + 1).drop_last() == items.take(n));
    assert(items.take(n + 1).last() == items[n]);
}

/// Of the items put in, the last one of a name decides what the name
/// holds.
pub proof fn lemma_last_store_wins(
    vars: Seq<(Seq<char>, Seq<char>)>,
    items: Seq<(Seq<char>, Seq<char>)>,
    at: int,
)
    requires
        0 <= at < items.len(),
        forall|j: int| at < j < items.len() ==> (#[trigger] items[j]).0 != items[at].0,
    ensures
        lookup(stored_all(vars, items), items[at].0) == Some(items[at].1),
    decreases items.len(),
{
    let before = stored_all(vars, items.drop_last());
    if at == items.len() - 1 {
        crate::config::tree::lemma_lookup_store(before, items.last().0, items.last().1, items[at].0);
    } else {
        assert(items.drop_last()[at] == items[at]);
        assert forall|j: int| at < j < items.drop_last().len() implies (
        #[trigger] items.drop_last()[j]).0 != items.drop_last()[at].0 by {
            assert(items.drop_last()[j] == items[j]);
        }
        lemma_last_store_wins(vars, items.drop_last(), at);
        assert(items[items.len() - 1].0 != items[at].0);
        crate::config::tree::lemma_lookup_store(before, items.last().0, items.last().1, items[at].0);
    }
}

/// Every name that the server's variables are given begins with `MEMOS_`.
pub proof fn lemma_env_key_is_prefixed(key: Seq<char>)
    ensures
        "MEMOS_"@.is_prefix_of(env_key(key)),
        "MEMOS_"@.is_prefix_of(env_key_from(key)),
{
    let name = replace_char(key, '-', '_');
    if !"MEMOS_"@.is_prefix_of(name) {
        assert(("MEMOS_"@ + name).subrange(0, "MEMOS_"@.len() as int) =~= "MEMOS_"@);
    }
    let upper = replace_char(uppercase_of(key), '-', '_');
    if !"MEMOS_"@.is_prefix_of(upper) {
        assert(("MEMOS_"@ + upper).subrange(0, "MEMOS_"@.len() as int) =~= "MEMOS_"@);
    }
}

/// Every name in `vars` after `items` were put in is a name of `vars` or
/// of `items`.
pub proof fn lemma_stored_names(
    vars: Seq<(Seq<char>, Seq<char>)>,
    items: Seq<(Seq<char>, Seq<char>)>,
    at: int,
)
    requires
        0 <= at < stored_all(vars, items).len(),
    ensures
        (exists|i: int| 0 <= i < vars.len() && vars[i].0 == stored_all(vars, items)[at].0) || (
        exists|i: int| 0 <= i < items.len() && items[i].0 == stored_all(vars, items)[at].0),
    decreases items.len(),
{
    if items.len() > 0 {
        let before = stored_all(vars, items.drop_last());
        let last = items.last();
        crate::config::tree::lemma_position(before, last.0);
        let place = crate::config::tree::position(before, last.0);
        let after = stored_all(vars, items);
        if at == place {
            assert(after[at].0 == last.0);
            assert(items[items.len() - 1].0 == after[at].0);
        } else {
            assert(after[at] == before[at]);
            lemma_stored_names(vars, items.drop_last(), at);
            if exists|i: int| 0 <= i < items.drop_last().len() && items.drop_last()[i].0
                == before[at].0 {
                let i = choose|i: int| 0 <= i < items.drop_last().len() && items.drop_last()[i].0
                    == before[at].0;
                assert(items[i].0 == after[at].0);
            } else {
                let i = choose|i: int| 0 <= i < vars.len() && vars[i].0 == before[at].0;
                assert(vars[i].0 == after[at].0);
            }
        }
    } else {
        assert(vars[at].0 == stored_all(vars, items)[at].0);
    }
}

/// Every variable handed to the server has a name that begins with
/// `MEMOS_`: the user's names are prefixed, and the managed names are.
pub proof fn lemma_prepared_names_are_prefixed(config: RuntimeConfigView, at: int)
    requires
        0 <= at < prepared_env(config).len(),
    ensures
        "MEMOS_"@.is_prefix_of(prepared_env(config)[at].0),
{
    let user = keyed(user_vars(config));
    let base = stored_all(Seq::empty(), user);
    let managed = managed_vars(config);
    let name = prepared_env(config)[at].0;
    lemma_stored_names(base, managed, at);
    if exists|i: int| 0 <= i < base.len() && base[i].0 == name {
        let i = choose|i: int| 0 <= i < base.len() && base[i].0 == name;
        lemma_stored_names(Seq::empty(), user, i);
        let j = choose|j: int| 0 <= j < user.len() && user[j].0 == base[i].0;
        lemma_env_key_is_prefixed(user_vars(config)[j].0);
    } else {
        let i = choose|i: int| 0 <= i < managed.len() && managed[i].0 == name;
        reveal_strlit("MEMOS_");
        reveal_strlit("MEMOS_MODE");
        reveal_strlit("MEMOS_ADDR");
        reveal_strlit("MEMOS_PORT");
        reveal_strlit("MEMOS_DATA");
        reveal_strlit("MEMOS_METRIC");
        reveal_strlit("MEMOS_INSTANCE_URL");
        reveal_strlit("MEMOS_PUBLIC");
        reveal_strlit("MEMOS_PASSWORD_AUTH");
        assert(managed.len() == 8);
        assert(name.subrange(0, 6) =~= "MEMOS_"@);
    }
}

/// The managed variables always win: whatever the user configured, every
/// managed variable holds the launcher's value in the server's
/// environment.
pub proof fn lemma_managed_vars_win(config: RuntimeConfigView, at: int)
    requires
        0 <= at < 8,
    ensures
        lookup(prepared_env(config), managed_vars(config)[at].0) == Some(
            managed_vars(config)[at].1,
        ),
{
    reveal_strlit("MEMOS_MODE");
    reveal_strlit("MEMOS_ADDR");
    reveal_strlit("MEMOS_PORT");
    reveal_strlit("MEMOS_DATA");
    reveal_strlit("MEMOS_METRIC");
    reveal_strlit("MEMOS_INSTANCE_URL");
    reveal_strlit("MEMOS_PUBLIC");
    reveal_strlit("MEMOS_PASSWORD_AUTH");
    let managed = managed_vars(config);
    assert(managed.len() == 8);
    assert(managed[0].0 == "MEMOS_MODE"@);
    assert(managed[1].0 == "MEMOS_ADDR"@);
    assert(managed[2].0 == "MEMOS_PORT"@);
    assert(managed[3].0 == "MEMOS_DATA"@);
    assert(managed[4].0 == "MEMOS_METRIC"@);
    assert(managed[5].0 == "MEMOS_INSTANCE_URL"@);
    assert(managed[6].0 == "MEMOS_PUBLIC"@);
    assert(managed[7].0 == "MEMOS_PASSWORD_AUTH"@);
    assert("MEMOS_MODE"@ != "MEMOS_ADDR"@) by {
        assert("MEMOS_MODE"@[6] != "MEMOS_ADDR"@[6]);
    }
    assert("MEMOS_MODE"@ != "MEMOS_PORT"@) by {
        assert("MEMOS_MODE"@[6] != "MEMOS_PORT"@[6]);
    }
    assert("MEMOS_MODE"@ != "MEMOS_DATA"@) by {
        assert("MEMOS_MODE"@[6] != "MEMOS_DATA"@[6]);
    }
    assert("MEMOS_MODE"@ != "MEMOS_METRIC"@) by {
        assert("MEMOS_MODE"@.len() != "MEMOS_METRIC"@.len());
    }
    assert("MEMOS_MODE"@ != "MEMOS_INSTANCE_URL"@) by {
        assert("MEMOS_MODE"@.len() != "MEMOS_INSTANCE_URL"@.len());
    }
    assert("MEMOS_MODE"@ != "MEMOS_PUBLIC"@) by {
        assert("MEMOS_MODE"@.len() != "MEMOS_PUBLIC"@.len());
    }
    assert("MEMOS_MODE"@ != "MEMOS_PASSWORD_AUTH"@) by {
        assert("MEMOS_MODE"@.len() != "MEMOS_PASSWORD_AUTH"@.len());
    }
    assert("MEMOS_ADDR"@ != "MEMOS_PORT"@) by {
        assert("MEMOS_ADDR"@[6] != "MEMOS_PORT"@[6]);
    }
    assert("MEMOS_ADDR"@ != "MEMOS_DATA"@) by {
        assert("MEMOS_ADDR"@[6] != "MEMOS_DATA"@[6]);
    }
    assert("MEMOS_ADDR"@ != "MEMOS_METRIC"@) by {
        assert("MEMOS_ADDR"@.len() != "MEMOS_METRIC"@.len());
    }
    assert("MEMOS_ADDR"@ != "MEMOS_INSTANCE_URL"@) by {
        assert("MEMOS_ADDR"@.len() != "MEMOS_INSTANCE_URL"@.len());
    }
    assert("MEMOS_ADDR"@ != "MEMOS_PUBLIC"@) by {
        assert("MEMOS_ADDR"@.len() != "MEMOS_PUBLIC"@.len());
    }
    assert("MEMOS_ADDR"@ != "MEMOS_PASSWORD_AUTH"@) by {
        assert("MEMOS_ADDR"@.len() != "MEMOS_PASSWORD_AUTH"@.len());
    }
    assert("MEMOS_PORT"@ != "MEMOS_DATA"@) by {
        assert("MEMOS_PORT"@[6] != "MEMOS_DATA"@[6]);
    }
    assert("MEMOS_PORT"@ != "MEMOS_METRIC"@) by {
        assert("MEMOS_PORT"@.len() != "MEMOS_METRIC"@.len());
    }
    assert("MEMOS_PORT"@ != "MEMOS_INSTANCE_URL"@) by {
        assert("MEMOS_PORT"@.len() != "MEMOS_INSTANCE_URL"@.len());
    }
    assert("MEMOS_PORT"@ != "MEMOS_PUBLIC"@) by {
        assert("MEMOS_PORT"@.len() != "MEMOS_PUBLIC"@.len());
    }
    assert("MEMOS_PORT"@ != "MEMOS_PASSWORD_AUTH"@) by {
        assert("MEMOS_PORT"@.len() != "MEMOS_PASSWORD_AUTH"@.len());
    }
    assert("MEMOS_DATA"@ != "MEMOS_METRIC"@) by {
        assert("MEMOS_DATA"@.len() != "MEMOS_METRIC"@.len());
    }
    assert("MEMOS_DATA"@ != "MEMOS_INSTANCE_URL"@) by {
        assert("MEMOS_DATA"@.len() != "MEMOS_INSTANCE_URL"@.len());
    }
    assert("MEMOS_DATA"@ != "MEMOS_PUBLIC"@) by {
        assert("MEMOS_DATA"@.len() != "MEMOS_PUBLIC"@.len());
    }
    assert("MEMOS_DATA"@ != "MEMOS_PASSWORD_AUTH"@) by {
        assert("MEMOS_DATA"@.len() != "MEMOS_PASSWORD_AUTH"@.len());
    }
    assert("MEMOS_METRIC"@ != "MEMOS_INSTANCE_URL"@) by {
        assert("MEMOS_METRIC"@.len() != "MEMOS_INSTANCE_URL"@.len());
    }
    assert("MEMOS_METRIC"@ != "MEMOS_PUBLIC"@) by {
        assert("MEMOS_METRIC"@[6] != "MEMOS_PUBLIC"@[6]);
    }
    assert("MEMOS_METRIC"@ != "MEMOS_PASSWORD_AUTH"@) by {
        assert("MEMOS_METRIC"@.len() != "MEMOS_PASSWORD_AUTH"@.len());
    }
    assert("MEMOS_INSTANCE_URL"@ != "MEMOS_PUBLIC"@) by {
        assert("MEMOS_INSTANCE_URL"@.len() != "MEMOS_PUBLIC"@.len());
    }
    assert("MEMOS_INSTANCE_URL"@ != "MEMOS_PASSWORD_AUTH"@) by {
        assert("MEMOS_INSTANCE_URL"@.len() != "MEMOS_PASSWORD_AUTH"@.len());
    }
    assert("MEMOS_PUBLIC"@ != "MEMOS_PASSWORD_AUTH"@) by {
        assert("MEMOS_PUBLIC"@.len() != "MEMOS_PASSWORD_AUTH"@.len());
    }
    assert forall|j: int| at < j < managed.len() implies (#[trigger] managed[j]).0
        != managed[at].0 by {
        assert(0 <= at < 8 && at < j < 8);
    }
    lemma_last_store_wins(stored_all(Seq::empty(), keyed(user_vars(config))), managed, at);
}

} // verus!
