//! The agent's configuration, from the values of its environment variables.

use vstd::prelude::*;
use crate::text::{split_seq, concat, owned, trim_bounds, trim_seq, slice_chars, string_from_chars, chars_of, views, is_empty_text};
use crate::wire::opt_view;

verus! {

/// Where the agent listens, who may call it, what it watches and how it
/// reaches Ollama.
pub struct AgentConfig {
    pub bind_addr: String,
    pub token: Option<String>,
    pub watch_dirs: Vec<String>,
    pub ollama_ps_url: String,
    pub ollama_tags_url: String,
    pub ollama_chat_url: String,
    pub ollama_model: String,
}

/// The environment variables the agent reads (`None`: unset or not Unicode).
pub struct AgentEnv {
    pub agent_bind: Option<String>,
    pub agent_token: Option<String>,
    pub watch_dirs: Option<String>,
    pub home: Option<String>,
    pub ollama_ps_url: Option<String>,
    pub ollama_tags_url: Option<String>,
    pub ollama_chat_url: Option<String>,
    pub ollama_model: Option<String>,
}

/// The value of a variable, or its default when unset.
pub open spec fn or_default(v: Option<Seq<char>>, d: Seq<char>) -> Seq<char> {
    match v {
        Some(s) => s,
        None => d,
    }
}

/// The trimmed pieces that are not empty, in order.
pub open spec fn nonblank_trimmed(pieces: Seq<Seq<char>>) -> Seq<Seq<char>>
    decreases pieces.len(),
{
    if pieces.len() == 0 {
        Seq::empty()
    } else {
        let rest = nonblank_trimmed(pieces.drop_last());
        if trim_seq(pieces.last()).len() > 0 {
            rest.push(trim_seq(pieces.last()))
        } else {
            rest
        }
    }
}

/// The directories to watch: those listed in `WATCH_DIRS` (comma separated,
/// trimmed, blanks dropped) when it is set, otherwise `~/Downloads` and
/// `~/.ollama` when `HOME` is set, otherwise none.
pub open spec fn watch_dirs_spec(raw: Option<Seq<char>>, home: Option<Seq<char>>) -> Seq<Seq<char>> {
    match raw {
        Some(r) => nonblank_trimmed(split_seq(r, ',')),
        None => match home {
            Some(h) => seq![h + "/Downloads"@, h + "/.ollama"@],
            None => Seq::empty(),
        },
    }
}

fn push_trimmed_if_nonblank(out: &mut Vec<String>, piece: &Vec<char>)
    ensures
        trim_seq(piece@).len() > 0 ==> views(final(out)@) == views(old(out)@).push(trim_seq(piece@)),
        trim_seq(piece@).len() == 0 ==> final(out)@ == old(out)@,
{
    let (a, b) = trim_bounds(piece);
    if a < b {
        let t = slice_chars(piece, a, b);
        let s = string_from_chars(&t);
        out.push(s);
        assert(views(out@) =~= views(old(out)@).push(trim_seq(piece@)));
    }
}

/// The directories listed in a `WATCH_DIRS` value.
pub fn split_watch_dirs(raw: &str) -> (r: Vec<String>)
    ensures
        views(r@) == nonblank_trimmed(split_seq(raw@, ',')),
{
    let v = chars_of(raw);
    let mut out: Vec<String> = Vec::new();
    let mut cur: Vec<char> = Vec::new();
    let mut i: usize = 0;
    while i < v.len()
        invariant
            i <= v.len(),
            v@ == raw@,
            split_seq(v@.take(i as int), ',').len() >= 1,
            cur@ == split_seq(v@.take(i as int), ',').last(),
            views(out@) == nonblank_trimmed(split_seq(v@.take(i as int), ',').drop_last()),
        decreases v.len() - i,
    {
        let ghost p = split_seq(v@.take(i as int), ',');
        assert(v@.take(i + 1).drop_last() =~= v@.take(i as int));
        assert(v@.take(i + 1).last() == v@[i as int]);
        if v[i] == ',' {
            push_trimmed_if_nonblank(&mut out, &cur);
            cur = Vec::new();
            proof {
                let q = split_seq(v@.take(i + 1), ',');
                assert(q == p.push(Seq::empty()));
                assert(q.drop_last() =~= p);
                assert(p =~= p.drop_last().push(p.last()));
                assert(cur@ =~= q.last());
            }
        } else {
            cur.push(v[i]);
            proof {
                let q = split_seq(v@.take(i + 1), ',');
                assert(q == p.update(p.len() - 1, p.last().push(v@[i as int])));
                assert(q.drop_last() =~= p.drop_last());
            }
        }
        i += 1;
    }
    push_trimmed_if_nonblank(&mut out, &cur);
    proof {
        let p = split_seq(v@.take(v.len() as int), ',');
        assert(v@.take(v.len() as int) =~= v@);
        assert(p =~= p.drop_last().push(p.last()));
    }
    out
}

/// The directories to watch (see `watch_dirs_spec`).
pub fn configured_watch_dirs(raw: &Option<String>, home: &Option<String>) -> (r: Vec<String>)
    ensures
        views(r@) == watch_dirs_spec(opt_view(*raw), opt_view(*home)),
{
    match raw {
        Some(r) => split_watch_dirs(r.as_str()),
        None => {
            let mut out: Vec<String> = Vec::new();
            match home {
                Some(h) => {
                    out.push(concat(h.as_str(), "/Downloads"));
                    out.push(concat(h.as_str(), "/.ollama"));
                    assert(views(out@) =~= seq![h@ + "/Downloads"@, h@ + "/.ollama"@]);
                },
                None => {
                    assert(views(out@) =~= Seq::<Seq<char>>::empty());
                },
            }
            out
        },
    }
}

pub(crate) fn value_or(v: &Option<String>, d: &str) -> (r: String)
    ensures
        r@ == or_default(opt_view(*v), d@),
{
    match v {
        Some(s) => s.clone(),
        None => owned(d),
    }
}

/// A token as configured: an empty one counts as none.
pub open spec fn present_token(t: Option<Seq<char>>) -> Option<Seq<char>> {
    match t {
        Some(v) => if v.len() > 0 {
            Some(v)
        } else {
            None
        },
        None => None,
    }
}

/// The token `t`, or none when it is unset or empty.
pub fn token_if_set(t: &Option<String>) -> (r: Option<String>)
    ensures
        opt_view(r) == present_token(opt_view(*t)),
{
    match t {
        Some(v) => if is_empty_text(v.as_str()) {
            None
        } else {
            Some(v.clone())
        },
        None => None,
    }
}

impl AgentConfig {
    /// The configuration for the given environment: each unset variable
    /// takes its default, an empty `AGENT_TOKEN` counts as no token.
    pub fn from_env(env: &AgentEnv) -> (r: AgentConfig)
        ensures
            r.bind_addr@ == or_default(opt_view(env.agent_bind), "127.0.0.1:8787"@),
            opt_view(r.token) == present_token(opt_view(env.agent_token)),
            views(r.watch_dirs@) == watch_dirs_spec(opt_view(env.watch_dirs), opt_view(env.home)),
            r.ollama_ps_url@ == or_default(
                opt_view(env.ollama_ps_url),
                "http://127.0.0.1:11434/api/ps"@,
            ),
            r.ollama_tags_url@ == or_default(
                opt_view(env.ollama_tags_url),
                "http://127.0.0.1:11434/api/tags"@,
            ),
            r.ollama_chat_url@ == or_default(
                opt_view(env.ollama_chat_url),
                "http://127.0.0.1:11434/api/generate"@,
            ),
            r.ollama_model@ == or_default(opt_view(env.ollama_model), "llama3.2"@),
    {
        let token = token_if_set(&env.agent_token);
        AgentConfig {
            bind_addr: value_or(&env.agent_bind, "127.0.0.1:8787"),
            token,
            watch_dirs: configured_watch_dirs(&env.watch_dirs, &env.home),
            ollama_ps_url: value_or(&env.ollama_ps_url, "http://127.0.0.1:11434/api/ps"),
            ollama_tags_url: value_or(&env.ollama_tags_url, "http://127.0.0.1:11434/api/tags"),
            ollama_chat_url: value_or(&env.ollama_chat_url, "http://127.0.0.1:11434/api/generate"),
            ollama_model: value_or(&env.ollama_model, "llama3.2"),
        }
    }
}

} // verus!
