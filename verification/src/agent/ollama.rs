//! Reading the replies of the Ollama HTTP API.
//!
//! The HTTP exchange itself happens outside the library; what comes back is
//! a `FetchOutcome`. The JSON documents are decoded by `serde_json`, and the
//! library decides what the agent reports from the decoded fields.

use vstd::prelude::*;
use crate::text::{owned, str_eq, views};
use crate::wire::{LlmMetrics, opt_view};

verus! {

/// How an HTTP request to Ollama ended.
pub enum FetchOutcome {
    /// The request could not be sent or no response came back.
    RequestFailed,
    /// A response came back but its body could not be read.
    BodyUnreadable,
    /// The body of the response.
    Body(Vec<u8>),
}

/// What `serde_json` decodes from a body for the `models` field: `None` when
/// the body is not JSON, `Some(None)` when it has no `models` array, and
/// otherwise the `name` string of each array item (`None` where an item has
/// no string `name`).
pub uninterp spec fn models_field_names(body: Seq<u8>) -> Option<Option<Seq<Option<Seq<char>>>>>;

/// The view of a decoded `models` field.
pub open spec fn names_field_view(r: Option<Option<Vec<Option<String>>>>) -> Option<
    Option<Seq<Option<Seq<char>>>>,
> {
    match r {
        None => None,
        Some(None) => Some(None),
        Some(Some(v)) => Some(Some(v@.map_values(|o: Option<String>| opt_view(o)))),
    }
}

/// Decodes `body` with `serde_json::from_slice::<serde_json::Value>` and reads
/// `models[*].name` with `Value::get`, `Value::as_array` and `Value::as_str`.
/// Trusted: the result is `models_field_names` of the body; nothing more is
/// claimed of how `serde_json` reads JSON.
#[verifier::external_body]
fn decode_models_field(body: &[u8]) -> (r: Option<Option<Vec<Option<String>>>>)
    ensures
        names_field_view(r) == models_field_names(body@),
{
    let value: serde_json::Value = match serde_json::from_slice(body) {
        Ok(v) => v,
        Err(_) => return None,
    };
    Some(value.get("models").and_then(|m| m.as_array()).map(|items| items.iter().map(|item| item.get("name").and_then(|n| n.as_str()).map(|s| s.to_string())).collect()))
}

/// The names that are present, in order (`filter_map` of the items).
pub open spec fn present_names(items: Seq<Option<Seq<char>>>) -> Seq<Seq<char>>
    decreases items.len(),
{
    if items.len() == 0 {
        Seq::empty()
    } else {
        let rest = present_names(items.drop_last());
        match items.last() {
            Some(n) => rest.push(n),
            None => rest,
        }
    }
}

/// The model names a decoded `models` field lists: none when the field is
/// missing, otherwise the present names in order.
pub open spec fn listed_names(field: Option<Seq<Option<Seq<char>>>>) -> Seq<Seq<char>> {
    match field {
        None => Seq::empty(),
        Some(items) => present_names(items),
    }
}

/// The present names of `items`, in order.
pub fn names_from_items(items: &Vec<Option<String>>) -> (r: Vec<String>)
    ensures
        views(r@) == present_names(items@.map_values(|o: Option<String>| opt_view(o))),
{
    let ghost iv = items@.map_values(|o: Option<String>| opt_view(o));
    let mut out: Vec<String> = Vec::new();
    let mut i: usize = 0;
    while i < items.len()
        invariant
            i <= items.len(),
            iv == items@.map_values(|o: Option<String>| opt_view(o)),
            views(out@) == present_names(iv.take(i as int)),
        decreases items.len() - i,
    {
        assert(iv.take(i + 1).drop_last() =~= iv.take(i as int));
        assert(iv.take(i + 1).last() == opt_view(items@[i as int]));
        match &items[i] {
            Some(n) => {
                out.push(n.clone());
                assert(views(out@) =~= present_names(iv.take(i as int)).push(n@));
            },
            None => {},
        }
        i += 1;
    }
    assert(iv.take(items.len() as int) =~= iv);
    out
}

/// The model names listed by a decoded `models` field.
pub fn names_from_field(field: Option<Vec<Option<String>>>) -> (r: Vec<String>)
    ensures
        views(r@) == listed_names(
            match field {
                None => None,
                Some(v) => Some(v@.map_values(|o: Option<String>| opt_view(o))),
            },
        ),
{
    match field {
        None => {
            let r: Vec<String> = Vec::new();
            assert(views(r@) =~= Seq::<Seq<char>>::empty());
            r
        },
        Some(items) => names_from_items(&items),
    }
}

/// The Ollama state reported for a decoded reply of the `ps` endpoint
/// (`None`: the reply was not JSON).
pub fn llm_metrics_from_models_field(
    ollama_ps_url: &str,
    decoded: Option<Option<Vec<Option<String>>>>,
) -> (r: LlmMetrics)
    ensures
        r.ollama_ps_url@ == ollama_ps_url@,
        decoded is None ==> {
            &&& !r.ollama_online
            &&& r.running_models@.len() == 0
            &&& r.model_count == 0
            &&& opt_view(r.error) == Some("invalid JSON from ollama"@)
        },
        decoded is Some ==> {
            &&& r.ollama_online
            &&& views(r.running_models@) == listed_names(names_field_view(decoded)->0)
            &&& r.model_count == r.running_models@.len()
            &&& r.error is None
        },
{
    match decoded {
        None => LlmMetrics {
            ollama_online: false,
            ollama_ps_url: owned(ollama_ps_url),
            running_models: Vec::new(),
            model_count: 0,
            error: Some(owned("invalid JSON from ollama")),
        },
        Some(field) => {
            let running_models = names_from_field(field);
            LlmMetrics {
                ollama_online: true,
                ollama_ps_url: owned(ollama_ps_url),
                model_count: running_models.len(),
                running_models,
                error: None,
            }
        },
    }
}

/// The Ollama state reported after asking the `ps` endpoint: offline with
/// "request failed" when no response came, offline with "invalid JSON from
/// ollama" when the body could not be read or decoded, and otherwise online
/// with the running models that the body lists.
pub fn collect_llm_metrics(ollama_ps_url: &str, outcome: FetchOutcome) -> (r: LlmMetrics)
    ensures
        r.ollama_ps_url@ == ollama_ps_url@,
        outcome is RequestFailed ==> {
            &&& !r.ollama_online
            &&& r.running_models@.len() == 0
            &&& r.model_count == 0
            &&& opt_view(r.error) == Some("request failed"@)
        },
        outcome is BodyUnreadable ==> {
            &&& !r.ollama_online
            &&& r.running_models@.len() == 0
            &&& r.model_count == 0
            &&& opt_view(r.error) == Some("invalid JSON from ollama"@)
        },
        outcome matches FetchOutcome::Body(body) ==> {
            &&& (models_field_names(body@) is None ==> !r.ollama_online && r.running_models@.len()
                == 0 && r.model_count == 0 && opt_view(r.error) == Some(
                "invalid JSON from ollama"@,
            ))
            &&& (models_field_names(body@) matches Some(field) ==> r.ollama_online && views(
                r.running_models@,
            ) == listed_names(field) && r.model_count == r.running_models@.len() && r.error is None)
        },
{
    match outcome {
        FetchOutcome::RequestFailed => LlmMetrics {
            ollama_online: false,
            ollama_ps_url: owned(ollama_ps_url),
            running_models: Vec::new(),
            model_count: 0,
            error: Some(owned("request failed")),
        },
        FetchOutcome::BodyUnreadable => llm_metrics_from_models_field(ollama_ps_url, None),
        FetchOutcome::Body(body) => {
            let decoded = decode_models_field(body.as_slice());
            llm_metrics_from_models_field(ollama_ps_url, decoded)
        },
    }
}

/// The names listed by a decoded reply, or none when it was not JSON.
pub fn models_from_decoded(decoded: Option<Option<Vec<Option<String>>>>) -> (r: Vec<String>)
    ensures
        views(r@) == match names_field_view(decoded) {
            None => Seq::empty(),
            Some(field) => listed_names(field),
        },
{
    match decoded {
        None => {
            let r: Vec<String> = Vec::new();
            assert(views(r@) =~= Seq::<Seq<char>>::empty());
            r
        },
        Some(field) => names_from_field(field),
    }
}

/// The names of a fetched model list, or none when the fetch failed.
pub open spec fn fetched_names(outcome: FetchOutcome) -> Seq<Seq<char>> {
    match outcome {
        FetchOutcome::Body(body) => match models_field_names(body@) {
            None => Seq::empty(),
            Some(field) => listed_names(field),
        },
        _ => Seq::empty(),
    }
}

/// The models that the `ps` endpoint reports as running.
pub fn fetch_running_models(outcome: FetchOutcome) -> (r: Vec<String>)
    ensures
        views(r@) == fetched_names(outcome),
{
    match outcome {
        FetchOutcome::Body(body) => {
            let decoded = decode_models_field(body.as_slice());
            models_from_decoded(decoded)
        },
        _ => {
            let r: Vec<String> = Vec::new();
            assert(views(r@) =~= Seq::<Seq<char>>::empty());
            r
        },
    }
}

/// The models that the `tags` endpoint reports as installed, each once, in
/// the order of their first appearance.
pub fn fetch_installed_models(outcome: FetchOutcome) -> (r: Vec<String>)
    ensures
        views(r@) == dedupe_seq(fetched_names(outcome)),
{
    let models = fetch_running_models(outcome);
    dedupe_keep_order(models)
}

/// `s` with every element after its first occurrence removed.
pub open spec fn dedupe_seq(s: Seq<Seq<char>>) -> Seq<Seq<char>>
    decreases s.len(),
{
    if s.len() == 0 {
        Seq::empty()
    } else {
        let rest = dedupe_seq(s.drop_last());
        if rest.contains(s.last()) {
            rest
        } else {
            rest.push(s.last())
        }
    }
}

/// Whether `v` holds a string equal to `s`.
pub fn contains_string(v: &Vec<String>, s: &str) -> (r: bool)
    ensures
        r == views(v@).contains(s@),
{
    let mut i: usize = 0;
    while i < v.len()
        invariant
            i <= v.len(),
            forall|j: int| 0 <= j < i ==> v@[j]@ != s@,
        decreases v.len() - i,
    {
        if str_eq(v[i].as_str(), s) {
            assert(views(v@)[i as int] == s@);
            return true;
        }
        i += 1;
    }
    proof {
        if views(v@).contains(s@) {
            let k = choose|k: int| 0 <= k < views(v@).len() && views(v@)[k] == s@;
            assert(v@[k]@ == s@);
        }
    }
    false
}

/// `models` without repeats, keeping the first occurrence of each name.
pub fn dedupe_keep_order(models: Vec<String>) -> (r: Vec<String>)
    ensures
        views(r@) == dedupe_seq(views(models@)),
{
    let ghost mv = views(models@);
    let mut out: Vec<String> = Vec::new();
    let mut i: usize = 0;
    while i < models.len()
        invariant
            i <= models.len(),
            mv == views(models@),
            views(out@) == dedupe_seq(mv.take(i as int)),
        decreases models.len() - i,
    {
        assert(mv.take(i + 1).drop_last() =~= mv.take(i as int));
        assert(mv.take(i + 1).last() == models@[i as int]@);
        if !contains_string(&out, models[i].as_str()) {
            out.push(models[i].clone());
            assert(views(out@) =~= dedupe_seq(mv.take(i as int)).push(models@[i as int]@));
        }
        i += 1;
    }
    assert(mv.take(models.len() as int) =~= mv);
    out
}

/// Deduplication leaves no name twice, loses no name and adds none.
pub proof fn lemma_dedupe_seq(s: Seq<Seq<char>>)
    ensures
        forall|i: int, j: int|
            0 <= i < j < dedupe_seq(s).len() ==> dedupe_seq(s)[i] != dedupe_seq(s)[j],
        forall|x: Seq<char>| dedupe_seq(s).contains(x) <==> s.contains(x),
    decreases s.len(),
{
    if s.len() > 0 {
        lemma_dedupe_seq(s.drop_last());
        let rest = dedupe_seq(s.drop_last());
        assert forall|x: Seq<char>| dedupe_seq(s).contains(x) <==> s.contains(x) by {
            if s.contains(x) {
                let k = choose|k: int| 0 <= k < s.len() && s[k] == x;
                if k < s.len() - 1 {
                    assert(s.drop_last()[k] == x);
                }
            }
            if s.drop_last().contains(x) {
                let k = choose|k: int| 0 <= k < s.drop_last().len() && s.drop_last()[k] == x;
                assert(s[k] == x);
            }
            if dedupe_seq(s).contains(x) && !rest.contains(x) {
                assert(x == s.last());
                assert(s[s.len() - 1] == x);
            }
            if !rest.contains(s.last()) {
                if dedupe_seq(s).contains(x) {
                    let k = choose|k: int|
                        0 <= k < dedupe_seq(s).len() && dedupe_seq(s)[k] == x;
                    if k < rest.len() {
                        assert(rest[k] == x);
                    }
                }
                if rest.contains(x) {
                    let k = choose|k: int| 0 <= k < rest.len() && rest[k] == x;
                    assert(dedupe_seq(s)[k] == x);
                }
                assert(dedupe_seq(s)[rest.len() as int] == s.last());
            }
        }
    }
}

} // verus!
