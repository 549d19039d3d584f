//! The agent's HTTP endpoints: who may call them and what they answer.

use vstd::prelude::*;
use crate::text::{owned, str_eq, trim, trim_is_empty, trim_seq};
use crate::wire::{ChatRequest, ChatResponse, ModelsResponse, opt_view};
use crate::agent::ollama::FetchOutcome;

verus! {

/// A request that the agent refuses.
pub enum AuthError {
    /// The shared token is missing or wrong.
    Unauthorized,
}

/// The token a request presented: the header's value, or empty when the
/// header is missing or not visible ASCII.
pub open spec fn presented(provided: Option<Seq<char>>) -> Seq<char> {
    match provided {
        Some(p) => p,
        None => Seq::empty(),
    }
}

/// Checks the `x-agent-token` header against the configured token. Without
/// a configured token every request passes; with one, only a request that
/// presents exactly that token passes.
pub fn authorize(token: &Option<String>, provided: &Option<String>) -> (r: Result<(), AuthError>)
    ensures
        r is Ok <==> match token {
            None => true,
            Some(t) => presented(opt_view(*provided)) == t@,
        },
{
    match token {
        None => Ok(()),
        Some(expected) => {
            let same = match provided {
                Some(p) => str_eq(p.as_str(), expected.as_str()),
                None => is_empty_token(expected.as_str()),
            };
            if same {
                Ok(())
            } else {
                Err(AuthError::Unauthorized)
            }
        },
    }
}

fn is_empty_token(s: &str) -> (r: bool)
    ensures
        r == (Seq::<char>::empty() == s@),
{
    let r = crate::text::is_empty_text(s);
    proof {
        if s@.len() == 0 {
            assert(s@ =~= Seq::<char>::empty());
        }
    }
    r
}

/// The model a chat prompt goes to: the requested one when it is not blank
/// (trimmed), otherwise the agent's default.
pub open spec fn chosen_model(requested: Option<Seq<char>>, default_model: Seq<char>) -> Seq<char> {
    match requested {
        Some(m) => if trim_seq(m).len() > 0 {
            trim_seq(m)
        } else {
            default_model
        },
        None => default_model,
    }
}

/// What to do with a chat prompt before asking Ollama.
pub enum ChatPlan {
    /// Answer at once (the prompt is blank).
    Reply(ChatResponse),
    /// Ask Ollama with this model.
    Forward(String),
}

/// A blank prompt is answered at once with the error "prompt is empty" and
/// the default model; any other prompt goes to `chosen_model`.
pub fn plan_chat(req: &ChatRequest, default_model: &str) -> (r: ChatPlan)
    ensures
        trim_seq(req.prompt@).len() == 0 ==> (r matches ChatPlan::Reply(resp)
            && resp.response@.len() == 0 && resp.model@ == default_model@ && opt_view(resp.error)
            == Some("prompt is empty"@)),
        trim_seq(req.prompt@).len() > 0 ==> (r matches ChatPlan::Forward(m) && m@ == chosen_model(
            opt_view(req.model),
            default_model@,
        )),
{
    if trim_is_empty(req.prompt.as_str()) {
        return ChatPlan::Reply(
            ChatResponse {
                response: String::new(),
                model: owned(default_model),
                error: Some(owned("prompt is empty")),
            },
        );
    }
    let model = match &req.model {
        Some(m) => {
            if trim_is_empty(m.as_str()) {
                owned(default_model)
            } else {
                trim(m.as_str())
            }
        },
        None => owned(default_model),
    };
    ChatPlan::Forward(model)
}

/// The fields of an Ollama `generate` reply that the agent reads.
pub struct ReplyFields {
    /// `model`, when it is a string.
    pub model: Option<String>,
    /// `response`, when it is a string.
    pub response: Option<String>,
    /// `message.content`, when it is a string.
    pub message_content: Option<String>,
}

/// What `serde_json` decodes from a reply body: `None` when the body is not
/// JSON, otherwise the string values of `model`, `response` and
/// `message.content`.
pub uninterp spec fn reply_fields(body: Seq<u8>) -> Option<
    (Option<Seq<char>>, Option<Seq<char>>, Option<Seq<char>>),
>;

/// The view of decoded reply fields.
pub open spec fn reply_fields_view(r: Option<ReplyFields>) -> Option<
    (Option<Seq<char>>, Option<Seq<char>>, Option<Seq<char>>),
> {
    match r {
        None => None,
        Some(f) => Some((opt_view(f.model), opt_view(f.response), opt_view(f.message_content))),
    }
}

/// Decodes `body` with `serde_json::from_slice::<serde_json::Value>` and reads
/// `model`, `response` and `message.content` with `Value::get` and
/// `Value::as_str`. Trusted: the result is `reply_fields` of the body.
#[verifier::external_body]
fn decode_reply_fields(body: &[u8]) -> (r: Option<ReplyFields>)
    ensures
        reply_fields_view(r) == reply_fields(body@),
{
    let value: serde_json::Value = match serde_json::from_slice(body) {
        Ok(v) => v,
        Err(_) => return None,
    };
    Some(ReplyFields {
        model: value.get("model").and_then(|v| v.as_str()).map(|s| s.to_string()),
        response: value.get("response").and_then(|v| v.as_str()).map(|s| s.to_string()),
        message_content: value.get("message").and_then(|v| v.get("content")).and_then(|v| v.as_str()).map(|s| s.to_string()),
    })
}

/// The answer text of a decoded reply: `response`, else `message.content`,
/// else empty.
pub open spec fn answer_of(
    fields: (Option<Seq<char>>, Option<Seq<char>>, Option<Seq<char>>),
) -> Seq<char> {
    match fields.1 {
        Some(a) => a,
        None => match fields.2 {
            Some(c) => c,
            None => Seq::empty(),
        },
    }
}

/// The model named by a decoded reply, else the agent's default.
pub open spec fn reply_model(
    fields: (Option<Seq<char>>, Option<Seq<char>>, Option<Seq<char>>),
    default_model: Seq<char>,
) -> Seq<char> {
    match fields.0 {
        Some(m) => m,
        None => default_model,
    }
}

/// The chat answer for a decoded reply (`None`: the reply was not JSON).
pub fn chat_response_from_fields(
    selected: String,
    default_model: &str,
    fields: Option<ReplyFields>,
) -> (r: ChatResponse)
    ensures
        fields is None ==> r.response@.len() == 0 && r.model@ == selected@ && opt_view(r.error)
            == Some("invalid response from ollama"@),
        reply_fields_view(fields) matches Some(f) ==> r.response@ == answer_of(f) && r.model@
            == reply_model(f, default_model@) && r.error is None,
{
    match fields {
        None => ChatResponse {
            response: String::new(),
            model: selected,
            error: Some(owned("invalid response from ollama")),
        },
        Some(f) => {
            let model = match f.model {
                Some(m) => m,
                None => owned(default_model),
            };
            let answer = match f.response {
                Some(a) => a,
                None => match f.message_content {
                    Some(c) => c,
                    None => String::new(),
                },
            };
            ChatResponse { response: answer, model, error: None }
        },
    }
}

/// The chat answer once Ollama was asked with model `selected`: an error
/// naming what failed when no usable reply came, otherwise the reply's
/// answer and model.
pub fn chat_response_from_outcome(
    selected: String,
    default_model: &str,
    outcome: FetchOutcome,
) -> (r: ChatResponse)
    ensures
        outcome is RequestFailed ==> r.response@.len() == 0 && r.model@ == selected@ && opt_view(
            r.error,
        ) == Some("failed to reach ollama"@),
        outcome is BodyUnreadable ==> r.response@.len() == 0 && r.model@ == selected@ && opt_view(
            r.error,
        ) == Some("invalid response from ollama"@),
        outcome matches FetchOutcome::Body(body) ==> {
            &&& (reply_fields(body@) is None ==> r.response@.len() == 0 && r.model@ == selected@
                && opt_view(r.error) == Some("invalid response from ollama"@))
            &&& (reply_fields(body@) matches Some(f) ==> r.response@ == answer_of(f) && r.model@
                == reply_model(f, default_model@) && r.error is None)
        },
{
    match outcome {
        FetchOutcome::RequestFailed => ChatResponse {
            response: String::new(),
            model: selected,
            error: Some(owned("failed to reach ollama")),
        },
        FetchOutcome::BodyUnreadable => chat_response_from_fields(selected, default_model, None),
        FetchOutcome::Body(body) => {
            let fields = decode_reply_fields(body.as_slice());
            chat_response_from_fields(selected, default_model, fields)
        },
    }
}

/// The answer of the `models` endpoint: the configured model, the running
/// and installed lists, and a warning when nothing is installed.
pub fn models_response(
    selected_model: &str,
    running_models: Vec<String>,
    installed_models: Vec<String>,
) -> (r: ModelsResponse)
    ensures
        r.selected_model@ == selected_model@,
        r.running_models@ == running_models@,
        r.installed_models@ == installed_models@,
        installed_models@.len() == 0 ==> opt_view(r.error) == Some(
            "no installed models found or ollama unavailable"@,
        ),
        installed_models@.len() > 0 ==> r.error is None,
{
    let error = if installed_models.len() == 0 {
        Some(owned("no installed models found or ollama unavailable"))
    } else {
        None
    };
    ModelsResponse {
        selected_model: owned(selected_model),
        running_models,
        installed_models,
        error,
    }
}

} // verus!
