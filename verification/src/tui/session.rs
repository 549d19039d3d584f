//! What the dashboard does with the agent's answers and with the actions a
//! key asked for: state polls, the model list, chat prompts and replies,
//! choosing a model or a screen, and saving the configuration.
//!
//! The requests themselves are made by the program around the dashboard;
//! it hands the outcome of each to these functions.

use vstd::prelude::*;
use crate::agent::config::{or_default, present_token, token_if_set, value_or};
use crate::agent::events::keep_last;
use crate::agent::ollama::{dedupe_keep_order, dedupe_seq};
use crate::text::{concat, join, join_seq, owned, trim_is_empty, trim_seq, views};
use crate::tui::app::{App, CHAT_HISTORY_MAX, ChatJobResult, Screen, effective_model_spec, messages_view, replaced};
use crate::tui::config::{AppConfig, is_normalized_of, normalize_config, normalize_warnings};
use crate::tui::names::{lemma_match_index, lemma_match_index_bound, match_index, same_name};
use crate::wire::{ChatRequest, ChatResponse, LlmMetrics, ModelsResponse, opt_view};

verus! {

/// The agent's state endpoint when `AGENT_ENDPOINT` is unset.
pub const DEFAULT_AGENT_ENDPOINT: &'static str = "http://127.0.0.1:8787/state";

/// Where the dashboards ask for the agent's state and with which token,
/// from `AGENT_ENDPOINT` and `AGENT_TOKEN`: the default endpoint when the
/// first is unset, no token when the second is unset or empty.
pub fn agent_link(endpoint: &Option<String>, token: &Option<String>) -> (r: (String, Option<String>))
    ensures
        r.0@ == or_default(opt_view(*endpoint), DEFAULT_AGENT_ENDPOINT@),
        opt_view(r.1) == present_token(opt_view(*token)),
{
    (value_or(endpoint, DEFAULT_AGENT_ENDPOINT), token_if_set(token))
}

/// The polling period of the agent's state, in milliseconds.
pub const POLL_EVERY_MS: u64 = 1000;

/// Whether the state is due for another poll `elapsed_ms` after the last.
pub fn poll_due(elapsed_ms: u64) -> (r: bool)
    ensures
        r == (elapsed_ms >= POLL_EVERY_MS),
{
    elapsed_ms >= POLL_EVERY_MS
}

/// How a request to the agent ended: with a decoded answer, with an answer
/// that did not decode, with a status other than success, or without an
/// answer. The texts are the error's or the status's display.
pub enum Outcome<T> {
    Answer(T),
    DecodeFailed(String),
    BadStatus(String),
    RequestFailed(String),
}

/// The chat history `h` with a message that is no placeholder appended.
pub open spec fn pushed(
    h: Seq<(Option<u64>, Seq<char>, Seq<char>)>,
    role: Seq<char>,
    content: Seq<char>,
) -> Seq<(Option<u64>, Seq<char>, Seq<char>)> {
    keep_last(h.push((None, role, content)), CHAT_HISTORY_MAX as nat)
}

/// The effect of a state poll: an answer replaces the agent's LLM state and
/// clears the error; a failure leaves the state and records the error.
pub open spec fn poll_post(o: App, outcome: Outcome<LlmMetrics>, n: App) -> bool {
    match outcome {
        Outcome::Answer(l) => n == (App { llm: Some(l), last_error: None, ..o }),
        Outcome::DecodeFailed(e) => n == (App { last_error: n.last_error, ..o })
            && opt_view(n.last_error) == Some("decode failed: "@ + e@),
        Outcome::BadStatus(s) => n == (App { last_error: n.last_error, ..o })
            && opt_view(n.last_error) == Some("agent returned status "@ + s@),
        Outcome::RequestFailed(e) => n == (App { last_error: n.last_error, ..o })
            && opt_view(n.last_error) == Some("request failed: "@ + e@),
    }
}

/// The models offered in the selector: the running ones, then the
/// installed ones, each once, in first-seen order.
pub open spec fn offered_models(m: ModelsResponse) -> Seq<Seq<char>> {
    dedupe_seq(views(m.running_models@) + views(m.installed_models@))
}

/// The model the selector opens on: the one already selected, else the
/// agent's selected one when it names one, else the model chat would use.
pub open spec fn hover_target(o: App, m: ModelsResponse) -> Option<Seq<char>> {
    match o.selected_model {
        Some(s) => Some(s@),
        None => if m.selected_model@.len() > 0 {
            Some(m.selected_model@)
        } else {
            effective_model_spec(o)
        },
    }
}

/// The selector's starting position: that of `target` among `list`, or the
/// first.
pub open spec fn hover_index(list: Seq<Seq<char>>, target: Option<Seq<char>>) -> int {
    match target {
        Some(t) => match_index(list, t, |a: Seq<char>, b: Seq<char>| same_name(a, b)),
        None => 0,
    }
}

/// The effect of the models answer: with no model at all an error message;
/// otherwise the selector opens on the offered models (see `hover_target`),
/// and the agent's warning, if any, is shown in the chat. A failed request
/// is reported in the chat.
pub open spec fn models_post(o: App, outcome: Outcome<ModelsResponse>, n: App) -> bool {
    let h = messages_view(o.chat_history@);
    let hn = messages_view(n.chat_history@);
    match outcome {
        Outcome::Answer(m) => if offered_models(m).len() == 0 {
            n == (App { chat_history: n.chat_history, ..o }) && hn == pushed(
                h,
                "error"@,
                "no models available from mini-agent /models"@,
            )
        } else {
            &&& n == (App {
                running_models: n.running_models,
                model_list: n.model_list,
                show_model_selector: true,
                model_hover_idx: hover_index(offered_models(m), hover_target(o, m)) as usize,
                chat_history: n.chat_history,
                ..o
            })
            &&& views(n.running_models@) == views(m.running_models@)
            &&& views(n.model_list@) == offered_models(m)
            &&& hn == match m.error {
                Some(e) => pushed(h, "system"@, "models warning: "@ + e@),
                None => h,
            }
        },
        Outcome::DecodeFailed(e) => n == (App { chat_history: n.chat_history, ..o }) && hn
            == pushed(h, "error"@, "models decode failed: "@ + e@),
        Outcome::BadStatus(s) => n == (App { chat_history: n.chat_history, ..o }) && hn == pushed(
            h,
            "error"@,
            "models status "@ + s@,
        ),
        Outcome::RequestFailed(e) => n == (App { chat_history: n.chat_history, ..o }) && hn
            == pushed(h, "error"@, "models request failed: "@ + e@),
    }
}

/// The chat reply for a placeholder: the agent's error if it reports one,
/// a note naming the model when the reply is blank, else the reply; a
/// failed request gives an error.
pub open spec fn chat_reply(outcome: Outcome<ChatResponse>) -> (Seq<char>, Seq<char>) {
    match outcome {
        Outcome::Answer(c) => match c.error {
            Some(e) => ("error"@, e@),
            None => if trim_seq(c.response@).len() == 0 {
                ("assistant"@, "("@ + c.model@ + " returned empty response)"@)
            } else {
                ("assistant"@, c.response@)
            },
        },
        Outcome::DecodeFailed(e) => ("error"@, "decode failed: "@ + e@),
        Outcome::BadStatus(s) => ("error"@, "chat status "@ + s@),
        Outcome::RequestFailed(e) => ("error"@, "chat request failed: "@ + e@),
    }
}

/// The status line after a save: the path when nothing was normalized, the
/// normalization warnings otherwise, the error when writing failed.
pub open spec fn save_status(saved: Result<String, String>, warnings: Seq<Seq<char>>) -> Seq<char> {
    match saved {
        Ok(path) => if warnings.len() == 0 {
            "saved config: "@ + path@
        } else {
            "saved with normalization: "@ + join_seq(warnings, "; "@)
        },
        Err(e) => "save failed: "@ + e@,
    }
}

/// The reply for the placeholder `placeholder_id` (see `chat_reply`).
pub fn chat_job_result(placeholder_id: u64, outcome: Outcome<ChatResponse>) -> (r: ChatJobResult)
    ensures
        r.placeholder_id == placeholder_id,
        (r.role@, r.content@) == chat_reply(outcome),
{
    match outcome {
        Outcome::Answer(c) => match c.error {
            Some(e) => ChatJobResult { placeholder_id, role: owned("error"), content: e },
            None => if trim_is_empty(c.response.as_str()) {
                let head = concat("(", c.model.as_str());
                let content = concat(head.as_str(), " returned empty response)");
                ChatJobResult { placeholder_id, role: owned("assistant"), content }
            } else {
                ChatJobResult { placeholder_id, role: owned("assistant"), content: c.response }
            },
        },
        Outcome::DecodeFailed(e) => ChatJobResult {
            placeholder_id,
            role: owned("error"),
            content: concat("decode failed: ", e.as_str()),
        },
        Outcome::BadStatus(s) => ChatJobResult {
            placeholder_id,
            role: owned("error"),
            content: concat("chat status ", s.as_str()),
        },
        Outcome::RequestFailed(e) => ChatJobResult {
            placeholder_id,
            role: owned("error"),
            content: concat("chat request failed: ", e.as_str()),
        },
    }
}

/// The position of the first item equal to `x`, or 0.
fn position_or_first(items: &Vec<String>, x: &str) -> (r: usize)
    ensures
        r == match_index(views(items@), x@, |a: Seq<char>, b: Seq<char>| same_name(a, b)),
        items@.len() > 0 ==> r < items@.len(),
{
    let ghost eq = |a: Seq<char>, b: Seq<char>| same_name(a, b);
    let mut k: usize = 0;
    while k < items.len() && !crate::text::str_eq(items[k].as_str(), x)
        invariant
            k <= items@.len(),
            forall|j: int| 0 <= j < k ==> !same_name(views(items@)[j], x@),
        decreases items.len() - k,
    {
        k += 1;
    }
    proof {
        lemma_match_index(views(items@), x@, |a: Seq<char>, b: Seq<char>| same_name(a, b), k as int);
    }
    if k < items.len() {
        k
    } else {
        0
    }
}

/// `a` followed by `b`.
fn appended(a: &Vec<String>, b: &Vec<String>) -> (r: Vec<String>)
    ensures
        views(r@) == views(a@) + views(b@),
{
    let mut out: Vec<String> = Vec::new();
    let mut i: usize = 0;
    while i < a.len()
        invariant
            i <= a@.len(),
            views(out@) == views(a@).take(i as int),
        decreases a.len() - i,
    {
        out.push(a[i].clone());
        proof {
            assert(views(a@).take(i as int + 1) =~= views(a@).take(i as int).push(a@[i as int]@));
        }
        i += 1;
    }
    let mut j: usize = 0;
    while j < b.len()
        invariant
            j <= b@.len(),
            views(out@) == views(a@) + views(b@).take(j as int),
        decreases b.len() - j,
    {
        out.push(b[j].clone());
        proof {
            assert(views(b@).take(j as int + 1) =~= views(b@).take(j as int).push(b@[j as int]@));
            assert(views(a@) + views(b@).take(j as int + 1) =~= (views(a@) + views(b@).take(
                j as int,
            )).push(b@[j as int]@));
        }
        j += 1;
    }
    proof {
        assert(views(a@).take(a@.len() as int) =~= views(a@));
        assert(views(b@).take(b@.len() as int) =~= views(b@));
    }
    out
}

impl App {
    /// Takes in the outcome of a state poll (see `poll_post`).
    pub fn apply_poll(&mut self, outcome: Outcome<LlmMetrics>)
        ensures
            old(self).wf() ==> final(self).wf(),
            poll_post(*old(self), outcome, *final(self)),
    {
        match outcome {
            Outcome::Answer(l) => {
                self.llm = Some(l);
                self.last_error = None;
            },
            Outcome::DecodeFailed(e) => {
                self.last_error = Some(concat("decode failed: ", e.as_str()));
            },
            Outcome::BadStatus(s) => {
                self.last_error = Some(concat("agent returned status ", s.as_str()));
            },
            Outcome::RequestFailed(e) => {
                self.last_error = Some(concat("request failed: ", e.as_str()));
            },
        }
    }

    fn hover_target_of(&self, m: &ModelsResponse) -> (r: Option<String>)
        ensures
            opt_view(r) == hover_target(*self, *m),
    {
        match &self.selected_model {
            Some(s) => Some(s.clone()),
            None => if !crate::text::is_empty_text(m.selected_model.as_str()) {
                Some(m.selected_model.clone())
            } else {
                self.effective_model()
            },
        }
    }

    fn open_selector(&mut self, m: ModelsResponse, ordered: Vec<String>)
        requires
            views(ordered@) == offered_models(m),
            ordered@.len() > 0,
        ensures
            models_post(*old(self), Outcome::Answer(m), *final(self)),
    {
        let target = self.hover_target_of(&m);
        let hover = match &target {
            Some(t) => position_or_first(&ordered, t.as_str()),
            None => 0,
        };
        self.running_models = m.running_models;
        self.model_list = ordered;
        self.show_model_selector = true;
        self.model_hover_idx = hover;
        match m.error {
            Some(e) => self.push_chat(owned("system"), concat("models warning: ", e.as_str())),
            None => {},
        }
    }

    /// Takes in the answer to the models request (see `models_post`).
    pub fn apply_models(&mut self, outcome: Outcome<ModelsResponse>)
        requires
            old(self).wf(),
        ensures
            models_post(*old(self), outcome, *final(self)),
            final(self).wf(),
    {
        match outcome {
            Outcome::Answer(m) => {
                let all = appended(&m.running_models, &m.installed_models);
                let ordered = dedupe_keep_order(all);
                if ordered.len() == 0 {
                    self.push_chat(owned("error"), owned("no models available from mini-agent /models"));
                } else {
                    proof {
                        lemma_match_index_bound(
                            offered_models(m),
                            match hover_target(*self, m) {
                                Some(t) => t,
                                None => Seq::empty(),
                            },
                            |a: Seq<char>, b: Seq<char>| same_name(a, b),
                        );
                    }
                    self.open_selector(m, ordered);
                }
            },
            Outcome::DecodeFailed(e) => {
                self.push_chat(owned("error"), concat("models decode failed: ", e.as_str()));
            },
            Outcome::BadStatus(s) => {
                self.push_chat(owned("error"), concat("models status ", s.as_str()));
            },
            Outcome::RequestFailed(e) => {
                self.push_chat(owned("error"), concat("models request failed: ", e.as_str()));
            },
        }
    }

    /// Starts a chat prompt: the prompt is shown as the user's message,
    /// then a "*working*" placeholder from the assistant under the next
    /// id (the counter saturates); returns that id and the request to send,
    /// naming the selected model if any.
    pub fn begin_prompt(&mut self, prompt: String) -> (r: (u64, ChatRequest))
        ensures
            old(self).wf() ==> final(self).wf(),
            r.0 == old(self).next_chat_id,
            r.1.prompt@ == prompt@,
            opt_view(r.1.model) == opt_view(old(self).selected_model),
            *final(self) == (App {
                chat_history: final(self).chat_history,
                next_chat_id: final(self).next_chat_id,
                ..*old(self)
            }),
            final(self).next_chat_id == if old(self).next_chat_id < u64::MAX {
                (old(self).next_chat_id + 1) as u64
            } else {
                u64::MAX
            },
            messages_view(final(self).chat_history@) == keep_last(
                pushed(messages_view(old(self).chat_history@), "you"@, prompt@).push(
                    (Some(old(self).next_chat_id), "assistant"@, "*working*"@),
                ),
                CHAT_HISTORY_MAX as nat,
            ),
    {
        self.push_chat(owned("you"), prompt.clone());
        let id = self.next_chat_id;
        self.next_chat_id = self.next_chat_id.saturating_add(1);
        self.push_chat_with_id(Some(id), owned("assistant"), owned("*working*"));
        let model = match &self.selected_model {
            Some(m) => Some(m.clone()),
            None => None,
        };
        (id, ChatRequest { prompt, model })
    }

    /// Takes in a finished reply: it fills its placeholder (see
    /// `replace_chat_by_id`).
    pub fn apply_chat_result(&mut self, result: ChatJobResult)
        ensures
            old(self).wf() ==> final(self).wf(),
            *final(self) == (App { chat_history: final(self).chat_history, ..*old(self) }),
            replaced(
                messages_view(old(self).chat_history@),
                result.placeholder_id,
                (None, result.role@, result.content@),
                messages_view(final(self).chat_history@),
            ),
    {
        self.replace_chat_by_id(result.placeholder_id, result.role, result.content);
    }

    /// Chooses the model for chat prompts and says so in the chat.
    pub fn select_model(&mut self, model: String)
        ensures
            old(self).wf() ==> final(self).wf(),
            *final(self) == (App {
                selected_model: final(self).selected_model,
                chat_history: final(self).chat_history,
                ..*old(self)
            }),
            opt_view(final(self).selected_model) == Some(model@),
            messages_view(final(self).chat_history@) == pushed(
                messages_view(old(self).chat_history@),
                "system"@,
                "selected model: "@ + model@,
            ),
    {
        let note = concat("selected model: ", model.as_str());
        self.selected_model = Some(model);
        self.push_chat(owned("system"), note);
    }

    /// Switches to `screen`, closing every overlay and editor (the inline
    /// editor's text is emptied); leaving Customize ends the live preview
    /// of the draft theme.
    pub fn select_screen(&mut self, screen: Screen)
        ensures
            old(self).wf() ==> final(self).wf(),
            *final(self) == (App {
                active_screen: screen,
                theme_draft_live_preview: if screen != Screen::Customize {
                    false
                } else {
                    old(self).theme_draft_live_preview
                },
                show_help: false,
                show_model_selector: false,
                show_navigator: false,
                input_mode: false,
                customize_text_mode: false,
                customize_text_buffer: final(self).customize_text_buffer,
                customize_text_target: None,
                show_color_picker: false,
                color_picker_field: None,
                ..*old(self)
            }),
            final(self).customize_text_buffer@.len() == 0,
    {
        self.active_screen = screen;
        if screen != Screen::Customize {
            self.theme_draft_live_preview = false;
        }
        self.show_help = false;
        self.show_model_selector = false;
        self.show_navigator = false;
        self.input_mode = false;
        self.customize_text_mode = false;
        self.customize_text_buffer = String::new();
        self.customize_text_target = None;
        self.show_color_picker = false;
        self.color_picker_field = None;
    }

    /// Normalizes the configuration before it is written (see
    /// `normalize_config`) and returns the warnings.
    pub fn normalize_before_save(&mut self) -> (w: Vec<String>)
        requires
            old(self).wf(),
        ensures
            *final(self) == (App { config: final(self).config, ..*old(self) }),
            is_normalized_of(final(self).config, old(self).config),
            views(w@) == normalize_warnings(old(self).config),
            final(self).wf(),
    {
        let mut cfg = AppConfig::default();
        std::mem::swap(&mut cfg, &mut self.config);
        let (normalized, warnings) = normalize_config(cfg);
        self.config = normalized;
        warnings
    }

    /// Records how writing the configuration ended (see `save_status`): a
    /// written configuration is no longer marked changed.
    pub fn finish_save(&mut self, saved: Result<String, String>, warnings: &Vec<String>, now_ns: u128)
        ensures
            old(self).wf() ==> final(self).wf(),
            *final(self) == (App {
                config_dirty: final(self).config_dirty,
                status_msg: final(self).status_msg,
                ..*old(self)
            }),
            final(self).config_dirty == (old(self).config_dirty && saved is Err),
            final(self).status_msg matches Some(m) && m.at_ns == now_ns && m.text@ == save_status(
                saved,
                views(warnings@),
            ),
    {
        match saved {
            Ok(path) => {
                self.config_dirty = false;
                if warnings.len() == 0 {
                    self.set_status_message(concat("saved config: ", path.as_str()), now_ns);
                } else {
                    let joined = join(warnings, "; ");
                    self.set_status_message(concat("saved with normalization: ", joined.as_str()), now_ns);
                }
            },
            Err(e) => {
                self.set_status_message(concat("save failed: ", e.as_str()), now_ns);
            },
        }
    }
}

} // verus!
