//! The plain dashboard: one screen with help, the agent's state, a chat
//! with the agent and its file events, without configuration or themes.

use vstd::prelude::*;
use std::collections::VecDeque;
use crate::agent::events::keep_last;
use crate::text::{concat, owned, pop_char, pop_seq, string_push, trim, trim_is_empty, trim_seq, views};
use crate::tui::app::{CHAT_HISTORY_MAX, ChatMessage, KeyCode, KeyInput, messages_view, sibling, sibling_endpoint};
use crate::tui::session::{Outcome, chat_reply, chat_job_result, poll_post};
use crate::tui::panels::bool_text;
use crate::text::decimal_seq;
use crate::wire::{ChatRequest, ChatResponse, LlmMetrics, opt_view};

verus! {

/// What the program around the plain dashboard should do after a key.
pub enum ClassicAction {
    /// Nothing to do.
    Nothing,
    Refresh,
    SendPrompt(String),
}

/// Everything the plain dashboard's decisions read and change.
pub struct ClassicApp {
    pub endpoint: String,
    pub token: Option<String>,
    pub show_help: bool,
    pub expanded_events: bool,
    pub input_mode: bool,
    pub chat_input: String,
    pub chat_history: VecDeque<ChatMessage>,
    pub should_quit: bool,
    /// The LLM part of the last state the agent reported.
    pub llm: Option<LlmMetrics>,
    pub last_error: Option<String>,
}

/// The effect of a key: in the chat input, Esc leaves it, Enter sends the
/// trimmed text (when not blank) and clears it, Backspace deletes, and a
/// character typed without Control is appended; otherwise `q` quits, `h`
/// shows or hides help, `e` expands or collapses the events, `i` starts
/// the input and `r` asks for a refresh.
pub open spec fn classic_key_post(o: ClassicApp, k: KeyInput, n: ClassicApp, r: ClassicAction) -> bool {
    if o.input_mode {
        match k.code {
            KeyCode::Esc => n == (ClassicApp { input_mode: false, ..o }) && r is Nothing,
            KeyCode::Enter => {
                &&& n == (ClassicApp { chat_input: n.chat_input, ..o })
                &&& n.chat_input@.len() == 0
                &&& if trim_seq(o.chat_input@).len() > 0 {
                    (r matches ClassicAction::SendPrompt(p) && p@ == trim_seq(o.chat_input@))
                } else {
                    r is Nothing
                }
            },
            KeyCode::Backspace => n == (ClassicApp { chat_input: n.chat_input, ..o })
                && n.chat_input@ == pop_seq(o.chat_input@) && r is Nothing,
            KeyCode::Char(c) => (if !k.ctrl {
                n == (ClassicApp { chat_input: n.chat_input, ..o }) && n.chat_input@
                    == o.chat_input@.push(c)
            } else {
                n == o
            }) && r is Nothing,
            _ => n == o && r is Nothing,
        }
    } else {
        match k.code {
            KeyCode::Char(c) => if c == 'q' {
                n == (ClassicApp { should_quit: true, ..o }) && r is Nothing
            } else if c == 'h' {
                n == (ClassicApp { show_help: !o.show_help, ..o }) && r is Nothing
            } else if c == 'e' {
                n == (ClassicApp { expanded_events: !o.expanded_events, ..o }) && r is Nothing
            } else if c == 'i' {
                n == (ClassicApp { input_mode: true, ..o }) && r is Nothing
            } else if c == 'r' {
                n == o && r is Refresh
            } else {
                n == o && r is Nothing
            },
            _ => n == o && r is Nothing,
        }
    }
}

/// The lines of the chat panel: a hint without messages, otherwise the
/// newest twenty as "role: content".
pub open spec fn classic_chat_spec(h: Seq<ChatMessage>) -> Seq<Seq<char>> {
    if h.len() == 0 {
        seq!["No chat messages yet. Press i to start typing."@]
    } else {
        let w = if h.len() > 20 {
            h.skip(h.len() - 20)
        } else {
            h
        };
        w.map_values(|m: ChatMessage| m.role@ + ": "@ + m.content@)
    }
}

/// The lines of the LLM summary: a waiting line before the first state,
/// then Ollama's address, whether it is online, how many models run, and
/// its error if any.
pub open spec fn classic_llm_spec(llm: Option<LlmMetrics>) -> Seq<Seq<char>> {
    match llm {
        None => seq!["waiting for first snapshot..."@],
        Some(l) => seq![
            "ollama endpoint: "@ + l.ollama_ps_url@,
            "online: "@ + bool_text(l.ollama_online),
            "running models: "@ + decimal_seq(l.model_count as nat),
        ] + match l.error {
            Some(e) => seq!["error: "@ + e@],
            None => Seq::empty(),
        },
    }
}

/// Appends `m`, dropping the oldest messages beyond `CHAT_HISTORY_MAX`.
fn push_bounded(h: &mut VecDeque<ChatMessage>, m: ChatMessage)
    ensures
        final(h)@ == keep_last(old(h)@.push(m), CHAT_HISTORY_MAX as nat),
{
    let ghost full = old(h)@.push(m);
    h.push_back(m);
    while h.len() > CHAT_HISTORY_MAX
        invariant
            full.len() >= h@.len(),
            h@ == full.skip(full.len() - h@.len()),
            h@.len() >= if full.len() > CHAT_HISTORY_MAX {
                CHAT_HISTORY_MAX as nat
            } else {
                full.len()
            },
        decreases h@.len(),
    {
        let _ = h.pop_front();
        assert(full.skip(full.len() - (h@.len() + 1)).subrange(1, h@.len() as int + 1) =~= full.skip(
            full.len() - h@.len(),
        ));
    }
    assert(keep_last(full, CHAT_HISTORY_MAX as nat) =~= h@) by {
        if full.len() <= CHAT_HISTORY_MAX {
            assert(full.skip(0) =~= full);
        }
    };
}

impl ClassicApp {
    /// A plain dashboard for `endpoint`: help hidden, events collapsed, no
    /// input, an empty chat and no state yet.
    pub fn new(endpoint: String, token: Option<String>) -> (app: ClassicApp)
        ensures
            app.endpoint == endpoint && app.token == token,
            !app.show_help && !app.expanded_events && !app.input_mode && !app.should_quit,
            app.chat_input@.len() == 0 && app.chat_history@.len() == 0,
            app.llm is None && app.last_error is None,
    {
        ClassicApp {
            endpoint,
            token,
            show_help: false,
            expanded_events: false,
            input_mode: false,
            chat_input: String::new(),
            chat_history: VecDeque::new(),
            should_quit: false,
            llm: None,
            last_error: None,
        }
    }

    /// Answers a key press (see `classic_key_post`).
    pub fn on_key(&mut self, key: KeyInput) -> (r: ClassicAction)
        ensures
            classic_key_post(*old(self), key, *final(self), r),
    {
        if self.input_mode {
            return self.on_key_input_mode(key);
        }
        match key.code {
            KeyCode::Char(c) => {
                if c == 'q' {
                    self.should_quit = true;
                } else if c == 'h' {
                    self.show_help = !self.show_help;
                } else if c == 'e' {
                    self.expanded_events = !self.expanded_events;
                } else if c == 'i' {
                    self.input_mode = true;
                } else if c == 'r' {
                    return ClassicAction::Refresh;
                }
            },
            _ => {},
        }
        ClassicAction::Nothing
    }

    /// Answers a key in the chat input (see `classic_key_post`).
    pub fn on_key_input_mode(&mut self, key: KeyInput) -> (r: ClassicAction)
        requires
            old(self).input_mode,
        ensures
            classic_key_post(*old(self), key, *final(self), r),
    {
        match key.code {
            KeyCode::Esc => {
                self.input_mode = false;
                ClassicAction::Nothing
            },
            KeyCode::Enter => {
                let prompt = trim(self.chat_input.as_str());
                self.chat_input = String::new();
                proof {
                    crate::text::lemma_trim_idempotent(old(self).chat_input@);
                }
                if !trim_is_empty(prompt.as_str()) {
                    ClassicAction::SendPrompt(prompt)
                } else {
                    ClassicAction::Nothing
                }
            },
            KeyCode::Backspace => {
                pop_char(&mut self.chat_input);
                ClassicAction::Nothing
            },
            KeyCode::Char(c) => {
                if !key.ctrl {
                    string_push(&mut self.chat_input, c);
                }
                ClassicAction::Nothing
            },
            _ => ClassicAction::Nothing,
        }
    }

    /// Appends a chat message, dropping the oldest beyond
    /// `CHAT_HISTORY_MAX`.
    pub fn push_chat(&mut self, role: String, content: String)
        ensures
            *final(self) == (ClassicApp { chat_history: final(self).chat_history, ..*old(self) }),
            messages_view(final(self).chat_history@) == keep_last(
                messages_view(old(self).chat_history@).push((None, role@, content@)),
                CHAT_HISTORY_MAX as nat,
            ),
    {
        push_bounded(&mut self.chat_history, ChatMessage { id: None, role, content });
        proof {
            let full = old(self).chat_history@.push(ChatMessage { id: None, role, content });
            assert(messages_view(full) =~= messages_view(old(self).chat_history@).push(
                (None, role@, content@),
            ));
            assert(messages_view(keep_last(full, CHAT_HISTORY_MAX as nat)) =~= keep_last(
                messages_view(full),
                CHAT_HISTORY_MAX as nat,
            ));
        }
    }

    /// The chat address next to the state address (see
    /// `sibling_endpoint`).
    pub fn chat_endpoint(&self) -> (r: String)
        ensures
            r@ == sibling_endpoint(self.endpoint@, "/chat"@),
    {
        sibling(self.endpoint.as_str(), "/chat")
    }

    /// Takes in the outcome of a state poll, as the full dashboard does
    /// (see `poll_post`).
    pub fn apply_poll(&mut self, outcome: Outcome<LlmMetrics>)
        ensures
            *final(self) == (ClassicApp { llm: final(self).llm, last_error: final(self).last_error, ..*old(self) }),
            match outcome {
                Outcome::Answer(l) => final(self).llm == Some(l) && final(self).last_error is None,
                Outcome::DecodeFailed(e) => final(self).llm == old(self).llm && opt_view(
                    final(self).last_error,
                ) == Some("decode failed: "@ + e@),
                Outcome::BadStatus(s) => final(self).llm == old(self).llm && opt_view(
                    final(self).last_error,
                ) == Some("agent returned status "@ + s@),
                Outcome::RequestFailed(e) => final(self).llm == old(self).llm && opt_view(
                    final(self).last_error,
                ) == Some("request failed: "@ + e@),
            },
    {
        match outcome {
            Outcome::Answer(l) => {
                self.llm = Some(l);
                self.last_error = None;
            },
            Outcome::DecodeFailed(e) => {
                self.last_error = Some(concat("decode failed: ", e.as_str()));
            },
            Outcome::BadStatus(s) => {
                self.last_error = Some(concat("agent returned status ", s.as_str()));
            },
            Outcome::RequestFailed(e) => {
                self.last_error = Some(concat("request failed: ", e.as_str()));
            },
        }
    }

    /// Starts a chat prompt: it is shown as the user's message; returns
    /// the request to send (no model is named).
    pub fn begin_prompt(&mut self, prompt: String) -> (r: ChatRequest)
        ensures
            r.prompt@ == prompt@ && r.model is None,
            *final(self) == (ClassicApp { chat_history: final(self).chat_history, ..*old(self) }),
            messages_view(final(self).chat_history@) == keep_last(
                messages_view(old(self).chat_history@).push((None, "you"@, prompt@)),
                CHAT_HISTORY_MAX as nat,
            ),
    {
        self.push_chat(owned("you"), prompt.clone());
        ChatRequest { prompt, model: None }
    }

    /// Shows the reply to a prompt (see `chat_reply`).
    pub fn apply_reply(&mut self, outcome: Outcome<ChatResponse>)
        ensures
            *final(self) == (ClassicApp { chat_history: final(self).chat_history, ..*old(self) }),
            messages_view(final(self).chat_history@) == keep_last(
                messages_view(old(self).chat_history@).push(
                    (None, chat_reply(outcome).0, chat_reply(outcome).1),
                ),
                CHAT_HISTORY_MAX as nat,
            ),
    {
        let r = chat_job_result(0, outcome);
        self.push_chat(r.role, r.content);
    }

    /// The lines of the chat panel (see `classic_chat_spec`).
    pub fn chat_text(&self) -> (r: Vec<String>)
        ensures
            views(r@) == classic_chat_spec(self.chat_history@),
    {
        let h = &self.chat_history;
        let n = h.len();
        let mut out: Vec<String> = Vec::new();
        if n == 0 {
            out.push(owned("No chat messages yet. Press i to start typing."));
            assert(views(out@) =~= classic_chat_spec(h@));
            return out;
        }
        let start = if n > 20 {
            n - 20
        } else {
            0
        };
        let ghost w = if h@.len() > 20 {
            h@.skip(h@.len() - 20)
        } else {
            h@
        };
        let ghost f = |m: ChatMessage| m.role@ + ": "@ + m.content@;
        proof {
            assert(w =~= h@.subrange(start as int, n as int));
        }
        let mut i: usize = start;
        while i < n
            invariant
                start <= i <= n,
                n == h@.len(),
                w == h@.subrange(start as int, n as int),
                views(out@) == h@.subrange(start as int, i as int).map_values(
                    |m: ChatMessage| m.role@ + ": "@ + m.content@,
                ),
            decreases n - i,
        {
            let m = &h[i];
            let head = concat(m.role.as_str(), ": ");
            let line = concat(head.as_str(), m.content.as_str());
            let ghost before = views(out@);
            out.push(line);
            proof {
                assert(views(out@) =~= before.push(line@));
                assert(h@.subrange(start as int, i as int + 1).map_values(
                    |m: ChatMessage| m.role@ + ": "@ + m.content@,
                ) =~= h@.subrange(start as int, i as int).map_values(
                    |m: ChatMessage| m.role@ + ": "@ + m.content@,
                ).push(h@[i as int].role@ + ": "@ + h@[i as int].content@));
            }
            i += 1;
        }
        out
    }

    /// The lines of the LLM summary (see `classic_llm_spec`).
    pub fn llm_text(&self) -> (r: Vec<String>)
        ensures
            views(r@) == classic_llm_spec(self.llm),
    {
        let mut out: Vec<String> = Vec::new();
        match &self.llm {
            None => {
                out.push(owned("waiting for first snapshot..."));
            },
            Some(l) => {
                out.push(concat("ollama endpoint: ", l.ollama_ps_url.as_str()));
                out.push(concat("online: ", crate::tui::names::bool_label(l.ollama_online)));
                let n = crate::text::decimal_string(l.model_count as u128);
                out.push(concat("running models: ", n.as_str()));
                match &l.error {
                    Some(e) => out.push(concat("error: ", e.as_str())),
                    None => {},
                }
            },
        }
        assert(views(out@) =~= classic_llm_spec(self.llm));
        out
    }
}

} // verus!
