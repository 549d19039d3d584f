//! What the dashboard shows, decided apart from how it is drawn: the
//! request flow map, chat rows, the option lists of the Customize screen,
//! the colour picker, the selector and navigator lists, the panel layout,
//! and the text of the status, LLM and file event panels.

use vstd::prelude::*;
use vstd::utf8::encode_utf8;
use crate::text::{concat, contains_seq, contains_text, owned, str_eq, trim_is_empty, trim_seq};
use crate::tui::app::{App, ChatMessage, Screen};
use crate::tui::config::{DashboardConfig, FlowMapModuleConfig, resolve_theme_palette_config, resolved_palette};
use crate::tui::theme::{ThemePaletteConfig, palette_view};
use crate::tui::markdown::{ChatLineKind, chat_format, format_markdown_for_chat};
use crate::tui::names::{NamedColor, color_from_name, named_color};


verus! {

/// The state of one step of the request flow.
#[derive(Clone, Copy, Debug, PartialEq, Eq, Structural)]
pub enum FlowMark {
    /// The user is typing.
    Act,
    /// In flight.
    Run,
    /// Queued behind a request in flight.
    Wait,
    /// Done.
    Done,
    /// Failed.
    Failed,
}

/// The flow map: a mark for each step from input to rendering, and a
/// one-line summary.
pub struct FlowView {
    pub input: FlowMark,
    pub request: FlowMark,
    pub agent: FlowMark,
    pub ollama: FlowMark,
    pub response: FlowMark,
    pub render: FlowMark,
    pub status: &'static str,
}

/// Some chat message is a placeholder awaiting its reply.
pub open spec fn has_pending(h: Seq<ChatMessage>) -> bool {
    exists|i: int| 0 <= i < h.len() && h[i].id is Some
}

/// The content of the newest message from the role "error", if any.
pub open spec fn last_error_text(h: Seq<ChatMessage>) -> Option<Seq<char>>
    decreases h.len(),
{
    if h.len() == 0 {
        None
    } else if h.last().role@ == "error"@ {
        Some(h.last().content@)
    } else {
        last_error_text(h.drop_last())
    }
}

/// Whether the agent reports Ollama online (false before the first state).
pub open spec fn ollama_online_spec(o: App) -> bool {
    match o.llm {
        Some(l) => l.ollama_online,
        None => false,
    }
}

/// The flow map of `o`.
pub open spec fn flow_spec(o: App, v: FlowView) -> bool {
    let pending = has_pending(o.chat_history@);
    let chat_error = last_error_text(o.chat_history@);
    let ollama = ollama_online_spec(o);
    &&& v.input == if o.input_mode || trim_seq(o.chat_input@).len() > 0 {
        FlowMark::Act
    } else {
        FlowMark::Done
    }
    &&& v.request == if pending {
        FlowMark::Run
    } else if chat_error matches Some(e) && (contains_seq(e, "chat"@) || contains_seq(e, "decode"@)) {
        FlowMark::Failed
    } else {
        FlowMark::Done
    }
    &&& v.agent == if o.last_error is None {
        FlowMark::Done
    } else {
        FlowMark::Failed
    }
    &&& v.ollama == if pending && !ollama {
        FlowMark::Run
    } else if ollama {
        FlowMark::Done
    } else {
        FlowMark::Failed
    }
    &&& v.response == if pending {
        FlowMark::Wait
    } else if chat_error is Some {
        FlowMark::Failed
    } else {
        FlowMark::Done
    }
    &&& v.render == if pending {
        FlowMark::Wait
    } else {
        FlowMark::Done
    }
    &&& v.status@ == if pending {
        "status: waiting response"@
    } else if chat_error is Some {
        "status: chat error"@
    } else if o.last_error is Some {
        "status: agent offline"@
    } else if !ollama {
        "status: ollama offline"@
    } else {
        "status: healthy"@
    }
}

/// The label of a mark; `wide` pads to the width of "[WAIT]".
pub open spec fn mark_label_spec(m: FlowMark, wide: bool) -> Seq<char> {
    match m {
        FlowMark::Act => "[ACT]"@,
        FlowMark::Run => "[RUN]"@,
        FlowMark::Wait => "[WAIT]"@,
        FlowMark::Done => if wide {
            "[OK  ]"@
        } else {
            "[OK ]"@
        },
        FlowMark::Failed => if wide {
            "[ERR ]"@
        } else {
            "[ERR]"@
        },
    }
}

/// The label of a mark (see `mark_label_spec`).
pub fn mark_label(m: FlowMark, wide: bool) -> (s: &'static str)
    ensures
        s@ == mark_label_spec(m, wide),
{
    match m {
        FlowMark::Act => "[ACT]",
        FlowMark::Run => "[RUN]",
        FlowMark::Wait => "[WAIT]",
        FlowMark::Done => if wide {
            "[OK  ]"
        } else {
            "[OK ]"
        },
        FlowMark::Failed => if wide {
            "[ERR ]"
        } else {
            "[ERR]"
        },
    }
}

/// The colour a mark is drawn in: none (the theme's text colour) unless
/// the flow map is colourized; then the configured colour for the mark's
/// state, or a fixed one when that name is unknown.
pub open spec fn mark_color_spec(cfg: FlowMapModuleConfig, m: FlowMark) -> Option<NamedColor> {
    if !cfg.colorize {
        None
    } else {
        let (name, fallback) = match m {
            FlowMark::Act => (cfg.active_color@, NamedColor::LightYellow),
            FlowMark::Run => (cfg.run_color@, NamedColor::Yellow),
            FlowMark::Wait => (cfg.wait_color@, NamedColor::Yellow),
            FlowMark::Done => (cfg.ok_color@, NamedColor::LightGreen),
            FlowMark::Failed => (cfg.err_color@, NamedColor::LightRed),
        };
        match named_color(name) {
            Some(c) => Some(c),
            None => Some(fallback),
        }
    }
}

/// The colour of a mark (see `mark_color_spec`).
pub fn mark_color(cfg: &FlowMapModuleConfig, m: FlowMark) -> (r: Option<NamedColor>)
    ensures
        r == mark_color_spec(*cfg, m),
{
    if !cfg.colorize {
        return None;
    }
    let (name, fallback) = match m {
        FlowMark::Act => (cfg.active_color.as_str(), NamedColor::LightYellow),
        FlowMark::Run => (cfg.run_color.as_str(), NamedColor::Yellow),
        FlowMark::Wait => (cfg.wait_color.as_str(), NamedColor::Yellow),
        FlowMark::Done => (cfg.ok_color.as_str(), NamedColor::LightGreen),
        FlowMark::Failed => (cfg.err_color.as_str(), NamedColor::LightRed),
    };
    match color_from_name(name) {
        Some(c) => Some(c),
        None => Some(fallback),
    }
}

/// The label a chat role is shown under and its colour (none: the theme's
/// text colour): the user's and the assistant's configured labels and
/// colours, any other role under its own name.
pub open spec fn role_display_spec(d: DashboardConfig, role: Seq<char>) -> (Seq<char>, Option<NamedColor>) {
    if role == "you"@ {
        (d.user_name@, named_color(d.user_color@))
    } else if role == "assistant"@ {
        (d.assistant_name@, named_color(d.assistant_color@))
    } else {
        (role, None)
    }
}

/// The model of a chat row: its prefix, colour, kind (none for a message
/// without lines) and text.
pub type RowView = (Seq<char>, Option<NamedColor>, Option<ChatLineKind>, Seq<char>);

/// One row of the chat panel.
pub struct ChatRow {
    pub prefix: String,
    pub color: Option<NamedColor>,
    pub kind: Option<ChatLineKind>,
    pub text: String,
}

/// The model of a chat row.
pub open spec fn row_view(r: ChatRow) -> RowView {
    (r.prefix@, r.color, r.kind, r.text@)
}

/// The width of `label` in bytes of UTF-8, as `str::len` gives it.
pub open spec fn byte_width(label: Seq<char>) -> nat {
    (encode_utf8(label).len() as usize) as nat
}

/// `n` spaces.
pub open spec fn spaces(n: nat) -> Seq<char> {
    Seq::new(n, |i: int| ' ')
}

/// The rows of one message: the label and a colon alone when the message
/// has no lines; otherwise its formatted lines, the first after the label
/// and ": ", the others indented by the label's width in bytes plus two.
pub open spec fn message_rows(label: Seq<char>, color: Option<NamedColor>, content: Seq<char>) -> Seq<RowView> {
    let lines = chat_format(content);
    if lines.len() == 0 {
        seq![(label + ":"@, color, None, Seq::<char>::empty())]
    } else {
        Seq::new(
            lines.len(),
            |i: int|
                (
                    if i == 0 {
                        label + ": "@
                    } else {
                        spaces(byte_width(label) + 2)
                    },
                    color,
                    Some(lines[i].1),
                    lines[i].0,
                ),
        )
    }
}

/// The rows of the messages `msgs`, in order.
pub open spec fn rows_of(d: DashboardConfig, msgs: Seq<ChatMessage>) -> Seq<RowView>
    decreases msgs.len(),
{
    if msgs.len() == 0 {
        Seq::empty()
    } else {
        let m = msgs.last();
        let (label, color) = role_display_spec(d, m.role@);
        rows_of(d, msgs.drop_last()) + message_rows(label, color, m.content@)
    }
}

/// The number of newest messages the chat panel shows.
pub const CHAT_WINDOW: usize = 20;

/// The newest `CHAT_WINDOW` messages.
pub open spec fn chat_window(h: Seq<ChatMessage>) -> Seq<ChatMessage> {
    if h.len() > CHAT_WINDOW {
        h.skip(h.len() - CHAT_WINDOW)
    } else {
        h
    }
}

/// The line the chat panel shows while there are no messages.
pub const EMPTY_CHAT_HINT: &'static str = "No chat messages yet. Press i to type, m to choose model.";

/// The rows of the chat panel: the hint alone (as a row with no colour,
/// no line kind and no text) when there is no message, else the rows of
/// the newest `CHAT_WINDOW` messages.
pub open spec fn chat_panel_rows(d: DashboardConfig, h: Seq<ChatMessage>) -> Seq<RowView> {
    if h.len() == 0 {
        seq![(EMPTY_CHAT_HINT@, None, None, Seq::<char>::empty())]
    } else {
        rows_of(d, chat_window(h))
    }
}

/// `n` spaces.
fn spaces_string(n: usize) -> (r: String)
    ensures
        r@ == spaces(n as nat),
{
    let mut v: Vec<char> = Vec::new();
    let mut i: usize = 0;
    while i < n
        invariant
            i <= n,
            v@ == spaces(i as nat),
        decreases n - i,
    {
        v.push(' ');
        i += 1;
        assert(v@ =~= spaces(i as nat));
    }
    crate::text::string_from_chars(&v)
}

/// The rows of one message (see `message_rows`).
fn push_message_rows(label: &String, color: Option<NamedColor>, content: &String, out: &mut Vec<ChatRow>)
    ensures
        final(out)@.map_values(|r: ChatRow| row_view(r)) == old(out)@.map_values(
            |r: ChatRow| row_view(r),
        ) + message_rows(label@, color, content@),
{
    let lines = format_markdown_for_chat(content.as_str());
    let ghost ls = chat_format(content@);
    let ghost base = old(out)@.map_values(|r: ChatRow| row_view(r));
    if lines.len() == 0 {
        out.push(ChatRow { prefix: concat(label.as_str(), ":"), color, kind: None, text: String::new() });
        assert(out@.map_values(|r: ChatRow| row_view(r)) =~= base + message_rows(label@, color, content@));
        return;
    }
    let first = concat(label.as_str(), ": ");
    let mut pad = spaces_string(label.as_str().len());
    crate::text::string_push(&mut pad, ' ');
    crate::text::string_push(&mut pad, ' ');
    proof {
        assert(pad@ =~= spaces(byte_width(label@) + 2));
    }
    let mut i: usize = 0;
    while i < lines.len()
        invariant
            i <= lines@.len(),
            ls == chat_format(content@),
            crate::tui::markdown::lines_view(lines@) == ls,
            ls.len() > 0,
            first@ == label@ + ": "@,
            pad@ == spaces(byte_width(label@) + 2),
            out@.map_values(|r: ChatRow| row_view(r)) == base + message_rows(label@, color, content@).take(
                i as int,
            ),
        decreases lines.len() - i,
    {
        let prefix = if i == 0 {
            first.clone()
        } else {
            pad.clone()
        };
        let text = lines[i].text.clone();
        let kind = lines[i].kind;
        proof {
            assert(crate::tui::markdown::lines_view(lines@)[i as int] == (lines@[i as int].text@, lines@[i as int].kind));
        }
        let ghost old_rows = out@.map_values(|r: ChatRow| row_view(r));
        let row = ChatRow { prefix, color, kind: Some(kind), text };
        proof {
            let mr = message_rows(label@, color, content@);
            assert(ls[i as int] == (lines@[i as int].text@, lines@[i as int].kind));
            assert(row_view(row) == mr[i as int]);
        }
        out.push(row);
        proof {
            let mr = message_rows(label@, color, content@);
            assert(out@.map_values(|r: ChatRow| row_view(r)) =~= old_rows.push(row_view(row)));
            assert(mr.take(i as int + 1) =~= mr.take(i as int).push(mr[i as int]));
        }
        i += 1;
        assert(out@.map_values(|r: ChatRow| row_view(r)) =~= base + message_rows(label@, color, content@).take(i as int));
    }
    proof {
        let mr = message_rows(label@, color, content@);
        assert(mr.take(mr.len() as int) =~= mr);
    }
}

impl App {
    /// The theme the dashboard is drawn in: the draft theme while its live
    /// preview is on and the Customize screen is shown, otherwise the
    /// active theme (see `resolved_palette`).
    pub fn active_palette(&self) -> (p: ThemePaletteConfig)
        requires
            self.config.themes.wf(),
        ensures
            palette_view(p) == if self.theme_draft_live_preview && self.active_screen == Screen::Customize {
                palette_view(self.theme_draft)
            } else {
                resolved_palette(self.config, self.config.global.theme@)
            },
    {
        if self.theme_draft_live_preview && self.active_screen == Screen::Customize {
            self.theme_draft.clone()
        } else {
            resolve_theme_palette_config(&self.config, self.config.global.theme.as_str())
        }
    }

    /// The label and colour of a chat role (see `role_display_spec`).
    pub fn role_display(&self, role: &str) -> (r: (String, Option<NamedColor>))
        ensures
            (r.0@, r.1) == role_display_spec(self.config.dashboard, role@),
    {
        let d = &self.config.dashboard;
        if str_eq(role, "you") {
            (d.user_name.clone(), color_from_name(d.user_color.as_str()))
        } else if str_eq(role, "assistant") {
            (d.assistant_name.clone(), color_from_name(d.assistant_color.as_str()))
        } else {
            (owned(role), None)
        }
    }

    /// The rows of the chat panel: a hint alone without messages, else
    /// those of the newest `CHAT_WINDOW` messages (see `chat_panel_rows`).
    pub fn chat_rows(&self) -> (r: Vec<ChatRow>)
        ensures
            r@.map_values(|x: ChatRow| row_view(x)) == chat_panel_rows(
                self.config.dashboard,
                self.chat_history@,
            ),
    {
        if self.chat_history.len() == 0 {
            let hint = ChatRow { prefix: owned(EMPTY_CHAT_HINT), color: None, kind: None, text: String::new() };
            let out = vec![hint];
            assert(out@.map_values(|x: ChatRow| row_view(x)) =~= chat_panel_rows(
                self.config.dashboard,
                self.chat_history@,
            ));
            return out;
        }
        let n = self.chat_history.len();
        let start = if n > CHAT_WINDOW {
            n - CHAT_WINDOW
        } else {
            0
        };
        let ghost h = self.chat_history@;
        let ghost w = chat_window(h);
        proof {
            assert(w =~= h.subrange(start as int, n as int));
        }
        let mut out: Vec<ChatRow> = Vec::new();
        let mut i: usize = start;
        while i < n
            invariant
                start <= i <= n,
                n == h.len(),
                h == self.chat_history@,
                w == h.subrange(start as int, n as int),
                out@.map_values(|x: ChatRow| row_view(x)) == rows_of(
                    self.config.dashboard,
                    h.subrange(start as int, i as int),
                ),
            decreases n - i,
        {
            let m = &self.chat_history[i];
            let (label, color) = self.role_display(m.role.as_str());
            push_message_rows(&label, color, &m.content, &mut out);
            proof {
                let s = h.subrange(start as int, i as int + 1);
                assert(s.drop_last() =~= h.subrange(start as int, i as int));
                assert(s.last() == h[i as int]);
            }
            i += 1;
        }
        out
    }

    /// The flow map (see `flow_spec`).
    pub fn flow_view(&self) -> (v: FlowView)
        ensures
            flow_spec(*self, v),
    {
        let h = &self.chat_history;
        let n = h.len();
        let mut pending = false;
        let mut i: usize = 0;
        while i < n
            invariant
                i <= n,
                n == h@.len(),
                pending == exists|j: int| 0 <= j < i && h@[j].id is Some,
            decreases n - i,
        {
            if h[i].id.is_some() {
                pending = true;
            }
            i += 1;
        }
        let chat_error = self.newest_error();
        let ollama = match &self.llm {
            Some(l) => l.ollama_online,
            None => false,
        };
        let typing = self.input_mode || !trim_is_empty(self.chat_input.as_str());
        let input = if typing {
            FlowMark::Act
        } else {
            FlowMark::Done
        };
        let request = if pending {
            FlowMark::Run
        } else {
            match &chat_error {
                Some(e) => if contains_text(e.as_str(), "chat") || contains_text(e.as_str(), "decode") {
                    FlowMark::Failed
                } else {
                    FlowMark::Done
                },
                None => FlowMark::Done,
            }
        };
        let agent = if self.last_error.is_none() {
            FlowMark::Done
        } else {
            FlowMark::Failed
        };
        let ollama_mark = if pending && !ollama {
            FlowMark::Run
        } else if ollama {
            FlowMark::Done
        } else {
            FlowMark::Failed
        };
        let response = if pending {
            FlowMark::Wait
        } else if chat_error.is_some() {
            FlowMark::Failed
        } else {
            FlowMark::Done
        };
        let render = if pending {
            FlowMark::Wait
        } else {
            FlowMark::Done
        };
        let status = if pending {
            "status: waiting response"
        } else if chat_error.is_some() {
            "status: chat error"
        } else if self.last_error.is_some() {
            "status: agent offline"
        } else if !ollama {
            "status: ollama offline"
        } else {
            "status: healthy"
        };
        FlowView { input, request, agent, ollama: ollama_mark, response, render, status }
    }

    /// The content of the newest "error" message (see `last_error_text`).
    fn newest_error(&self) -> (r: Option<String>)
        ensures
            crate::wire::opt_view(r) == last_error_text(self.chat_history@),
    {
        let h = &self.chat_history;
        let mut k: usize = h.len();
        proof {
            assert(h@.take(k as int) =~= h@);
        }
        while k > 0 && !str_eq(h[k - 1].role.as_str(), "error")
            invariant
                k <= h@.len(),
                last_error_text(h@) == last_error_text(h@.take(k as int)),
            decreases k,
        {
            proof {
                let t = h@.take(k as int);
                assert(t.drop_last() =~= h@.take(k as int - 1));
            }
            k -= 1;
        }
        if k == 0 {
            proof {
                assert(h@.take(0) =~= Seq::<ChatMessage>::empty());
            }
            None
        } else {
            proof {
                assert(h@.take(k as int).last() == h@[k as int - 1]);
            }
            Some(h[k - 1].content.clone())
        }
    }
}

} // verus!
