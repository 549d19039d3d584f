//! The dashboard's state and how it answers keys and replies.

use vstd::prelude::*;
use std::collections::VecDeque;
use crate::text::{chars_of, concat, slice_chars, string_from_chars};
use crate::wire::{LlmMetrics, opt_view};
use crate::agent::events::keep_last;
use crate::tui::config::{AppConfig, resolve_theme_palette_config, resolved_palette};
use crate::tui::theme::{ThemeColorField, ThemePaletteConfig, palette_view};

verus! {

/// How many chat messages the dashboard keeps.
pub const CHAT_HISTORY_MAX: usize = 100;

/// How long a status message stays visible, in nanoseconds.
pub const STATUS_MSG_TTL_NS: u128 = 5000000000;

/// A key as the dashboard reads it.
#[derive(Clone, Copy, Debug, PartialEq, Eq, Structural)]
pub enum KeyCode {
    Char(char),
    Tab,
    Esc,
    Enter,
    Backspace,
    Up,
    Down,
    Left,
    Right,
    /// Any other key.
    Other,
}

/// A key press: the key and whether Control was held.
#[derive(Clone, Copy, Debug, PartialEq, Eq, Structural)]
pub struct KeyInput {
    pub code: KeyCode,
    pub ctrl: bool,
}

/// The screens of the dashboard.
#[derive(Clone, Copy, Debug, PartialEq, Eq, Structural)]
pub enum Screen {
    Dashboard,
    Customize,
}

/// The sections of the Customize screen.
#[derive(Clone, Copy, Debug, PartialEq, Eq, Structural)]
pub enum CustomizeSection {
    Global,
    Dashboard,
    Themes,
}

/// The options of the Global section.
#[derive(Clone, Copy, Debug, PartialEq, Eq, Structural)]
pub enum GlobalOption {
    Theme,
}

/// The options of the Dashboard section.
#[derive(Clone, Copy, Debug, PartialEq, Eq, Structural)]
pub enum DashboardOption {
    AssistantName,
    AssistantColor,
    UserName,
    UserColor,
    LayoutPreset,
    ShowStatus,
    ShowSystem,
    ShowProcesses,
    ShowEvents,
    ShowFlow,
}

/// The options of the New Themes section.
#[derive(Clone, Copy, Debug, PartialEq, Eq, Structural)]
pub enum ThemesOption {
    ColorPick(ThemeColorField),
    NewThemeName,
    SaveNewTheme,
}

/// The rows of the colour picker.
#[derive(Clone, Copy, Debug, PartialEq, Eq, Structural)]
pub enum ColorPickerRow {
    BasePrimary,
    BaseExtended,
    Shade,
}

/// What the inline text editor is editing.
#[derive(Clone, Copy, Debug, PartialEq, Eq, Structural)]
pub enum CustomizeTextTarget {
    DashboardAssistantName,
    DashboardUserName,
    ThemeNewName,
}

/// What the program around the dashboard should do after a key.
pub enum AppAction {
    /// Nothing to do.
    Nothing,
    Refresh,
    SendPrompt(String),
    OpenModelSelector,
    SelectModel(String),
    SelectScreen(Screen),
    SaveConfig,
}

/// One chat message; a message with an id is a placeholder awaiting its
/// reply.
pub struct ChatMessage {
    pub id: Option<u64>,
    pub role: String,
    pub content: String,
}

/// The model of a chat message.
pub open spec fn message_view(m: ChatMessage) -> (Option<u64>, Seq<char>, Seq<char>) {
    (m.id, m.role@, m.content@)
}

/// The models of chat messages.
pub open spec fn messages_view(s: Seq<ChatMessage>) -> Seq<(Option<u64>, Seq<char>, Seq<char>)> {
    s.map_values(|m: ChatMessage| message_view(m))
}

/// A status line and when it was set (nanoseconds on the caller's clock).
pub struct StatusMessage {
    pub text: String,
    pub at_ns: u128,
}

/// The finished reply for a chat placeholder.
pub struct ChatJobResult {
    pub placeholder_id: u64,
    pub role: String,
    pub content: String,
}

/// Everything the dashboard's decisions read and change.
pub struct App {
    pub endpoint: String,
    pub token: Option<String>,
    pub config: AppConfig,
    pub config_dirty: bool,
    pub status_msg: Option<StatusMessage>,
    pub active_screen: Screen,
    pub show_help: bool,
    pub show_model_selector: bool,
    pub show_navigator: bool,
    pub expanded_events: bool,
    pub input_mode: bool,
    pub chat_input: String,
    pub chat_history: VecDeque<ChatMessage>,
    pub chat_scroll: usize,
    pub next_chat_id: u64,
    pub selected_model: Option<String>,
    pub model_list: Vec<String>,
    pub running_models: Vec<String>,
    pub model_hover_idx: usize,
    pub navigator_hover_idx: usize,
    pub customize_section_idx: usize,
    pub global_option_idx: usize,
    pub dashboard_option_idx: usize,
    pub themes_option_idx: usize,
    pub theme_draft: ThemePaletteConfig,
    pub theme_new_name: String,
    pub theme_draft_live_preview: bool,
    pub customize_text_mode: bool,
    pub customize_text_buffer: String,
    pub customize_text_target: Option<CustomizeTextTarget>,
    pub show_color_picker: bool,
    pub color_picker_field: Option<ThemeColorField>,
    pub color_picker_row: ColorPickerRow,
    pub color_picker_idx: usize,
    pub color_picker_primary_idx: usize,
    pub color_picker_extended_idx: usize,
    pub color_picker_shade_idx: usize,
    pub should_quit: bool,
    /// The LLM part of the last state the agent reported.
    pub llm: Option<LlmMetrics>,
    pub last_error: Option<String>,
}

impl App {
    /// The dashboard's invariant: the theme table is in order and the
    /// selection indices can be stepped forward.
    pub open spec fn wf(&self) -> bool {
        &&& self.config.themes.wf()
        &&& self.model_hover_idx < usize::MAX
        &&& self.navigator_hover_idx < usize::MAX
        &&& self.customize_section_idx < usize::MAX
        &&& self.color_picker_extended_idx < usize::MAX
    }

    /// A dashboard for `endpoint` with the loaded configuration: on the
    /// Dashboard screen with nothing open, an empty chat, and the active
    /// theme as the draft for new themes.
    pub fn new(endpoint: String, token: Option<String>, config: AppConfig) -> (app: App)
        requires
            config.themes.wf(),
        ensures
            app.wf(),
            app.endpoint == endpoint,
            app.token == token,
            app.config == config,
            palette_view(app.theme_draft) == resolved_palette(config, config.global.theme@),
            !app.config_dirty,
            app.status_msg is None,
            app.active_screen == Screen::Dashboard,
            !app.show_help && !app.show_model_selector && !app.show_navigator,
            !app.expanded_events && !app.input_mode,
            app.chat_input@.len() == 0,
            app.chat_history@.len() == 0,
            app.chat_scroll == 0,
            app.next_chat_id == 1,
            app.selected_model is None,
            app.model_list@.len() == 0 && app.running_models@.len() == 0,
            app.model_hover_idx == 0 && app.navigator_hover_idx == 0,
            app.customize_section_idx == 0 && app.global_option_idx == 0,
            app.dashboard_option_idx == 0 && app.themes_option_idx == 0,
            app.theme_new_name@.len() == 0,
            !app.theme_draft_live_preview && !app.customize_text_mode,
            app.customize_text_buffer@.len() == 0,
            app.customize_text_target is None,
            !app.show_color_picker && app.color_picker_field is None,
            app.color_picker_row == ColorPickerRow::BasePrimary,
            app.color_picker_idx == 0 && app.color_picker_primary_idx == 0,
            app.color_picker_extended_idx == 16 && app.color_picker_shade_idx == 8,
            !app.should_quit,
            app.llm is None && app.last_error is None,
    {
        let theme_draft = resolve_theme_palette_config(&config, config.global.theme.as_str());
        App {
            endpoint,
            token,
            config,
            config_dirty: false,
            status_msg: None,
            active_screen: Screen::Dashboard,
            show_help: false,
            show_model_selector: false,
            show_navigator: false,
            expanded_events: false,
            input_mode: false,
            chat_input: String::new(),
            chat_history: VecDeque::new(),
            chat_scroll: 0,
            next_chat_id: 1,
            selected_model: None,
            model_list: Vec::new(),
            running_models: Vec::new(),
            model_hover_idx: 0,
            navigator_hover_idx: 0,
            customize_section_idx: 0,
            global_option_idx: 0,
            dashboard_option_idx: 0,
            themes_option_idx: 0,
            theme_draft,
            theme_new_name: String::new(),
            theme_draft_live_preview: false,
            customize_text_mode: false,
            customize_text_buffer: String::new(),
            customize_text_target: None,
            show_color_picker: false,
            color_picker_field: None,
            color_picker_row: ColorPickerRow::BasePrimary,
            color_picker_idx: 0,
            color_picker_primary_idx: 0,
            color_picker_extended_idx: 16,
            color_picker_shade_idx: 8,
            should_quit: false,
            llm: None,
            last_error: None,
        }
    }

    /// Appends a message, dropping the oldest beyond `CHAT_HISTORY_MAX`.
    pub fn push_chat_with_id(&mut self, id: Option<u64>, role: String, content: String)
        ensures
            *final(self) == (App { chat_history: final(self).chat_history, ..*old(self) }),
            messages_view(final(self).chat_history@) == keep_last(
                messages_view(old(self).chat_history@).push((id, role@, content@)),
                CHAT_HISTORY_MAX as nat,
            ),
    {
        let ghost full = old(self).chat_history@.push(ChatMessage { id, role, content });
        self.chat_history.push_back(ChatMessage { id, role, content });
        while self.chat_history.len() > CHAT_HISTORY_MAX
            invariant
                full.len() >= self.chat_history@.len(),
                self.chat_history@ == full.skip(full.len() - self.chat_history@.len()),
                self.chat_history@.len() >= if full.len() > CHAT_HISTORY_MAX {
                    CHAT_HISTORY_MAX as nat
                } else {
                    full.len()
                },
                *self == (App { chat_history: self.chat_history, ..*old(self) }),
            decreases self.chat_history@.len(),
        {
            let _ = self.chat_history.pop_front();
            assert(full.skip(full.len() - (self.chat_history@.len() + 1)).subrange(
                1,
                self.chat_history@.len() as int + 1,
            ) =~= full.skip(full.len() - self.chat_history@.len()));
        }
        proof {
            let mv = messages_view(old(self).chat_history@).push((id, role@, content@));
            assert(messages_view(full) =~= mv);
            assert(keep_last(full, CHAT_HISTORY_MAX as nat) =~= self.chat_history@) by {
                if full.len() <= CHAT_HISTORY_MAX {
                    assert(full.skip(0) =~= full);
                }
            };
            assert(messages_view(keep_last(full, CHAT_HISTORY_MAX as nat)) =~= keep_last(
                mv,
                CHAT_HISTORY_MAX as nat,
            ));
        }
    }

    /// Appends a message that is not a placeholder.
    pub fn push_chat(&mut self, role: String, content: String)
        ensures
            *final(self) == (App { chat_history: final(self).chat_history, ..*old(self) }),
            messages_view(final(self).chat_history@) == keep_last(
                messages_view(old(self).chat_history@).push((None, role@, content@)),
                CHAT_HISTORY_MAX as nat,
            ),
    {
        self.push_chat_with_id(None, role, content);
    }

    /// Fills in the newest placeholder with id `id` (it stops being a
    /// placeholder); without such a placeholder the reply is appended.
    pub fn replace_chat_by_id(&mut self, id: u64, role: String, content: String)
        ensures
            *final(self) == (App { chat_history: final(self).chat_history, ..*old(self) }),
            replaced(
                messages_view(old(self).chat_history@),
                id,
                (None, role@, content@),
                messages_view(final(self).chat_history@),
            ),
    {
        let ghost h = messages_view(old(self).chat_history@);
        match last_placeholder(&self.chat_history, id) {
            None => {
                self.push_chat(role, content);
            },
            Some(k) => {
                let _ = self.chat_history.remove(k);
                self.chat_history.insert(k, ChatMessage { id: None, role, content });
                proof {
                    let hn = messages_view(self.chat_history@);
                    assert(hn =~= h.update(k as int, (None, role@, content@)));
                    assert(0 <= k < h.len() && h[k as int].0 == Some(id) && (forall|j: int|
                        k < j < h.len() ==> h[j].0 != Some(id)) && hn == h.update(
                        k as int,
                        (None, role@, content@),
                    ));
                }
            },
        }
    }

    /// The chat address next to the state address: `/state` at the end is
    /// replaced by `/chat`, otherwise `/chat` follows the address without
    /// its trailing slashes.
    pub fn chat_endpoint(&self) -> (r: String)
        ensures
            r@ == sibling_endpoint(self.endpoint@, "/chat"@),
    {
        sibling(self.endpoint.as_str(), "/chat")
    }

    /// The models address next to the state address (as `chat_endpoint`).
    pub fn models_endpoint(&self) -> (r: String)
        ensures
            r@ == sibling_endpoint(self.endpoint@, "/models"@),
    {
        sibling(self.endpoint.as_str(), "/models")
    }

    /// The model chat prompts go to: the selected one, else the first
    /// model the agent reports running.
    pub fn effective_model(&self) -> (r: Option<String>)
        ensures
            opt_view(r) == effective_model_spec(*self),
            self.selected_model matches Some(m) ==> opt_view(r) == Some(m@),
            self.selected_model is None ==> opt_view(r) == match self.llm {
                Some(l) => if l.running_models@.len() > 0 {
                    Some(l.running_models@[0]@)
                } else {
                    None
                },
                None => None,
            },
    {
        match &self.selected_model {
            Some(m) => Some(m.clone()),
            None => match &self.llm {
                Some(l) => if l.running_models.len() > 0 {
                    Some(l.running_models[0].clone())
                } else {
                    None
                },
                None => None,
            },
        }
    }

    /// Shows `text` as the status line from time `now_ns` on.
    pub fn set_status_message(&mut self, text: String, now_ns: u128)
        ensures
            *final(self) == (App { status_msg: Some(StatusMessage { text, at_ns: now_ns }), ..*old(self) }),
    {
        self.status_msg = Some(StatusMessage { text, at_ns: now_ns });
    }

    /// The status line, while it is at most five seconds old at `now_ns`.
    pub fn visible_status_message(&self, now_ns: u128) -> (r: Option<&String>)
        ensures
            match self.status_msg {
                Some(m) => if sat_sub(now_ns, m.at_ns) <= STATUS_MSG_TTL_NS {
                    r == Some(&m.text)
                } else {
                    r is None
                },
                None => r is None,
            },
    {
        match &self.status_msg {
            Some(m) => if now_ns.saturating_sub(m.at_ns) <= STATUS_MSG_TTL_NS {
                Some(&m.text)
            } else {
                None
            },
            None => None,
        }
    }

    /// The position of a screen in the navigator.
    pub fn screen_index(screen: Screen) -> (r: usize)
        ensures
            r == screen_index_spec(screen),
    {
        match screen {
            Screen::Dashboard => 0,
            Screen::Customize => 1,
        }
    }

    /// The screen at a navigator position (the Dashboard for any other).
    pub fn screen_from_index(idx: usize) -> (r: Screen)
        ensures
            r == screen_from_index_spec(idx),
    {
        if idx == 1 {
            Screen::Customize
        } else {
            Screen::Dashboard
        }
    }

    /// The title of a screen.
    pub fn screen_name(screen: Screen) -> (r: &'static str)
        ensures
            r@ == match screen {
                Screen::Dashboard => "Dashboard"@,
                Screen::Customize => "Customize"@,
            },
    {
        match screen {
            Screen::Dashboard => "Dashboard",
            Screen::Customize => "Customize",
        }
    }

    /// The screens, in navigator order.
    pub fn screens() -> (r: [Screen; 2])
        ensures
            r@ == seq![Screen::Dashboard, Screen::Customize],
    {
        let r = [Screen::Dashboard, Screen::Customize];
        assert(r@ =~= seq![Screen::Dashboard, Screen::Customize]);
        r
    }

    /// The sections of the Customize screen, in order.
    pub fn customize_sections() -> (r: [CustomizeSection; 3])
        ensures
            r@ == seq![CustomizeSection::Global, CustomizeSection::Dashboard, CustomizeSection::Themes],
    {
        let r = [CustomizeSection::Global, CustomizeSection::Dashboard, CustomizeSection::Themes];
        assert(r@ =~= seq![CustomizeSection::Global, CustomizeSection::Dashboard, CustomizeSection::Themes]);
        r
    }

    /// The options of the Global section.
    pub fn global_options() -> (r: [GlobalOption; 1])
        ensures
            r@ == seq![GlobalOption::Theme],
    {
        let r = [GlobalOption::Theme];
        assert(r@ =~= seq![GlobalOption::Theme]);
        r
    }

    /// The options of the Dashboard section, in order.
    pub fn dashboard_options() -> (r: [DashboardOption; 10])
        ensures
            r@ == dashboard_options_seq(),
    {
        let r = [
            DashboardOption::AssistantName,
            DashboardOption::AssistantColor,
            DashboardOption::UserName,
            DashboardOption::UserColor,
            DashboardOption::LayoutPreset,
            DashboardOption::ShowStatus,
            DashboardOption::ShowSystem,
            DashboardOption::ShowProcesses,
            DashboardOption::ShowEvents,
            DashboardOption::ShowFlow,
        ];
        assert(r@ =~= dashboard_options_seq());
        r
    }

    /// The options of the New Themes section, in order.
    pub fn themes_options(&self) -> (r: Vec<ThemesOption>)
        ensures
            r@ == themes_options_seq(),
    {
        let mut out: Vec<ThemesOption> = Vec::new();
        out.push(ThemesOption::ColorPick(ThemeColorField::MainText));
        out.push(ThemesOption::ColorPick(ThemeColorField::SecondaryText));
        out.push(ThemesOption::ColorPick(ThemeColorField::Border));
        out.push(ThemesOption::ColorPick(ThemeColorField::SectionTitle));
        out.push(ThemesOption::ColorPick(ThemeColorField::Focus));
        out.push(ThemesOption::ColorPick(ThemeColorField::Title));
        out.push(ThemesOption::NewThemeName);
        out.push(ThemesOption::SaveNewTheme);
        assert(out@ =~= themes_options_seq());
        out
    }

    /// The selected section (the last one for larger indices).
    pub fn active_customize_section(&self) -> (r: CustomizeSection)
        ensures
            r == active_section_spec(*self),
    {
        let sections = Self::customize_sections();
        let i = if self.customize_section_idx < 2 {
            self.customize_section_idx
        } else {
            2
        };
        sections[i]
    }

    /// The selected Global option.
    pub fn active_global_option(&self) -> (r: GlobalOption)
        ensures
            r == GlobalOption::Theme,
    {
        GlobalOption::Theme
    }

    /// The selected Dashboard option (the last one for larger indices).
    pub fn active_dashboard_option(&self) -> (r: DashboardOption)
        ensures
            r == active_dashboard_option_spec(*self),
    {
        let options = Self::dashboard_options();
        let i = if self.dashboard_option_idx < 9 {
            self.dashboard_option_idx
        } else {
            9
        };
        options[i]
    }

    /// The selected New Themes option (the last one for larger indices).
    pub fn active_themes_option(&self) -> (r: ThemesOption)
        ensures
            r == active_themes_option_spec(*self),
    {
        let options = self.themes_options();
        let i = if self.themes_option_idx < 7 {
            self.themes_option_idx
        } else {
            7
        };
        options[i]
    }
}

fn last_placeholder(history: &VecDeque<ChatMessage>, id: u64) -> (r: Option<usize>)
    ensures
        match r {
            Some(k) => k < history@.len() && history@[k as int].id == Some(id) && forall|j: int|
                k < j < history@.len() ==> history@[j].id != Some(id),
            None => forall|j: int| 0 <= j < history@.len() ==> history@[j].id != Some(id),
        },
{
    let mut k: usize = history.len();
    while k > 0 && history[k - 1].id != Some(id)
        invariant
            k <= history@.len(),
            forall|j: int| k <= j < history@.len() ==> history@[j].id != Some(id),
        decreases k,
    {
        k -= 1;
    }
    if k == 0 {
        None
    } else {
        Some(k - 1)
    }
}

/// `hn` is the history `h` after the reply `m` for placeholder `id`: the
/// newest message with that id becomes `m`; without one, `m` is appended
/// (dropping the oldest beyond `CHAT_HISTORY_MAX`).
pub open spec fn replaced(
    h: Seq<(Option<u64>, Seq<char>, Seq<char>)>,
    id: u64,
    m: (Option<u64>, Seq<char>, Seq<char>),
    hn: Seq<(Option<u64>, Seq<char>, Seq<char>)>,
) -> bool {
    ||| exists|k: int|
        0 <= k < h.len() && h[k].0 == Some(id) && (forall|j: int| k < j < h.len() ==> h[j].0 != Some(id))
            && hn == h.update(k, m)
    ||| (forall|j: int| 0 <= j < h.len() ==> h[j].0 != Some(id)) && hn == keep_last(
        h.push(m),
        CHAT_HISTORY_MAX as nat,
    )
}

/// `a - b`, or 0 when `b` is larger.
pub open spec fn sat_sub(a: u128, b: u128) -> u128 {
    if a >= b {
        (a - b) as u128
    } else {
        0
    }
}

/// `s` with every trailing `/` removed (`str::trim_end_matches('/')`).
pub open spec fn trim_slashes(s: Seq<char>) -> Seq<char>
    decreases s.len(),
{
    if s.len() > 0 && s.last() == '/' {
        trim_slashes(s.drop_last())
    } else {
        s
    }
}

/// An address next to `endpoint`: a `/state` suffix is replaced by
/// `leaf`, otherwise `leaf` follows the address without trailing slashes.
pub open spec fn sibling_endpoint(endpoint: Seq<char>, leaf: Seq<char>) -> Seq<char> {
    if endpoint.len() >= 6 && endpoint.skip(endpoint.len() - 6) == "/state"@ {
        endpoint.take(endpoint.len() - 6) + leaf
    } else {
        trim_slashes(endpoint) + leaf
    }
}

pub(crate) fn sibling(endpoint: &str, leaf: &str) -> (r: String)
    ensures
        r@ == sibling_endpoint(endpoint@, leaf@),
{
    let v = chars_of(endpoint);
    let n = v.len();
    proof {
        reveal_strlit("/state");
    }
    if n >= 6 && v[n - 6] == '/' && v[n - 5] == 's' && v[n - 4] == 't' && v[n - 3] == 'a' && v[n
        - 2] == 't' && v[n - 1] == 'e' {
        assert(v@.skip(n - 6) =~= "/state"@);
        let head = slice_chars(&v, 0, n - 6);
        let h = string_from_chars(&head);
        return concat(h.as_str(), leaf);
    }
    assert(!(v@.len() >= 6 && v@.skip(n - 6) == "/state"@)) by {
        if v@.len() >= 6 && v@.skip(n - 6) == "/state"@ {
            assert(v@.skip(n - 6)[0] == '/');
            assert(v@.skip(n - 6)[1] == 's');
            assert(v@.skip(n - 6)[2] == 't');
            assert(v@.skip(n - 6)[3] == 'a');
            assert(v@.skip(n - 6)[4] == 't');
            assert(v@.skip(n - 6)[5] == 'e');
        }
    };
    let mut k = n;
    assert(v@.take(n as int) =~= v@);
    while k > 0 && v[k - 1] == '/'
        invariant
            k <= n,
            n == v@.len(),
            trim_slashes(v@) == trim_slashes(v@.take(k as int)),
        decreases k,
    {
        assert(v@.take(k as int).drop_last() =~= v@.take(k - 1));
        k -= 1;
    }
    assert(v@.take(n as int) =~= v@);
    let head = slice_chars(&v, 0, k);
    assert(head@ =~= v@.take(k as int));
    let h = string_from_chars(&head);
    concat(h.as_str(), leaf)
}

/// The model chat prompts go to (see `App::effective_model`).
pub open spec fn effective_model_spec(app: App) -> Option<Seq<char>> {
    match app.selected_model {
        Some(m) => Some(m@),
        None => match app.llm {
            Some(l) => if l.running_models@.len() > 0 {
                Some(l.running_models@[0]@)
            } else {
                None
            },
            None => None,
        },
    }
}

/// The position of a screen in the navigator.
pub open spec fn screen_index_spec(screen: Screen) -> usize {
    match screen {
        Screen::Dashboard => 0,
        Screen::Customize => 1,
    }
}

/// The screen at a navigator position.
pub open spec fn screen_from_index_spec(idx: usize) -> Screen {
    if idx == 1 {
        Screen::Customize
    } else {
        Screen::Dashboard
    }
}

/// The Dashboard section's options, in order.
pub open spec fn dashboard_options_seq() -> Seq<DashboardOption> {
    seq![
        DashboardOption::AssistantName,
        DashboardOption::AssistantColor,
        DashboardOption::UserName,
        DashboardOption::UserColor,
        DashboardOption::LayoutPreset,
        DashboardOption::ShowStatus,
        DashboardOption::ShowSystem,
        DashboardOption::ShowProcesses,
        DashboardOption::ShowEvents,
        DashboardOption::ShowFlow,
    ]
}

/// The New Themes section's options, in order.
pub open spec fn themes_options_seq() -> Seq<ThemesOption> {
    seq![
        ThemesOption::ColorPick(ThemeColorField::MainText),
        ThemesOption::ColorPick(ThemeColorField::SecondaryText),
        ThemesOption::ColorPick(ThemeColorField::Border),
        ThemesOption::ColorPick(ThemeColorField::SectionTitle),
        ThemesOption::ColorPick(ThemeColorField::Focus),
        ThemesOption::ColorPick(ThemeColorField::Title),
        ThemesOption::NewThemeName,
        ThemesOption::SaveNewTheme,
    ]
}

/// The selected section.
pub open spec fn active_section_spec(app: App) -> CustomizeSection {
    if app.customize_section_idx == 0 {
        CustomizeSection::Global
    } else if app.customize_section_idx == 1 {
        CustomizeSection::Dashboard
    } else {
        CustomizeSection::Themes
    }
}

/// The selected Dashboard option.
pub open spec fn active_dashboard_option_spec(app: App) -> DashboardOption {
    dashboard_options_seq()[if app.dashboard_option_idx < 9 {
        app.dashboard_option_idx as int
    } else {
        9
    }]
}

/// The selected New Themes option.
pub open spec fn active_themes_option_spec(app: App) -> ThemesOption {
    themes_options_seq()[if app.themes_option_idx < 7 {
        app.themes_option_idx as int
    } else {
        7
    }]
}

} // verus!
