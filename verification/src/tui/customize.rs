//! The Customize screen: moving between options, changing, resetting and
//! editing them, and saving new themes.

use vstd::prelude::*;
use crate::text::{owned, pop_char, pop_seq, string_push, trim, trim_is_empty, trim_seq, views};
use crate::tui::app::{App, AppAction, CustomizeSection, CustomizeTextTarget, DashboardOption, KeyCode, KeyInput, ThemesOption, active_dashboard_option_spec, active_section_spec, active_themes_option_spec};
use crate::tui::config::{AppConfig, DashboardConfig, GlobalConfig, available_theme_names, theme_names_seq, lemma_extra_names_len};
use crate::tui::keys::open_picker_post;
use crate::tui::names::{DashboardLayoutPreset, color_names_seq, cycle, match_index, rotate_color_name, rotate_layout, rotate_name_owned, rotated_name, same_name, same_name_ignore_case, step_index, step_spec, lemma_match_index_bound};
use crate::tui::theme::{default_palette_colors, field_index, palette_colors, palette_view, table_insert_post};

verus! {

/// The theme `delta` steps from the active one among the themes one can
/// choose.
#[verifier::opaque]
pub open spec fn rotated_theme(o: App, delta: int) -> Seq<char> {
    rotated_name(theme_names_seq(o.config), o.config.global.theme@, delta)
}

/// The colour name `delta` steps from `current`.
#[verifier::opaque]
pub open spec fn rotated_color(current: Seq<char>, delta: int) -> Seq<char> {
    color_names_seq()[cycle(
        match_index(color_names_seq(), current, |a: Seq<char>, b: Seq<char>| same_name_ignore_case(a, b)),
        delta,
        14,
    )]
}

/// The layout `delta` steps from `current`.
pub open spec fn rotated_layout(current: DashboardLayoutPreset, delta: int) -> DashboardLayoutPreset {
    if step_spec(
        if current == DashboardLayoutPreset::ThreeTopTwoBottom {
            0
        } else {
            1
        },
        1,
        delta,
    ) == 0 {
        DashboardLayoutPreset::ThreeTopTwoBottom
    } else {
        DashboardLayoutPreset::LlmColumn
    }
}

/// The `[dashboard]` section `nd` after changing option `opt` of `d` by
/// `delta`: colours cycle, the layout steps, switches toggle; the labels are
/// not changed this way.
pub open spec fn dashboard_adjusted(
    d: DashboardConfig,
    opt: DashboardOption,
    delta: int,
    nd: DashboardConfig,
) -> bool {
    match opt {
        DashboardOption::AssistantColor => nd == (DashboardConfig {
            assistant_color: nd.assistant_color,
            ..d
        }) && nd.assistant_color@ == rotated_color(d.assistant_color@, delta),
        DashboardOption::UserColor => nd == (DashboardConfig { user_color: nd.user_color, ..d })
            && nd.user_color@ == rotated_color(d.user_color@, delta),
        DashboardOption::LayoutPreset => nd == (DashboardConfig {
            layout_preset: rotated_layout(d.layout_preset, delta),
            ..d
        }),
        DashboardOption::ShowStatus => nd == (DashboardConfig { show_status: !d.show_status, ..d }),
        DashboardOption::ShowSystem => nd == (DashboardConfig { show_system: !d.show_system, ..d }),
        DashboardOption::ShowProcesses => nd == (DashboardConfig {
            show_processes: !d.show_processes,
            ..d
        }),
        DashboardOption::ShowEvents => nd == (DashboardConfig { show_events: !d.show_events, ..d }),
        DashboardOption::ShowFlow => nd == (DashboardConfig { show_flow: !d.show_flow, ..d }),
        DashboardOption::AssistantName | DashboardOption::UserName => nd == d,
    }
}

/// The `[dashboard]` section `nd` after resetting option `opt` of `d` to its
/// default: labels "assistant" and "you", colours "cyan" and "green", the
/// three-over-two layout, every panel shown.
pub open spec fn dashboard_reset(d: DashboardConfig, opt: DashboardOption, nd: DashboardConfig) -> bool {
    match opt {
        DashboardOption::AssistantName => nd == (DashboardConfig {
            assistant_name: nd.assistant_name,
            ..d
        }) && nd.assistant_name@ == "assistant"@,
        DashboardOption::AssistantColor => nd == (DashboardConfig {
            assistant_color: nd.assistant_color,
            ..d
        }) && nd.assistant_color@ == "cyan"@,
        DashboardOption::UserName => nd == (DashboardConfig { user_name: nd.user_name, ..d })
            && nd.user_name@ == "you"@,
        DashboardOption::UserColor => nd == (DashboardConfig { user_color: nd.user_color, ..d })
            && nd.user_color@ == "green"@,
        DashboardOption::LayoutPreset => nd == (DashboardConfig {
            layout_preset: DashboardLayoutPreset::ThreeTopTwoBottom,
            ..d
        }),
        DashboardOption::ShowStatus => nd == (DashboardConfig { show_status: true, ..d }),
        DashboardOption::ShowSystem => nd == (DashboardConfig { show_system: true, ..d }),
        DashboardOption::ShowProcesses => nd == (DashboardConfig { show_processes: true, ..d }),
        DashboardOption::ShowEvents => nd == (DashboardConfig { show_events: true, ..d }),
        DashboardOption::ShowFlow => nd == (DashboardConfig { show_flow: true, ..d }),
    }
}

/// The position of a layout among the layouts.
pub open spec fn layout_index(l: DashboardLayoutPreset) -> int {
    if l == DashboardLayoutPreset::ThreeTopTwoBottom {
        0
    } else {
        1
    }
}

/// Stepping option `opt` of `d` by `delta` keeps the position arithmetic
/// (done in `i32`) within range: the position of the colour or layout plus
/// `delta` is at most `i32::MAX`; switches and labels take any `delta`.
pub open spec fn dashboard_step_fits(d: DashboardConfig, opt: DashboardOption, delta: int) -> bool {
    match opt {
        DashboardOption::AssistantColor => match_index(
            color_names_seq(),
            d.assistant_color@,
            |a: Seq<char>, b: Seq<char>| same_name_ignore_case(a, b),
        ) + delta <= i32::MAX,
        DashboardOption::UserColor => match_index(
            color_names_seq(),
            d.user_color@,
            |a: Seq<char>, b: Seq<char>| same_name_ignore_case(a, b),
        ) + delta <= i32::MAX,
        DashboardOption::LayoutPreset => layout_index(d.layout_preset) + delta <= i32::MAX,
        _ => true,
    }
}

/// Stepping the selected value of `o` by `delta` keeps the position
/// arithmetic within `i32` (see `dashboard_step_fits`; for the theme, its
/// position among the themes plus `delta` is at most `i32::MAX`).
pub open spec fn adjust_fits(o: App, delta: int) -> bool {
    match active_section_spec(o) {
        CustomizeSection::Global => match_index(
            theme_names_seq(o.config),
            o.config.global.theme@,
            |a: Seq<char>, b: Seq<char>| same_name(a, b),
        ) + delta <= i32::MAX,
        CustomizeSection::Dashboard => dashboard_step_fits(
            o.config.dashboard,
            active_dashboard_option_spec(o),
            delta,
        ),
        CustomizeSection::Themes => true,
    }
}

/// A step of one either way always fits (see `adjust_fits`).
proof fn lemma_unit_step_fits(o: App)
    requires
        o.themes_steppable(),
    ensures
        adjust_fits(o, 1),
        adjust_fits(o, -1),
{
    lemma_extra_names_len(o.config.themes.names(), crate::tui::theme::builtin_names_seq());
    lemma_match_index_bound(
        theme_names_seq(o.config),
        o.config.global.theme@,
        |a: Seq<char>, b: Seq<char>| same_name(a, b),
    );
    lemma_match_index_bound(
        color_names_seq(),
        o.config.dashboard.assistant_color@,
        |a: Seq<char>, b: Seq<char>| same_name_ignore_case(a, b),
    );
    lemma_match_index_bound(
        color_names_seq(),
        o.config.dashboard.user_color@,
        |a: Seq<char>, b: Seq<char>| same_name_ignore_case(a, b),
    );
}

/// Changes option `opt` of the `[dashboard]` section by `delta` (see
/// `dashboard_adjusted`).
pub fn adjust_dashboard(d: &mut DashboardConfig, opt: DashboardOption, delta: i32)
    requires
        dashboard_step_fits(*old(d), opt, delta as int),
    ensures
        dashboard_adjusted(*old(d), opt, delta as int, *final(d)),
{
    proof {
        reveal(rotated_color);
        lemma_match_index_bound(
            color_names_seq(),
            d.assistant_color@,
            |a: Seq<char>, b: Seq<char>| same_name_ignore_case(a, b),
        );
        lemma_match_index_bound(
            color_names_seq(),
            d.user_color@,
            |a: Seq<char>, b: Seq<char>| same_name_ignore_case(a, b),
        );
    }
    match opt {
        DashboardOption::AssistantColor => {
            d.assistant_color = rotate_color_name(d.assistant_color.as_str(), delta);
        },
        DashboardOption::UserColor => {
            d.user_color = rotate_color_name(d.user_color.as_str(), delta);
        },
        DashboardOption::LayoutPreset => {
            d.layout_preset = rotate_layout(d.layout_preset, delta);
        },
        DashboardOption::ShowStatus => d.show_status = !d.show_status,
        DashboardOption::ShowSystem => d.show_system = !d.show_system,
        DashboardOption::ShowProcesses => d.show_processes = !d.show_processes,
        DashboardOption::ShowEvents => d.show_events = !d.show_events,
        DashboardOption::ShowFlow => d.show_flow = !d.show_flow,
        DashboardOption::AssistantName | DashboardOption::UserName => {},
    }
}

/// Resets option `opt` of the `[dashboard]` section (see `dashboard_reset`).
pub fn reset_dashboard(d: &mut DashboardConfig, opt: DashboardOption)
    ensures
        dashboard_reset(*old(d), opt, *final(d)),
{
    match opt {
        DashboardOption::AssistantName => d.assistant_name = owned("assistant"),
        DashboardOption::AssistantColor => d.assistant_color = owned("cyan"),
        DashboardOption::UserName => d.user_name = owned("you"),
        DashboardOption::UserColor => d.user_color = owned("green"),
        DashboardOption::LayoutPreset => d.layout_preset = DashboardLayoutPreset::ThreeTopTwoBottom,
        DashboardOption::ShowStatus => d.show_status = true,
        DashboardOption::ShowSystem => d.show_system = true,
        DashboardOption::ShowProcesses => d.show_processes = true,
        DashboardOption::ShowEvents => d.show_events = true,
        DashboardOption::ShowFlow => d.show_flow = true,
    }
}

/// Sets the assistant's label (`assistant` true) or the user's.
fn set_label(d: &mut DashboardConfig, assistant: bool, label: String)
    ensures
        assistant ==> *final(d) == (DashboardConfig { assistant_name: label, ..*old(d) }),
        !assistant ==> *final(d) == (DashboardConfig { user_name: label, ..*old(d) }),
{
    if assistant {
        d.assistant_name = label;
    } else {
        d.user_name = label;
    }
}

/// `n` differs from `o` only in its configuration's `[dashboard]` section,
/// which is `d`, and in being marked changed.
pub open spec fn dashboard_edit(o: App, n: App, d: DashboardConfig) -> bool {
    &&& n == (App { config: n.config, config_dirty: true, ..o })
    &&& n.config == (AppConfig { dashboard: d, ..o.config })
}

/// Moving the selection in the active section by `delta`, within its
/// options.
pub open spec fn move_post(o: App, delta: int, n: App) -> bool {
    match active_section_spec(o) {
        CustomizeSection::Global => n == (App {
            global_option_idx: step_spec(o.global_option_idx as int, 0, delta) as usize,
            ..o
        }),
        CustomizeSection::Dashboard => n == (App {
            dashboard_option_idx: step_spec(o.dashboard_option_idx as int, 9, delta) as usize,
            ..o
        }),
        CustomizeSection::Themes => n == (App {
            themes_option_idx: step_spec(o.themes_option_idx as int, 7, delta) as usize,
            ..o
        }),
    }
}

/// Changing the selected value by `delta`: the theme and the colours cycle,
/// the layout steps, the switches toggle (all marking the configuration
/// changed); names and the New Themes options do not change this way.
pub open spec fn adjust_post(o: App, delta: int, n: App) -> bool {
    match active_section_spec(o) {
        CustomizeSection::Global => {
            &&& n == (App { config: n.config, config_dirty: true, ..o })
            &&& n.config == (AppConfig {
                global: GlobalConfig { theme: n.config.global.theme, ..o.config.global },
                ..o.config
            })
            &&& n.config.global.theme@ == rotated_theme(o, delta)
        },
        CustomizeSection::Dashboard => match active_dashboard_option_spec(o) {
            DashboardOption::AssistantName | DashboardOption::UserName => n == o,
            opt => dashboard_edit(o, n, n.config.dashboard) && dashboard_adjusted(
                o.config.dashboard,
                opt,
                delta,
                n.config.dashboard,
            ),
        },
        CustomizeSection::Themes => n == o,
    }
}

/// Resetting the selected option to its default (the configuration is
/// then marked changed in every case): the theme to "default", a dashboard
/// value to its default, the new theme's name to empty, a draft colour to
/// the default theme's colour.
pub open spec fn reset_post(o: App, n: App) -> bool {
    match active_section_spec(o) {
        CustomizeSection::Global => {
            &&& n == (App { config: n.config, config_dirty: true, ..o })
            &&& n.config == (AppConfig {
                global: GlobalConfig { theme: n.config.global.theme, ..o.config.global },
                ..o.config
            })
            &&& n.config.global.theme@ == "default"@
        },
        CustomizeSection::Dashboard => dashboard_edit(o, n, n.config.dashboard) && dashboard_reset(
            o.config.dashboard,
            active_dashboard_option_spec(o),
            n.config.dashboard,
        ),
        CustomizeSection::Themes => match active_themes_option_spec(o) {
            ThemesOption::NewThemeName => n == (App {
                theme_new_name: n.theme_new_name,
                config_dirty: true,
                ..o
            }) && n.theme_new_name@.len() == 0,
            ThemesOption::SaveNewTheme => n == (App { config_dirty: true, ..o }),
            ThemesOption::ColorPick(f) => {
                &&& n == (App { theme_draft: n.theme_draft, config_dirty: true, ..o })
                &&& palette_colors(n.theme_draft) == palette_colors(o.theme_draft).update(
                    field_index(f),
                    default_palette_colors()[field_index(f)],
                )
                &&& n.theme_draft.extra == o.theme_draft.extra
            },
        },
    }
}

/// The status line `text`, set at `now`.
pub open spec fn status_is(n: App, text: Seq<char>, now: u128) -> bool {
    n.status_msg matches Some(m) && m.text@ == text && m.at_ns == now
}

/// Saving the draft theme under the trimmed new name: refused with a
/// status line when the name is blank; otherwise stored in the theme table
/// (marking the configuration changed) with the status "updated theme" or
/// "created theme".
pub open spec fn save_theme_post(o: App, now: u128, n: App) -> bool {
    let name = trim_seq(o.theme_new_name@);
    if name.len() == 0 {
        n == (App { status_msg: n.status_msg, ..o }) && status_is(n, "set new theme name first"@, now)
    } else {
        &&& n == (App { config: n.config, config_dirty: true, status_msg: n.status_msg, ..o })
        &&& n.config == (AppConfig { themes: n.config.themes, ..o.config })
        &&& n.config.themes.wf()
        &&& table_insert_post(
            o.config.themes.view_seq(),
            name,
            palette_view(o.theme_draft),
            n.config.themes.view_seq(),
        )
        &&& status_is(
            n,
            if o.config.themes.names().contains(name) {
                "updated theme"@
            } else {
                "created theme"@
            },
            now,
        )
    }
}

/// Starting the inline editor on `target` with the text `text`.
pub open spec fn start_edit_post(o: App, target: CustomizeTextTarget, text: Seq<char>, n: App) -> bool {
    &&& n == (App {
        customize_text_mode: true,
        customize_text_target: Some(target),
        customize_text_buffer: n.customize_text_buffer,
        ..o
    })
    &&& n.customize_text_buffer@ == text
}

/// Enter on the selected option: the theme cycles forward, names open the
/// inline editor, other dashboard values change as with Right, the New
/// Themes options edit the name, save the theme or open the colour picker.
pub open spec fn enter_post(o: App, now: u128, n: App) -> bool {
    match active_section_spec(o) {
        CustomizeSection::Global => adjust_post(o, 1, n),
        CustomizeSection::Dashboard => match active_dashboard_option_spec(o) {
            DashboardOption::AssistantName => start_edit_post(
                o,
                CustomizeTextTarget::DashboardAssistantName,
                o.config.dashboard.assistant_name@,
                n,
            ),
            DashboardOption::UserName => start_edit_post(
                o,
                CustomizeTextTarget::DashboardUserName,
                o.config.dashboard.user_name@,
                n,
            ),
            _ => adjust_post(o, 1, n),
        },
        CustomizeSection::Themes => match active_themes_option_spec(o) {
            ThemesOption::NewThemeName => start_edit_post(
                o,
                CustomizeTextTarget::ThemeNewName,
                o.theme_new_name@,
                n,
            ),
            ThemesOption::SaveNewTheme => save_theme_post(o, now, n),
            ThemesOption::ColorPick(f) => open_picker_post(o, f, n),
        },
    }
}

/// Applying an edited value `v` (already trimmed): nothing when blank;
/// otherwise it becomes the assistant's or user's label (marking the
/// configuration changed) or the new theme's name.
pub open spec fn apply_text_post(o: App, v: Seq<char>, n: App) -> bool {
    if v.len() == 0 {
        n == o
    } else {
        match o.customize_text_target {
            Some(CustomizeTextTarget::DashboardAssistantName) => dashboard_edit(
                o,
                n,
                DashboardConfig { assistant_name: n.config.dashboard.assistant_name, ..o.config.dashboard },
            ) && n.config.dashboard.assistant_name@ == v,
            Some(CustomizeTextTarget::DashboardUserName) => dashboard_edit(
                o,
                n,
                DashboardConfig { user_name: n.config.dashboard.user_name, ..o.config.dashboard },
            ) && n.config.dashboard.user_name@ == v,
            Some(CustomizeTextTarget::ThemeNewName) => n == (App {
                theme_new_name: n.theme_new_name,
                ..o
            }) && n.theme_new_name@ == v,
            None => n == o,
        }
    }
}

/// The effect of a key in the inline editor: Esc cancels, Backspace deletes
/// the last character, Enter applies the trimmed text and closes the
/// editor, a character typed without Control is appended.
pub open spec fn text_mode_post(o: App, k: KeyInput, n: App, r: AppAction) -> bool {
    &&& r is Nothing
    &&& match k.code {
        KeyCode::Esc => n == (App {
            customize_text_mode: false,
            customize_text_buffer: n.customize_text_buffer,
            customize_text_target: None,
            ..o
        }) && n.customize_text_buffer@.len() == 0,
        KeyCode::Backspace => n == (App { customize_text_buffer: n.customize_text_buffer, ..o })
            && n.customize_text_buffer@ == pop_seq(o.customize_text_buffer@),
        KeyCode::Enter => exists|m: App| {
            &&& apply_text_post(o, trim_seq(o.customize_text_buffer@), m)
            &&& n == (App {
                customize_text_mode: false,
                customize_text_buffer: n.customize_text_buffer,
                customize_text_target: None,
                ..m
            })
            &&& n.customize_text_buffer@.len() == 0
        },
        KeyCode::Char(c) => if !k.ctrl {
            n == (App { customize_text_buffer: n.customize_text_buffer, ..o })
                && n.customize_text_buffer@ == o.customize_text_buffer@.push(c)
        } else {
            n == o
        },
        _ => n == o,
    }
}

/// The effect of a key on the Customize screen: `[` and `]` switch
/// section, Up/Down move the selection, Left/Right change the value, `t`
/// toggles the live preview of the draft theme (in the New Themes section),
/// `s` asks to save, `r` resets the selected option, Enter edits or
/// applies it.
pub open spec fn customize_post(o: App, k: KeyInput, now: u128, n: App, r: AppAction) -> bool {
    match k.code {
        KeyCode::Char(c) => if c == '[' {
            n == (App {
                customize_section_idx: if o.customize_section_idx > 0 {
                    (o.customize_section_idx - 1) as usize
                } else {
                    o.customize_section_idx
                },
                ..o
            }) && r is Nothing
        } else if c == ']' {
            n == (App {
                customize_section_idx: if o.customize_section_idx + 1 < 3 {
                    (o.customize_section_idx + 1) as usize
                } else {
                    o.customize_section_idx
                },
                ..o
            }) && r is Nothing
        } else if c == 't' {
            (if active_section_spec(o) == CustomizeSection::Themes {
                &&& n == (App {
                    theme_draft_live_preview: !o.theme_draft_live_preview,
                    status_msg: n.status_msg,
                    ..o
                })
                &&& status_is(
                    n,
                    if !o.theme_draft_live_preview {
                        "new theme live preview: on"@
                    } else {
                        "new theme live preview: off"@
                    },
                    now,
                )
            } else {
                n == o
            }) && r is Nothing
        } else if c == 's' {
            n == o && r is SaveConfig
        } else if c == 'r' {
            reset_post(o, n) && r is Nothing
        } else {
            n == o && r is Nothing
        },
        KeyCode::Up => move_post(o, -1, n) && r is Nothing,
        KeyCode::Down => move_post(o, 1, n) && r is Nothing,
        KeyCode::Left => adjust_post(o, -1, n) && r is Nothing,
        KeyCode::Right => adjust_post(o, 1, n) && r is Nothing,
        KeyCode::Enter => enter_post(o, now, n) && r is Nothing,
        _ => n == o && r is Nothing,
    }
}

impl App {
    /// The user's theme table is small enough to step through with `i32`
    /// offsets.
    pub open spec fn themes_steppable(&self) -> bool {
        self.config.themes.view_seq().len() + 4 < i32::MAX
    }

    /// The themes one can choose (see `theme_names_seq`).
    pub fn available_theme_names(&self) -> (r: Vec<String>)
        ensures
            views(r@) == theme_names_seq(self.config),
    {
        available_theme_names(&self.config)
    }

    /// Moves the selection in the active section by `delta` (the editor
    /// steps by one).
    pub fn move_customize_option(&mut self, delta: i32)
        requires
            -1 <= delta <= 1,
        ensures
            move_post(*old(self), delta as int, *final(self)),
    {
        match self.active_customize_section() {
            CustomizeSection::Global => {
                self.global_option_idx = step_index(self.global_option_idx, 0, delta);
            },
            CustomizeSection::Dashboard => {
                self.dashboard_option_idx = step_index(self.dashboard_option_idx, 9, delta);
            },
            CustomizeSection::Themes => {
                self.themes_option_idx = step_index(self.themes_option_idx, 7, delta);
            },
        }
    }

    fn rotate_theme(&mut self, delta: i32)
        requires
            match_index(
                theme_names_seq(old(self).config),
                old(self).config.global.theme@,
                |a: Seq<char>, b: Seq<char>| same_name(a, b),
            ) + delta <= i32::MAX,
            old(self).themes_steppable(),
        ensures
            final(self).config_dirty,
            *final(self) == (App { config: final(self).config, config_dirty: true, ..*old(self) }),
            final(self).config == (AppConfig {
                global: GlobalConfig { theme: final(self).config.global.theme, ..old(self).config.global },
                ..old(self).config
            }),
            final(self).config.global.theme@ == rotated_theme(*old(self), delta as int),
    {
        let names = self.available_theme_names();
        proof {
            reveal(rotated_theme);
            let ns = theme_names_seq(self.config);
            lemma_extra_names_len(self.config.themes.names(), crate::tui::theme::builtin_names_seq());
            lemma_match_index_bound(ns, self.config.global.theme@, |a: Seq<char>, b: Seq<char>| same_name(a, b));
        }
        let theme = rotate_name_owned(&names, self.config.global.theme.as_str(), delta);
        self.config.global.theme = theme;
        self.config_dirty = true;
    }

    /// Changes the selected value by `delta` (see `adjust_post`).
    pub fn adjust_selected_customize_value(&mut self, delta: i32)
        requires
            adjust_fits(*old(self), delta as int),
            active_section_spec(*old(self)) == CustomizeSection::Global ==> old(self).themes_steppable(),
        ensures
            adjust_post(*old(self), delta as int, *final(self)),
    {
        match self.active_customize_section() {
            CustomizeSection::Global => {
                self.rotate_theme(delta);
            },
            CustomizeSection::Dashboard => self.adjust_dashboard_value(delta),
            CustomizeSection::Themes => self.adjust_theme_option(delta),
        }
    }

    fn adjust_dashboard_value(&mut self, delta: i32)
        requires
            active_section_spec(*old(self)) == CustomizeSection::Dashboard,
            adjust_fits(*old(self), delta as int),
        ensures
            adjust_post(*old(self), delta as int, *final(self)),
    {
        let opt = self.active_dashboard_option();
        match opt {
            DashboardOption::AssistantName | DashboardOption::UserName => {},
            _ => {
                adjust_dashboard(&mut self.config.dashboard, opt, delta);
                self.config_dirty = true;
            },
        }
    }

    /// The New Themes options do not change with Left/Right.
    pub fn adjust_theme_option(&mut self, delta: i32)
        ensures
            *final(self) == *old(self),
    {
    }

    /// Resets the selected option (see `reset_post`).
    pub fn reset_selected_customize_option(&mut self)
        ensures
            reset_post(*old(self), *final(self)),
    {
        match self.active_customize_section() {
            CustomizeSection::Global => {
                self.config.global.theme = owned("default");
            },
            CustomizeSection::Dashboard => self.reset_dashboard_value(),
            CustomizeSection::Themes => self.reset_theme_option(),
        }
        self.config_dirty = true;
    }

    fn reset_dashboard_value(&mut self)
        requires
            active_section_spec(*old(self)) == CustomizeSection::Dashboard,
        ensures
            reset_post(*old(self), App { config_dirty: true, ..*final(self) }),
            *final(self) == (App { config: final(self).config, ..*old(self) }),
    {
        let opt = self.active_dashboard_option();
        reset_dashboard(&mut self.config.dashboard, opt);
    }

    /// Resets the selected New Themes option: the name to empty, a colour
    /// to the default theme's colour; the save option has nothing to reset.
    #[verifier::rlimit(60)]
    pub fn reset_theme_option(&mut self)
        ensures
            active_section_spec(*old(self)) == CustomizeSection::Themes ==> reset_post(
                *old(self),
                App { config_dirty: true, ..*final(self) },
            ),
            *final(self) == (App {
                theme_draft: final(self).theme_draft,
                theme_new_name: final(self).theme_new_name,
                ..*old(self)
            }),
    {
        match self.active_themes_option() {
            ThemesOption::NewThemeName => self.theme_new_name = String::new(),
            ThemesOption::SaveNewTheme => {},
            ThemesOption::ColorPick(field) => {
                let default_cfg = crate::tui::theme::ThemePaletteConfig::default();
                let c = crate::tui::theme::theme_color_from_field(&default_cfg, field);
                self.theme_color_for_editor_mut(field, c);
            },
        }
    }

    /// Edits or applies the selected option (see `enter_post`).
    pub fn enter_or_apply_selected_customize_option(&mut self, now_ns: u128)
        requires
            old(self).wf(),
            old(self).themes_steppable(),
        ensures
            enter_post(*old(self), now_ns, *final(self)),
    {
        proof {
            lemma_unit_step_fits(*old(self));
        }
        match self.active_customize_section() {
            CustomizeSection::Global => {
                self.rotate_theme(1);
            },
            CustomizeSection::Dashboard => match self.active_dashboard_option() {
                DashboardOption::AssistantName => {
                    self.customize_text_mode = true;
                    self.customize_text_target = Some(CustomizeTextTarget::DashboardAssistantName);
                    self.customize_text_buffer = self.config.dashboard.assistant_name.clone();
                },
                DashboardOption::UserName => {
                    self.customize_text_mode = true;
                    self.customize_text_target = Some(CustomizeTextTarget::DashboardUserName);
                    self.customize_text_buffer = self.config.dashboard.user_name.clone();
                },
                _ => self.adjust_dashboard_value(1),
            },
            CustomizeSection::Themes => self.enter_theme_option(now_ns),
        }
    }

    /// Enter in the New Themes section (see `enter_post`).
    pub fn enter_theme_option(&mut self, now_ns: u128)
        requires
            old(self).wf(),
            active_section_spec(*old(self)) == CustomizeSection::Themes,
        ensures
            enter_post(*old(self), now_ns, *final(self)),
    {
        match self.active_themes_option() {
            ThemesOption::NewThemeName => {
                self.customize_text_mode = true;
                self.customize_text_target = Some(CustomizeTextTarget::ThemeNewName);
                self.customize_text_buffer = self.theme_new_name.clone();
            },
            ThemesOption::SaveNewTheme => self.save_new_theme(now_ns),
            ThemesOption::ColorPick(field) => self.open_color_picker_for_field(field),
        }
    }

    fn save_new_theme(&mut self, now_ns: u128)
        requires
            old(self).wf(),
        ensures
            save_theme_post(*old(self), now_ns, *final(self)),
    {
        let name = trim(self.theme_new_name.as_str());
        if trim_is_empty(name.as_str()) {
            proof {
                crate::text::lemma_trim_idempotent(old(self).theme_new_name@);
            }
            self.set_status_message(owned("set new theme name first"), now_ns);
            return;
        }
        proof {
            crate::text::lemma_trim_idempotent(old(self).theme_new_name@);
        }
        let existed = self.config.themes.contains_key(name.as_str());
        let draft = self.theme_draft.clone();
        self.config.themes.insert(name, draft);
        self.config_dirty = true;
        if existed {
            self.set_status_message(owned("updated theme"), now_ns);
        } else {
            self.set_status_message(owned("created theme"), now_ns);
        }
    }

    /// Applies an edited value (see `apply_text_post`).
    #[verifier::rlimit(100)]
    pub fn apply_selected_text_value(&mut self, value: String)
        ensures
            apply_text_post(*old(self), value@, *final(self)),
    {
        if crate::text::is_empty_text(value.as_str()) {
            return;
        }
        match self.customize_text_target {
            Some(CustomizeTextTarget::DashboardAssistantName) => {
                set_label(&mut self.config.dashboard, true, value);
                self.config_dirty = true;
            },
            Some(CustomizeTextTarget::DashboardUserName) => {
                set_label(&mut self.config.dashboard, false, value);
                self.config_dirty = true;
            },
            Some(CustomizeTextTarget::ThemeNewName) => {
                self.theme_new_name = value;
            },
            None => {},
        }
    }

    /// Answers a key in the inline editor (see `text_mode_post`).
    #[verifier::rlimit(60)]
    pub fn on_key_customize_text_mode(&mut self, key: KeyInput) -> (r: AppAction)
        ensures
            text_mode_post(*old(self), key, *final(self), r),
    {
        match key.code {
            KeyCode::Esc => {
                self.customize_text_mode = false;
                self.customize_text_buffer = String::new();
                self.customize_text_target = None;
            },
            KeyCode::Backspace => {
                pop_char(&mut self.customize_text_buffer);
            },
            KeyCode::Enter => {
                let value = trim(self.customize_text_buffer.as_str());
                self.apply_selected_text_value(value);
                let ghost m = *self;
                self.customize_text_mode = false;
                self.customize_text_buffer = String::new();
                self.customize_text_target = None;
                assert(apply_text_post(*old(self), trim_seq(old(self).customize_text_buffer@), m));
            },
            KeyCode::Char(c) => {
                if !key.ctrl {
                    string_push(&mut self.customize_text_buffer, c);
                }
            },
            _ => {},
        }
        AppAction::Nothing
    }

    /// Selects the previous section, if any.
    pub fn prev_customize_section(&mut self)
        ensures
            *final(self) == (App {
                customize_section_idx: if old(self).customize_section_idx > 0 {
                    (old(self).customize_section_idx - 1) as usize
                } else {
                    old(self).customize_section_idx
                },
                ..*old(self)
            }),
    {
        if self.customize_section_idx > 0 {
            self.customize_section_idx -= 1;
        }
    }

    /// Selects the next section, if any.
    pub fn next_customize_section(&mut self)
        requires
            old(self).customize_section_idx < usize::MAX,
        ensures
            *final(self) == (App {
                customize_section_idx: if old(self).customize_section_idx + 1 < 3 {
                    (old(self).customize_section_idx + 1) as usize
                } else {
                    old(self).customize_section_idx
                },
                ..*old(self)
            }),
    {
        if self.customize_section_idx + 1 < Self::customize_sections().len() {
            self.customize_section_idx += 1;
        }
    }

    /// Answers a key on the Customize screen (see `customize_post`).
    pub fn on_key_customize(&mut self, key: KeyInput, now_ns: u128) -> (r: AppAction)
        requires
            old(self).wf(),
            old(self).themes_steppable(),
        ensures
            customize_post(*old(self), key, now_ns, *final(self), r),
    {
        proof {
            lemma_unit_step_fits(*old(self));
        }
        match key.code {
            KeyCode::Char(c) => {
                if c == '[' {
                    self.prev_customize_section();
                } else if c == ']' {
                    self.next_customize_section();
                } else if c == 't' {
                    if self.active_customize_section() == CustomizeSection::Themes {
                        self.theme_draft_live_preview = !self.theme_draft_live_preview;
                        let text = if self.theme_draft_live_preview {
                            owned("new theme live preview: on")
                        } else {
                            owned("new theme live preview: off")
                        };
                        self.set_status_message(text, now_ns);
                    }
                } else if c == 's' {
                    return AppAction::SaveConfig;
                } else if c == 'r' {
                    self.reset_selected_customize_option();
                }
            },
            KeyCode::Up => self.move_customize_option(-1),
            KeyCode::Down => self.move_customize_option(1),
            KeyCode::Left => self.adjust_selected_customize_value(-1),
            KeyCode::Right => self.adjust_selected_customize_value(1),
            KeyCode::Enter => self.enter_or_apply_selected_customize_option(now_ns),
            _ => {},
        }
        AppAction::Nothing
    }
}

} // verus!
