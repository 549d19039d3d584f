//! The contents of the panels and popups: the Customize screen's lists,
//! the colour picker, the model selector and the navigator, the placement
//! of the dashboard's panels, and the status, LLM and file event text.

use vstd::prelude::*;
use crate::text::{concat, decimal_seq, decimal_string, join, join_seq, owned, str_eq, views};
use crate::tui::app::{App, ColorPickerRow, CustomizeSection, CustomizeTextTarget, DashboardOption, Screen, ThemesOption, dashboard_options_seq, effective_model_spec, themes_options_seq};
use crate::tui::config::DashboardConfig;
use crate::tui::names::{DashboardLayoutPreset, bool_label, layout_preset_label};
use crate::tui::palette::{ThemeColor, ansi_rgb, base_palette_color_at, base_palette_name, base_picker_seq, clamp_base, is_first_nearest_base, nearest_base_palette_index, shade_gradient_for_base, shade_of};
use crate::tui::theme::{ThemeColorField, field_index, palette_colors};
use crate::wire::opt_view;

verus! {

/// The title of a Customize section.
pub open spec fn section_label_spec(s: CustomizeSection) -> Seq<char> {
    match s {
        CustomizeSection::Global => "Global"@,
        CustomizeSection::Dashboard => "Dashboard"@,
        CustomizeSection::Themes => "New Themes"@,
    }
}

/// The title of a Customize section.
pub fn section_label(s: CustomizeSection) -> (r: &'static str)
    ensures
        r@ == section_label_spec(s),
{
    match s {
        CustomizeSection::Global => "Global",
        CustomizeSection::Dashboard => "Dashboard",
        CustomizeSection::Themes => "New Themes",
    }
}

/// The configuration key a Dashboard option is shown under.
pub open spec fn option_key_spec(opt: DashboardOption) -> Seq<char> {
    match opt {
        DashboardOption::AssistantName => "assistant_name"@,
        DashboardOption::AssistantColor => "assistant_color"@,
        DashboardOption::UserName => "user_name"@,
        DashboardOption::UserColor => "user_color"@,
        DashboardOption::LayoutPreset => "layout_preset"@,
        DashboardOption::ShowStatus => "show_status"@,
        DashboardOption::ShowSystem => "show_system"@,
        DashboardOption::ShowProcesses => "show_processes"@,
        DashboardOption::ShowEvents => "show_events"@,
        DashboardOption::ShowFlow => "show_flow_map"@,
    }
}

/// The key of a Dashboard option (see `option_key_spec`).
pub fn option_key(opt: DashboardOption) -> (r: &'static str)
    ensures
        r@ == option_key_spec(opt),
{
    match opt {
        DashboardOption::AssistantName => "assistant_name",
        DashboardOption::AssistantColor => "assistant_color",
        DashboardOption::UserName => "user_name",
        DashboardOption::UserColor => "user_color",
        DashboardOption::LayoutPreset => "layout_preset",
        DashboardOption::ShowStatus => "show_status",
        DashboardOption::ShowSystem => "show_system",
        DashboardOption::ShowProcesses => "show_processes",
        DashboardOption::ShowEvents => "show_events",
        DashboardOption::ShowFlow => "show_flow_map",
    }
}

/// "true" or "false".
pub open spec fn bool_text(v: bool) -> Seq<char> {
    if v {
        "true"@
    } else {
        "false"@
    }
}

/// The value of a Dashboard option as shown.
pub open spec fn option_value_spec(d: DashboardConfig, opt: DashboardOption) -> Seq<char> {
    match opt {
        DashboardOption::AssistantName => d.assistant_name@,
        DashboardOption::AssistantColor => d.assistant_color@,
        DashboardOption::UserName => d.user_name@,
        DashboardOption::UserColor => d.user_color@,
        DashboardOption::LayoutPreset => match d.layout_preset {
            DashboardLayoutPreset::ThreeTopTwoBottom => "ThreeTopTwoBottom"@,
            DashboardLayoutPreset::LlmColumn => "LlmColumn"@,
        },
        DashboardOption::ShowStatus => bool_text(d.show_status),
        DashboardOption::ShowSystem => bool_text(d.show_system),
        DashboardOption::ShowProcesses => bool_text(d.show_processes),
        DashboardOption::ShowEvents => bool_text(d.show_events),
        DashboardOption::ShowFlow => bool_text(d.show_flow),
    }
}

/// The value of a Dashboard option (see `option_value_spec`).
pub fn option_value(d: &DashboardConfig, opt: DashboardOption) -> (r: String)
    ensures
        r@ == option_value_spec(*d, opt),
{
    match opt {
        DashboardOption::AssistantName => d.assistant_name.clone(),
        DashboardOption::AssistantColor => d.assistant_color.clone(),
        DashboardOption::UserName => d.user_name.clone(),
        DashboardOption::UserColor => d.user_color.clone(),
        DashboardOption::LayoutPreset => owned(layout_preset_label(d.layout_preset)),
        DashboardOption::ShowStatus => owned(bool_label(d.show_status)),
        DashboardOption::ShowSystem => owned(bool_label(d.show_system)),
        DashboardOption::ShowProcesses => owned(bool_label(d.show_processes)),
        DashboardOption::ShowEvents => owned(bool_label(d.show_events)),
        DashboardOption::ShowFlow => owned(bool_label(d.show_flow)),
    }
}

/// One line of an option list: whether it is selected, whether its value
/// is being edited, its key and the value shown (the edited text followed
/// by a cursor while editing).
pub struct OptionRow {
    pub selected: bool,
    pub editing: bool,
    pub name: &'static str,
    pub value: String,
}

/// The model of an option row.
pub open spec fn option_row_view(r: OptionRow) -> (bool, bool, Seq<char>, Seq<char>) {
    (r.selected, r.editing, r.name@, r.value@)
}

/// Row `i` of the Dashboard section: the label options show the editor's
/// text while it is open on the selected row.
pub open spec fn dashboard_row_spec(o: App, i: int) -> (bool, bool, Seq<char>, Seq<char>) {
    let opt = dashboard_options_seq()[i];
    let selected = i == o.dashboard_option_idx;
    let editing = o.customize_text_mode && selected && (opt == DashboardOption::AssistantName || opt
        == DashboardOption::UserName);
    (
        selected,
        editing,
        option_key_spec(opt),
        if editing {
            o.customize_text_buffer@ + "_"@
        } else {
            option_value_spec(o.config.dashboard, opt)
        },
    )
}

/// A line of the New Themes section.
pub enum ThemeRow {
    /// A colour of the draft theme, with the name of the nearest base
    /// colour.
    Color { selected: bool, field: ThemeColorField, color: ThemeColor, ansi_name: String },
    /// The new theme's name (the edited text and a cursor while editing).
    NewName { selected: bool, value: String },
    /// The save action.
    Save { selected: bool },
}

/// The name of base colour `k`.
pub open spec fn base_name_spec(k: int) -> Seq<char> {
    "ansi-"@ + decimal_seq(base_picker_seq()[k] as nat)
}

/// Row `i` of the New Themes section.
pub open spec fn theme_row_spec(o: App, i: int, r: ThemeRow) -> bool {
    let selected = i == o.themes_option_idx;
    match themes_options_seq()[i] {
        ThemesOption::ColorPick(f) => {
            let c = palette_colors(o.theme_draft)[field_index(f)];
            r matches ThemeRow::Color { selected: s, field, color, ansi_name } && s == selected && field
                == f && color == c && exists|k: int| is_first_nearest_base(c, k) && ansi_name@
                == base_name_spec(k)
        },
        ThemesOption::NewThemeName => {
            let editing = o.customize_text_mode && selected && o.customize_text_target == Some(
                CustomizeTextTarget::ThemeNewName,
            );
            r matches ThemeRow::NewName { selected: s, value } && s == selected && value@ == if editing {
                o.customize_text_buffer@ + "_"@
            } else {
                o.theme_new_name@
            }
        },
        ThemesOption::SaveNewTheme => r == ThemeRow::Save { selected },
    }
}

/// Two decimal digits, with a leading zero below ten.
pub open spec fn two_digits_spec(n: nat) -> Seq<char> {
    if n < 10 {
        seq!['0'] + decimal_seq(n)
    } else {
        decimal_seq(n)
    }
}

/// Two decimal digits (see `two_digits_spec`).
pub fn two_digits(n: u8) -> (r: String)
    ensures
        r@ == two_digits_spec(n as nat),
{
    let d = decimal_string(n as u128);
    if n < 10 {
        proof {
            reveal_strlit("0");
        }
        concat("0", d.as_str())
    } else {
        d
    }
}

/// What the colour picker shows: which swatch of each row is selected
/// (none outside the active row), the sixteen shades of the chosen base
/// colour, the colour under the cursor and its name.
pub struct PickerView {
    pub field: ThemeColorField,
    pub primary_selected: Option<usize>,
    pub extended_selected: Option<usize>,
    pub shade_selected: Option<usize>,
    pub shades: Vec<ThemeColor>,
    pub current: ThemeColor,
    pub name: String,
}

/// The picker's indices as shown: the base colour at most 31, the primary
/// one at most 15, the extended one within 16..=31, the shade at most 15.
pub open spec fn min_spec(a: usize, b: usize) -> usize {
    if a < b {
        a
    } else {
        b
    }
}

/// The picker view of `o` (see `PickerView`).
pub open spec fn picker_view_spec(o: App, v: PickerView) -> bool {
    let base = min_spec(o.color_picker_idx, 31);
    let primary = min_spec(o.color_picker_primary_idx, 15);
    let extended = min_spec(if o.color_picker_extended_idx < 16 { 16 } else { o.color_picker_extended_idx }, 31);
    let shade = min_spec(o.color_picker_shade_idx, 15);
    let base_rgb = ansi_rgb(base_picker_seq()[base as int]);
    &&& o.color_picker_field == Some(v.field)
    &&& v.primary_selected == if o.color_picker_row == ColorPickerRow::BasePrimary {
        Some(primary)
    } else {
        None
    }
    &&& v.extended_selected == if o.color_picker_row == ColorPickerRow::BaseExtended {
        Some(extended)
    } else {
        None
    }
    &&& v.shade_selected == if o.color_picker_row == ColorPickerRow::Shade {
        Some(shade)
    } else {
        None
    }
    &&& v.shades@.len() == 16
    &&& forall|i: int| 0 <= i < 16 ==> v.shades@[i] == shade_of(base_rgb, i)
    &&& v.current == match o.color_picker_row {
        ColorPickerRow::BasePrimary => ansi_rgb(base_picker_seq()[primary as int]),
        ColorPickerRow::BaseExtended => ansi_rgb(base_picker_seq()[extended as int]),
        ColorPickerRow::Shade => shade_of(base_rgb, shade as int),
    }
    &&& v.name@ == match o.color_picker_row {
        ColorPickerRow::BasePrimary => base_name_spec(primary as int),
        ColorPickerRow::BaseExtended => base_name_spec(extended as int),
        ColorPickerRow::Shade => base_name_spec(base as int) + " shade "@ + two_digits_spec(
            (shade + 1) as nat,
        ),
    }
}

/// A line of the model selector: under the cursor, the selected model,
/// running.
pub struct ModelRow {
    pub hover: bool,
    pub selected: bool,
    pub running: bool,
    pub name: String,
}

/// A line of the screen navigator: under the cursor, the active screen.
pub struct NavRow {
    pub hover: bool,
    pub active: bool,
    pub label: &'static str,
}

/// A panel of the Dashboard screen.
#[derive(Clone, Copy, Debug, PartialEq, Eq, Structural)]
pub enum Panel {
    Llm,
    Events,
    Flow,
}

/// Where the Dashboard screen's panels go. `top` splits the row of the
/// status and system pair and, when shown, the processes panel; `bottom`
/// lists the lower panels in order with their shares; `right` (LLM column
/// layout only) splits the right column between the top row and the
/// bottom panels. Shares are percentages.
pub struct DashboardPlan {
    pub top: Vec<u16>,
    pub bottom: Vec<(Panel, u16)>,
    pub right: Vec<u16>,
}

/// The plan of the Dashboard screen for the `[dashboard]` section `d`.
pub open spec fn plan_spec(d: DashboardConfig, p: DashboardPlan) -> bool {
    let e = d.show_events;
    let f = d.show_flow;
    match d.layout_preset {
        DashboardLayoutPreset::ThreeTopTwoBottom => {
            &&& p.top@ == if d.show_processes {
                seq![75u16, 25]
            } else {
                seq![100u16]
            }
            &&& p.bottom@ == if e && f {
                seq![(Panel::Llm, 52u16), (Panel::Events, 24u16), (Panel::Flow, 24u16)]
            } else if e {
                seq![(Panel::Llm, 65u16), (Panel::Events, 35u16)]
            } else if f {
                seq![(Panel::Llm, 65u16), (Panel::Flow, 35u16)]
            } else {
                seq![(Panel::Llm, 100u16)]
            }
            &&& p.right@ == Seq::<u16>::empty()
        },
        DashboardLayoutPreset::LlmColumn => {
            &&& p.top@ == if d.show_processes {
                seq![70u16, 30]
            } else {
                seq![100u16]
            }
            &&& p.bottom@ == if e && f {
                seq![(Panel::Events, 50u16), (Panel::Flow, 50u16)]
            } else if e {
                seq![(Panel::Events, 100u16)]
            } else if f {
                seq![(Panel::Flow, 100u16)]
            } else {
                Seq::empty()
            }
            &&& p.right@ == if e || f {
                seq![58u16, 42]
            } else {
                seq![100u16]
            }
        },
    }
}

/// The plan of the Dashboard screen (see `plan_spec`).
pub fn dashboard_plan(d: &DashboardConfig) -> (p: DashboardPlan)
    ensures
        plan_spec(*d, p),
{
    let e = d.show_events;
    let f = d.show_flow;
    let mut top: Vec<u16> = Vec::new();
    let mut bottom: Vec<(Panel, u16)> = Vec::new();
    let mut right: Vec<u16> = Vec::new();
    match d.layout_preset {
        DashboardLayoutPreset::ThreeTopTwoBottom => {
            if d.show_processes {
                top.push(75);
                top.push(25);
            } else {
                top.push(100);
            }
            if e && f {
                bottom.push((Panel::Llm, 52));
                bottom.push((Panel::Events, 24));
                bottom.push((Panel::Flow, 24));
            } else if e {
                bottom.push((Panel::Llm, 65));
                bottom.push((Panel::Events, 35));
            } else if f {
                bottom.push((Panel::Llm, 65));
                bottom.push((Panel::Flow, 35));
            } else {
                bottom.push((Panel::Llm, 100));
            }
        },
        DashboardLayoutPreset::LlmColumn => {
            if d.show_processes {
                top.push(70);
                top.push(30);
            } else {
                top.push(100);
            }
            if e && f {
                bottom.push((Panel::Events, 50));
                bottom.push((Panel::Flow, 50));
            } else if e {
                bottom.push((Panel::Events, 100));
            } else if f {
                bottom.push((Panel::Flow, 100));
            }
            if e || f {
                right.push(58);
                right.push(42);
            } else {
                right.push(100);
            }
        },
    }
    proof {
        if d.show_processes {
            assert(top@ =~= seq![75u16, 25] || top@ =~= seq![70u16, 30]);
        } else {
            assert(top@ =~= seq![100u16]);
        }
        if d.layout_preset == DashboardLayoutPreset::ThreeTopTwoBottom {
            assert(right@ =~= Seq::<u16>::empty());
            if e && f {
                assert(bottom@ =~= seq![(Panel::Llm, 52u16), (Panel::Events, 24u16), (Panel::Flow, 24u16)]);
            } else if e {
                assert(bottom@ =~= seq![(Panel::Llm, 65u16), (Panel::Events, 35u16)]);
            } else if f {
                assert(bottom@ =~= seq![(Panel::Llm, 65u16), (Panel::Flow, 35u16)]);
            } else {
                assert(bottom@ =~= seq![(Panel::Llm, 100u16)]);
            }
            if d.show_processes {
                assert(top@ =~= seq![75u16, 25]);
            }
        } else {
            if e && f {
                assert(bottom@ =~= seq![(Panel::Events, 50u16), (Panel::Flow, 50u16)]);
            } else if e {
                assert(bottom@ =~= seq![(Panel::Events, 100u16)]);
            } else if f {
                assert(bottom@ =~= seq![(Panel::Flow, 100u16)]);
            } else {
                assert(bottom@ =~= Seq::<(Panel, u16)>::empty());
            }
            if e || f {
                assert(right@ =~= seq![58u16, 42]);
            } else {
                assert(right@ =~= seq![100u16]);
            }
            if d.show_processes {
                assert(top@ =~= seq![70u16, 30]);
            }
        }
    }
    DashboardPlan { top, bottom, right }
}

/// The shares of a popup's band of `p` percent centred in the screen: the
/// margin, the band, the margin.
pub fn centered_rect(p: u16) -> (r: (u16, u16, u16))
    requires
        p <= 100,
    ensures
        r.0 == (100 - p) / 2 && r.1 == p && r.2 == (100 - p) / 2,
{
    ((100 - p) / 2, p, (100 - p) / 2)
}

/// The lines of the Status panel: the agent's address, how long ago the
/// state came (or "never"), the agent's host, sequence number and time
/// when there is a state, and the last error.
pub open spec fn status_text_spec(
    endpoint: Seq<char>,
    fetched_ago_ms: Option<u128>,
    host: Option<(Seq<char>, u64, u128)>,
    last_error: Option<Seq<char>>,
) -> Seq<Seq<char>> {
    seq![
        "endpoint: "@ + endpoint,
        "last fetch: "@ + match fetched_ago_ms {
            Some(ms) => decimal_seq(ms as nat) + " ms ago"@,
            None => "never"@,
        },
    ] + match host {
        Some((h, seq, ts)) => seq![
            "host: "@ + h,
            "seq: "@ + decimal_seq(seq as nat),
            "ts_ms: "@ + decimal_seq(ts as nat),
        ],
        None => seq!["host: (no data)"@],
    } + seq![
        match last_error {
            Some(e) => "error: "@ + e,
            None => "error: none"@,
        },
    ]
}

/// The lines of the LLM summary: a waiting line before the first state;
/// then Ollama's address, whether it is online, how many models run, the
/// model chat uses (or "(none)"), and Ollama's error if any.
pub open spec fn llm_text_spec(o: App) -> Seq<Seq<char>> {
    match o.llm {
        None => seq!["waiting for first snapshot..."@],
        Some(l) => seq![
            "ollama endpoint: "@ + l.ollama_ps_url@,
            "online: "@ + bool_text(l.ollama_online),
            "running models: "@ + decimal_seq(l.model_count as nat),
            "selected chat model: "@ + match effective_model_spec(o) {
                Some(m) => m,
                None => "(none)"@,
            },
        ] + match l.error {
            Some(e) => seq!["error: "@ + e@],
            None => Seq::empty(),
        },
    }
}

/// How many file events the panel lists: 20 expanded, 8 otherwise.
pub open spec fn event_limit(expanded: bool) -> nat {
    if expanded {
        20
    } else {
        8
    }
}

/// The lines of the File Events panel: the watched folders (joined with
/// ", ", or "(none)"), then the first events up to the limit, or a note
/// that there are none.
pub open spec fn event_text_spec(watched: Seq<Seq<char>>, recent: Seq<Seq<char>>, expanded: bool) -> Seq<Seq<char>> {
    seq![
        "watching: "@ + if watched.len() == 0 {
            "(none)"@
        } else {
            join_seq(watched, ", "@)
        },
    ] + if recent.len() == 0 {
        seq!["no recent file events"@]
    } else if recent.len() > event_limit(expanded) {
        recent.take(event_limit(expanded) as int)
    } else {
        recent
    }
}

/// The lines of the File Events panel (see `event_text_spec`).
pub fn event_text(watched: &Vec<String>, recent: &Vec<String>, expanded: bool) -> (r: Vec<String>)
    ensures
        views(r@) == event_text_spec(views(watched@), views(recent@), expanded),
        recent@.len() > 0 ==> r@.len() == 1 + if recent@.len() < (if expanded { 20int } else { 8int }) {
            recent@.len() as int
        } else {
            if expanded { 20int } else { 8int }
        },
        forall|i: int| 0 <= i < recent@.len() && i < (if expanded { 20int } else { 8int }) ==> #[trigger] r@[i + 1]@
            == recent@[i]@,
{
    let mut out: Vec<String> = Vec::new();
    let dirs = if watched.len() == 0 {
        owned("(none)")
    } else {
        join(watched, ", ")
    };
    out.push(concat("watching: ", dirs.as_str()));
    let limit: usize = if expanded {
        20
    } else {
        8
    };
    if recent.len() == 0 {
        out.push(owned("no recent file events"));
        assert(views(out@) =~= event_text_spec(views(watched@), views(recent@), expanded));
        return out;
    }
    let n = if recent.len() > limit {
        limit
    } else {
        recent.len()
    };
    let ghost first = views(out@);
    let mut i: usize = 0;
    while i < n
        invariant
            i <= n <= recent@.len(),
            views(out@) == first + views(recent@).take(i as int),
        decreases n - i,
    {
        let ghost before = views(out@);
        out.push(recent[i].clone());
        proof {
            assert(views(out@) =~= before.push(recent@[i as int]@));
            assert(views(recent@).take(i as int + 1) =~= views(recent@).take(i as int).push(
                recent@[i as int]@,
            ));
            assert(views(out@) =~= first + views(recent@).take(i as int + 1));
        }
        i += 1;
    }
    proof {
        if recent@.len() <= limit {
            assert(views(recent@).take(n as int) =~= views(recent@));
        }
        assert(views(out@) =~= event_text_spec(views(watched@), views(recent@), expanded));
        assert forall|i: int| 0 <= i < recent@.len() && i < (if expanded { 20int } else { 8int }) implies #[trigger] out@[i + 1]@
            == recent@[i]@ by {
            assert(views(out@)[i + 1] == out@[i + 1]@);
            assert(views(recent@)[i] == recent@[i]@);
        }
    }
    out
}

/// The lines of the Status panel (see `status_text_spec`).
pub fn status_text(
    endpoint: &str,
    fetched_ago_ms: Option<u128>,
    host: Option<(String, u64, u128)>,
    last_error: &Option<String>,
) -> (r: Vec<String>)
    ensures
        views(r@) == status_text_spec(
            endpoint@,
            fetched_ago_ms,
            match host {
                Some((h, s, t)) => Some((h@, s, t)),
                None => None,
            },
            opt_view(*last_error),
        ),
{
    let mut out: Vec<String> = Vec::new();
    out.push(concat("endpoint: ", endpoint));
    let fetched = match fetched_ago_ms {
        Some(ms) => {
            let d = decimal_string(ms);
            concat(d.as_str(), " ms ago")
        },
        None => owned("never"),
    };
    out.push(concat("last fetch: ", fetched.as_str()));
    match host {
        Some((h, seq, ts)) => {
            out.push(concat("host: ", h.as_str()));
            let s = decimal_string(seq as u128);
            out.push(concat("seq: ", s.as_str()));
            let t = decimal_string(ts);
            out.push(concat("ts_ms: ", t.as_str()));
        },
        None => out.push(owned("host: (no data)")),
    }
    match last_error {
        Some(e) => out.push(concat("error: ", e.as_str())),
        None => out.push(owned("error: none")),
    }
    proof {
        assert(views(out@) =~= status_text_spec(
            endpoint@,
            fetched_ago_ms,
            match host {
                Some((h, s, t)) => Some((h@, s, t)),
                None => None,
            },
            opt_view(*last_error),
        ));
    }
    out
}

impl App {
    /// The sections of the Customize screen with the selected one marked.
    pub fn section_rows(&self) -> (r: Vec<(bool, &'static str)>)
        ensures
            r@.len() == 3,
            forall|i: int|
                0 <= i < 3 ==> r@[i].0 == (i == self.customize_section_idx) && r@[i].1@
                    == section_label_spec(
                    seq![CustomizeSection::Global, CustomizeSection::Dashboard, CustomizeSection::Themes][i],
                ),
    {
        let sections = Self::customize_sections();
        let mut out: Vec<(bool, &'static str)> = Vec::new();
        let mut i: usize = 0;
        while i < 3
            invariant
                i <= 3,
                sections@ == seq![CustomizeSection::Global, CustomizeSection::Dashboard, CustomizeSection::Themes],
                out@.len() == i,
                forall|j: int|
                    0 <= j < i ==> out@[j].0 == (j == self.customize_section_idx) && out@[j].1@
                        == section_label_spec(sections@[j]),
            decreases 3 - i,
        {
            out.push((i == self.customize_section_idx, section_label(sections[i])));
            i += 1;
        }
        out
    }

    /// The Global section's one row: the theme.
    pub fn global_option_rows(&self) -> (r: Vec<OptionRow>)
        ensures
            r@.map_values(|x: OptionRow| option_row_view(x)) == seq![
                (self.global_option_idx == 0, false, "theme"@, self.config.global.theme@),
            ],
    {
        let mut out: Vec<OptionRow> = Vec::new();
        out.push(OptionRow {
            selected: self.global_option_idx == 0,
            editing: false,
            name: "theme",
            value: self.config.global.theme.clone(),
        });
        assert(out@.map_values(|x: OptionRow| option_row_view(x)) =~= seq![
            (self.global_option_idx == 0, false, "theme"@, self.config.global.theme@),
        ]);
        out
    }

    /// The Dashboard section's rows (see `dashboard_row_spec`).
    pub fn dashboard_option_rows(&self) -> (r: Vec<OptionRow>)
        ensures
            r@.len() == 10,
            forall|i: int| 0 <= i < 10 ==> option_row_view(#[trigger] r@[i]) == dashboard_row_spec(*self, i),
    {
        let opts = Self::dashboard_options();
        let mut out: Vec<OptionRow> = Vec::new();
        let mut i: usize = 0;
        while i < 10
            invariant
                i <= 10,
                opts@ == dashboard_options_seq(),
                out@.len() == i,
                forall|j: int| 0 <= j < i ==> option_row_view(#[trigger] out@[j]) == dashboard_row_spec(*self, j),
            decreases 10 - i,
        {
            let opt = opts[i];
            let selected = i == self.dashboard_option_idx;
            let editing = self.customize_text_mode && selected && (opt == DashboardOption::AssistantName
                || opt == DashboardOption::UserName);
            let value = if editing {
                concat(self.customize_text_buffer.as_str(), "_")
            } else {
                option_value(&self.config.dashboard, opt)
            };
            out.push(OptionRow { selected, editing, name: option_key(opt), value });
            i += 1;
        }
        out
    }

    /// The New Themes section's rows (see `theme_row_spec`).
    pub fn theme_option_rows(&self) -> (r: Vec<ThemeRow>)
        ensures
            r@.len() == 8,
            forall|i: int| 0 <= i < 8 ==> theme_row_spec(*self, i, #[trigger] r@[i]),
    {
        let opts = self.themes_options();
        let mut out: Vec<ThemeRow> = Vec::new();
        let mut i: usize = 0;
        while i < 8
            invariant
                i <= 8,
                opts@ == themes_options_seq(),
                out@.len() == i,
                forall|j: int| 0 <= j < i ==> theme_row_spec(*self, j, #[trigger] out@[j]),
            decreases 8 - i,
        {
            let selected = i == self.themes_option_idx;
            let row = match opts[i] {
                ThemesOption::ColorPick(field) => {
                    let color = self.theme_color_for_editor(field);
                    let k = nearest_base_palette_index(color);
                    let ansi_name = base_palette_name(k);
                    proof {
                        assert(is_first_nearest_base(color, k as int));
                        assert(clamp_base(k) == k as int);
                        assert(ansi_name@ == base_name_spec(k as int));
                    }
                    ThemeRow::Color { selected, field, color, ansi_name }
                },
                ThemesOption::NewThemeName => {
                    let editing = self.customize_text_mode && selected && match self.customize_text_target {
                        Some(CustomizeTextTarget::ThemeNewName) => true,
                        _ => false,
                    };
                    let value = if editing {
                        concat(self.customize_text_buffer.as_str(), "_")
                    } else {
                        self.theme_new_name.clone()
                    };
                    ThemeRow::NewName { selected, value }
                },
                ThemesOption::SaveNewTheme => ThemeRow::Save { selected },
            };
            proof {
                assert(opts@[i as int] == themes_options_seq()[i as int]);
                assert(theme_row_spec(*self, i as int, row));
            }
            out.push(row);
            i += 1;
        }
        out
    }

    /// What the colour picker shows, when it is open on a field (see
    /// `picker_view_spec`).
    pub fn color_picker_view(&self) -> (r: Option<PickerView>)
        ensures
            self.color_picker_field is None ==> r is None,
            self.color_picker_field is Some ==> (r matches Some(v) && picker_view_spec(*self, v)),
    {
        let field = match self.color_picker_field {
            Some(f) => f,
            None => return None,
        };
        let base = if self.color_picker_idx < 31 {
            self.color_picker_idx
        } else {
            31
        };
        let primary = if self.color_picker_primary_idx < 15 {
            self.color_picker_primary_idx
        } else {
            15
        };
        let ext = if self.color_picker_extended_idx < 16 {
            16
        } else {
            self.color_picker_extended_idx
        };
        let extended = if ext < 31 {
            ext
        } else {
            31
        };
        let shade = if self.color_picker_shade_idx < 15 {
            self.color_picker_shade_idx
        } else {
            15
        };
        let shades = shade_gradient_for_base(base);
        let (current, name) = match self.color_picker_row {
            ColorPickerRow::BasePrimary => (base_palette_color_at(primary), base_palette_name(primary)),
            ColorPickerRow::BaseExtended => (base_palette_color_at(extended), base_palette_name(extended)),
            ColorPickerRow::Shade => {
                let b = base_palette_name(base);
                let head = concat(b.as_str(), " shade ");
                let n = two_digits((shade + 1) as u8);
                (shades[shade], concat(head.as_str(), n.as_str()))
            },
        };
        let v = PickerView {
            field,
            primary_selected: if self.color_picker_row == ColorPickerRow::BasePrimary {
                Some(primary)
            } else {
                None
            },
            extended_selected: if self.color_picker_row == ColorPickerRow::BaseExtended {
                Some(extended)
            } else {
                None
            },
            shade_selected: if self.color_picker_row == ColorPickerRow::Shade {
                Some(shade)
            } else {
                None
            },
            shades,
            current,
            name,
        };
        Some(v)
    }

    /// The lines of the model selector, one per listed model.
    pub fn model_rows(&self) -> (r: Vec<ModelRow>)
        ensures
            r@.len() == self.model_list@.len(),
            forall|i: int|
                0 <= i < r@.len() ==> {
                    let row = #[trigger] r@[i];
                    &&& row.hover == (i == self.model_hover_idx)
                    &&& row.selected == (opt_view(self.selected_model) == Some(self.model_list@[i]@))
                    &&& row.running == views(self.running_models@).contains(self.model_list@[i]@)
                    &&& row.name@ == self.model_list@[i]@
                },
    {
        let mut out: Vec<ModelRow> = Vec::new();
        let mut i: usize = 0;
        while i < self.model_list.len()
            invariant
                i <= self.model_list@.len(),
                out@.len() == i,
                forall|j: int|
                    0 <= j < i ==> {
                        let row = #[trigger] out@[j];
                        &&& row.hover == (j == self.model_hover_idx)
                        &&& row.selected == (opt_view(self.selected_model) == Some(self.model_list@[j]@))
                        &&& row.running == views(self.running_models@).contains(self.model_list@[j]@)
                        &&& row.name@ == self.model_list@[j]@
                    },
            decreases self.model_list@.len() - i,
        {
            let name = &self.model_list[i];
            let selected = match &self.selected_model {
                Some(s) => str_eq(s.as_str(), name.as_str()),
                None => false,
            };
            let running = crate::agent::ollama::contains_string(&self.running_models, name.as_str());
            out.push(ModelRow { hover: i == self.model_hover_idx, selected, running, name: name.clone() });
            i += 1;
        }
        out
    }

    /// The lines of the screen navigator, in screen order.
    pub fn nav_rows(&self) -> (r: Vec<NavRow>)
        ensures
            r@.len() == 2,
            r@[0].hover == (self.navigator_hover_idx == 0) && r@[0].active == (self.active_screen
                == Screen::Dashboard) && r@[0].label@ == "Dashboard"@,
            r@[1].hover == (self.navigator_hover_idx == 1) && r@[1].active == (self.active_screen
                == Screen::Customize) && r@[1].label@ == "Customize"@,
    {
        let mut out: Vec<NavRow> = Vec::new();
        out.push(NavRow {
            hover: self.navigator_hover_idx == 0,
            active: self.active_screen == Screen::Dashboard,
            label: Self::screen_name(Screen::Dashboard),
        });
        out.push(NavRow {
            hover: self.navigator_hover_idx == 1,
            active: self.active_screen == Screen::Customize,
            label: Self::screen_name(Screen::Customize),
        });
        out
    }

    /// The lines of the LLM summary (see `llm_text_spec`).
    pub fn llm_text(&self) -> (r: Vec<String>)
        ensures
            views(r@) == llm_text_spec(*self),
    {
        let mut out: Vec<String> = Vec::new();
        match &self.llm {
            None => {
                out.push(owned("waiting for first snapshot..."));
            },
            Some(l) => {
                out.push(concat("ollama endpoint: ", l.ollama_ps_url.as_str()));
                out.push(concat("online: ", bool_label(l.ollama_online)));
                let n = decimal_string(l.model_count as u128);
                out.push(concat("running models: ", n.as_str()));
                let model = match self.effective_model() {
                    Some(m) => m,
                    None => owned("(none)"),
                };
                out.push(concat("selected chat model: ", model.as_str()));
                match &l.error {
                    Some(e) => out.push(concat("error: ", e.as_str())),
                    None => {},
                }
            },
        }
        assert(views(out@) =~= llm_text_spec(*self));
        out
    }
}

} // verus!
