//! Properties of the dashboard that hold across its operations.

use vstd::prelude::*;
use crate::agent::events::keep_last;
use crate::text::trim_seq;
use crate::tui::app::{CHAT_HISTORY_MAX, replaced};
use crate::tui::config::{AppConfig, is_normalized_of, normalize_warnings};
use crate::tui::names::{
    color_names_seq, cycle, lemma_match_index, lemma_match_index_bound, match_index, named_color, rotated_name, same_name, same_name_ignore_case,
    step_spec,
};
use crate::tui::customize::{adjust_fits, adjust_post, dashboard_step_fits, rotated_color, rotated_theme};
use crate::tui::config::{extra_names, theme_names_seq};
use crate::tui::app::{App, CustomizeSection, DashboardOption, active_dashboard_option_spec, active_section_spec};
use crate::tui::config::{DashboardConfig, GlobalConfig};
use crate::tui::session::offered_models;
use crate::agent::ollama::{dedupe_seq, lemma_dedupe_seq};
use crate::text::{ascii_lower, views};
use crate::wire::ModelsResponse;
use crate::tui::palette::{ThemeColor, ansi_rgb, base_picker_seq, dist2, is_first_nearest_base};
use crate::tui::theme::{builtin_names_seq, table_insert_post};
use crate::tui::markdown::{
    ChatLineKind, blank_line, chat_format, fmt_seq, segment_lines, strip_leading, strip_trailing,
};

use crate::tui::app::effective_model_spec;
use crate::tui::panels::event_text_spec;
use crate::tui::customize::dashboard_reset;
use crate::tui::config::{bad_color, bad_thresholds, is_default_config, theme_known};

verus! {

/// A bounded history after a push: it holds at most `cap` entries, the
/// pushed entry is the newest, and the others are the newest of the
/// earlier entries, in order.
pub proof fn bounded_push<T>(h: Seq<T>, x: T, cap: nat)
    requires
        cap > 0,
    ensures
        keep_last(h.push(x), cap).len() == if h.len() + 1 <= cap {
            h.len() + 1
        } else {
            cap
        },
        keep_last(h.push(x), cap).last() == x,
        keep_last(h.push(x), cap).drop_last() == keep_last(h, (cap - 1) as nat),
{
    let s = h.push(x);
    if s.len() > cap {
        assert(s.skip(s.len() - cap).drop_last() =~= h.skip(h.len() - (cap - 1)));
    } else {
        assert(s.drop_last() =~= h);
    }
}

/// The chat history never holds more than `CHAT_HISTORY_MAX` messages, and
/// a pushed message is the newest one kept.
pub proof fn chat_history_bounded(h: Seq<(Option<u64>, Seq<char>, Seq<char>)>, m: (Option<u64>, Seq<char>, Seq<char>))
    ensures
        keep_last(h.push(m), CHAT_HISTORY_MAX as nat).len() <= CHAT_HISTORY_MAX,
        keep_last(h.push(m), CHAT_HISTORY_MAX as nat).last() == m,
{
    bounded_push(h, m, CHAT_HISTORY_MAX as nat);
}

/// A reply fills the placeholder its prompt left as the newest message:
/// that message becomes the reply, and nothing else changes.
pub proof fn reply_fills_newest_placeholder(
    h: Seq<(Option<u64>, Seq<char>, Seq<char>)>,
    id: u64,
    m: (Option<u64>, Seq<char>, Seq<char>),
    hn: Seq<(Option<u64>, Seq<char>, Seq<char>)>,
)
    requires
        h.len() > 0,
        h.last().0 == Some(id),
        replaced(h, id, m, hn),
    ensures
        hn == h.update(h.len() - 1, m),
{
    if exists|k: int|
        0 <= k < h.len() && h[k].0 == Some(id) && (forall|j: int| k < j < h.len() ==> h[j].0 != Some(id))
            && hn == h.update(k, m) {
        let k = choose|k: int|
            0 <= k < h.len() && h[k].0 == Some(id) && (forall|j: int| k < j < h.len() ==> h[j].0 != Some(id))
                && hn == h.update(k, m);
        if k < h.len() - 1 {
            assert(h[h.len() - 1].0 != Some(id));
        }
    } else {
        assert(h[h.len() - 1].0 == Some(id));
    }
}

/// A normalized configuration is settled: normalizing it again reports no
/// warning and changes nothing.
pub proof fn normalized_config_is_settled(c: AppConfig, r: AppConfig)
    requires
        is_normalized_of(r, c),
    ensures
        normalize_warnings(r) == Seq::<Seq<char>>::empty(),
        is_normalized_of(r, r),
{
    reveal_strlit("default");
    reveal_strlit("cyan");
    reveal_strlit("green");
    reveal_strlit("yellow");
    reveal_strlit("light_yellow");
    reveal_strlit("light_green");
    reveal_strlit("light_red");
    reveal_strlit("assistant");
    reveal_strlit("you");
    assert(builtin_names_seq()[0] == "default"@);
    assert(named_color("cyan"@) is Some);
    assert(named_color("green"@) is Some);
    assert(named_color("yellow"@) is Some);
    assert(named_color("light_yellow"@) is Some);
    assert(named_color("light_green"@) is Some);
    assert(named_color("light_red"@) is Some);
    assert(trim_seq("assistant"@) == "assistant"@) by {
        crate::text::lemma_trim_keeps_nonblank_ends("assistant"@);
    }
    assert(trim_seq("you"@) == "you"@) by {
        crate::text::lemma_trim_keeps_nonblank_ends("you"@);
    }
    crate::text::lemma_trim_idempotent(c.dashboard.assistant_name@);
    crate::text::lemma_trim_idempotent(c.dashboard.user_name@);
    assert(normalize_warnings(r) =~= Seq::<Seq<char>>::empty());
}

/// Saving a theme stores it under its name and keeps every other theme.
pub proof fn saved_theme_is_kept(
    s: Seq<(Seq<char>, (Seq<ThemeColor>, Map<String, toml::Value>))>,
    name: Seq<char>,
    e: (Seq<ThemeColor>, Map<String, toml::Value>),
    t: Seq<(Seq<char>, (Seq<ThemeColor>, Map<String, toml::Value>))>,
)
    requires
        table_insert_post(s, name, e, t),
    ensures
        t.contains((name, e)),
        forall|i: int| 0 <= i < s.len() && s[i].0 != name ==> t.contains(s[i]),
{
    if exists|i: int| 0 <= i < s.len() && s[i].0 == name && t == s.update(i, (name, e)) {
        let i = choose|i: int| 0 <= i < s.len() && s[i].0 == name && t == s.update(i, (name, e));
        assert(t[i] == (name, e));
        assert forall|j: int| 0 <= j < s.len() && s[j].0 != name implies t.contains(s[j]) by {
            assert(t[j] == s[j]);
        }
    } else {
        let p = choose|p: int|
            0 <= p <= s.len() && (forall|i: int| 0 <= i < p ==> crate::tui::theme::text_lt(s[i].0, name))
                && (forall|i: int| p <= i < s.len() ==> crate::tui::theme::text_lt(name, s[i].0)) && t
                == s.insert(p, (name, e));
        assert(t[p] == (name, e));
        assert forall|j: int| 0 <= j < s.len() && s[j].0 != name implies t.contains(s[j]) by {
            if j < p {
                assert(t[j] == s[j]);
            } else {
                assert(t[j + 1] == s[j]);
            }
        }
    }
}

/// Moving a selection never leaves `0..=max`.
pub proof fn selection_stays_in_range(current: int, max: int, delta: int)
    requires
        max >= 0,
    ensures
        0 <= step_spec(current, max, delta) <= max,
{
}

/// No two colour names are equal ignoring ASCII case.
proof fn color_names_distinct()
    ensures
        forall|i: int, j: int|
            0 <= i < 14 && 0 <= j < 14 && i != j ==> !same_name_ignore_case(
                #[trigger] color_names_seq()[i],
                #[trigger] color_names_seq()[j],
            ),
{
    reveal_strlit("white");
    reveal_strlit("gray");
    reveal_strlit("red");
    reveal_strlit("green");
    reveal_strlit("yellow");
    reveal_strlit("blue");
    reveal_strlit("magenta");
    reveal_strlit("cyan");
    reveal_strlit("light_red");
    reveal_strlit("light_green");
    reveal_strlit("light_yellow");
    reveal_strlit("light_blue");
    reveal_strlit("light_magenta");
    reveal_strlit("light_cyan");
    let n = color_names_seq();
    assert forall|i: int, j: int| 0 <= i < 14 && 0 <= j < 14 && i != j implies !same_name_ignore_case(
        #[trigger] n[i],
        #[trigger] n[j],
    ) by {
        if n[i].len() == n[j].len() {
            if n[i].len() == 10 {
                assert(ascii_lower(n[i][6]) != ascii_lower(n[j][6]));
            } else {
                assert(ascii_lower(n[i][0]) != ascii_lower(n[j][0]));
            }
        }
    }
}

/// The position of colour name `k` among the colour names.
proof fn color_name_position(k: int)
    requires
        0 <= k < 14,
    ensures
        match_index(color_names_seq(), color_names_seq()[k], |a: Seq<char>, b: Seq<char>| same_name_ignore_case(a, b)) == k,
{
    color_names_distinct();
    let n = color_names_seq();
    assert(same_name_ignore_case(n[k], n[k]));
    assert forall|j: int| 0 <= j < k implies !same_name_ignore_case(n[j], n[k]) by {
        assert(!same_name_ignore_case(n[j], n[k]));
    }
    lemma_match_index(n, n[k], |a: Seq<char>, b: Seq<char>| same_name_ignore_case(a, b), k);
}

/// Changing a colour option back undoes the change: stepping a colour name
/// by `d` and then by `-d` gives the name back.
pub proof fn color_change_is_undone(k: int, d: int)
    requires
        0 <= k < 14,
    ensures
        rotated_color(rotated_color(color_names_seq()[k], d), -d) == color_names_seq()[k],
{
    reveal(rotated_color);
    color_name_position(k);
    let m = cycle(k, d, 14);
    assert(0 <= m < 14);
    color_name_position(m);
    vstd::arithmetic::div_mod::lemma_add_mod_noop_right(-d, k + d, 14);
    assert(-d + (k + d) == k);
    vstd::arithmetic::div_mod::lemma_small_mod(k as nat, 14);
    assert(cycle(m, -d, 14) == k);
}

/// The models offered in the selector are each listed once, and they are
/// exactly the running and the installed ones.
pub proof fn offered_models_are_the_union(m: ModelsResponse)
    ensures
        forall|i: int, j: int|
            0 <= i < j < offered_models(m).len() ==> offered_models(m)[i] != offered_models(m)[j],
        forall|x: Seq<char>|
            offered_models(m).contains(x) <==> (views(m.running_models@).contains(x) || views(
                m.installed_models@,
            ).contains(x)),
{
    let all = views(m.running_models@) + views(m.installed_models@);
    lemma_dedupe_seq(all);
    assert forall|x: Seq<char>| offered_models(m).contains(x) <==> (views(m.running_models@).contains(x) || views(
        m.installed_models@,
    ).contains(x)) by {
        assert(dedupe_seq(all).contains(x) <==> all.contains(x));
        let r = views(m.running_models@);
        let t = views(m.installed_models@);
        if all.contains(x) {
            let k = choose|k: int| 0 <= k < all.len() && all[k] == x;
            if k < r.len() {
                assert(r[k] == x);
            } else {
                assert(t[k - r.len()] == x);
            }
        }
        if r.contains(x) {
            let k = choose|k: int| 0 <= k < r.len() && r[k] == x;
            assert(all[k] == x);
        }
        if t.contains(x) {
            let k = choose|k: int| 0 <= k < t.len() && t[k] == x;
            assert(all[r.len() + k] == x);
        }
    }
}

/// No name occurs twice in `s`.
pub open spec fn distinct_names(s: Seq<Seq<char>>) -> bool {
    forall|i: int, j: int| 0 <= i < j < s.len() ==> s[i] != s[j]
}

/// Adding names not yet present keeps the names distinct.
proof fn extra_names_distinct(keys: Seq<Seq<char>>, base: Seq<Seq<char>>)
    requires
        distinct_names(base),
    ensures
        distinct_names(extra_names(keys, base)),
    decreases keys.len(),
{
    if keys.len() > 0 {
        extra_names_distinct(keys.drop_last(), base);
        let rest = extra_names(keys.drop_last(), base);
        if !rest.contains(keys.last()) {
            let r = rest.push(keys.last());
            assert forall|i: int, j: int| 0 <= i < j < r.len() implies r[i] != r[j] by {
                if j == rest.len() {
                    assert(rest[i] == r[i]);
                }
            }
        }
    }
}

/// The themes one can choose are each offered once.
pub proof fn theme_names_distinct(c: AppConfig)
    ensures
        distinct_names(theme_names_seq(c)),
{
    reveal_strlit("default");
    reveal_strlit("amber");
    reveal_strlit("ocean");
    reveal_strlit("mono");
    let b = builtin_names_seq();
    assert forall|i: int, j: int| 0 <= i < j < b.len() implies b[i] != b[j] by {
        if b[i].len() == b[j].len() {
            assert(b[i][0] != b[j][0]);
        }
    }
    extra_names_distinct(c.themes.names(), b);
}

/// Rotating back undoes a rotation: among distinct names, stepping from a
/// listed name by `d` and then by `-d` comes back to it (see
/// `rotate_name_owned`).
pub proof fn rotation_is_undone(items: Seq<Seq<char>>, k: int, d: int)
    requires
        distinct_names(items),
        0 <= k < items.len(),
    ensures
        rotated_name(items, rotated_name(items, items[k], d), -d) == items[k],
{
    let len = items.len() as int;
    let eq = |a: Seq<char>, b: Seq<char>| same_name(a, b);
    assert forall|j: int| 0 <= j < k implies !same_name(items[j], items[k]) by {
        assert(items[j] != items[k]);
    }
    lemma_match_index(items, items[k], eq, k);
    let m = cycle(k, d, len);
    assert(0 <= m < len);
    assert forall|j: int| 0 <= j < m implies !same_name(items[j], items[m]) by {
        assert(items[j] != items[m]);
    }
    lemma_match_index(items, items[m], eq, m);
    vstd::arithmetic::div_mod::lemma_add_mod_noop_right(-d, k + d, len);
    assert(-d + (k + d) == k);
    vstd::arithmetic::div_mod::lemma_small_mod(k as nat, len as nat);
    assert(cycle(m, -d, len) == k);
}


/// On a list that leaves a million positions of `i32` room, a rotation of
/// at most a million either way keeps the position arithmetic in range, so
/// `rotate_name_owned` takes it, and the rotation back as well.
pub proof fn small_rotations_fit(items: Seq<Seq<char>>, current: Seq<char>, d: int)
    requires
        0 < items.len(),
        items.len() + 1_000_000 <= i32::MAX,
        -1_000_000 <= d <= 1_000_000,
    ensures
        match_index(items, current, |a: Seq<char>, b: Seq<char>| same_name(a, b)) + d <= i32::MAX,
        match_index(items, rotated_name(items, current, d), |a: Seq<char>, b: Seq<char>| same_name(a, b))
            - d <= i32::MAX,
{
    lemma_match_index_bound(items, current, |a: Seq<char>, b: Seq<char>| same_name(a, b));
    lemma_match_index_bound(
        items,
        rotated_name(items, current, d),
        |a: Seq<char>, b: Seq<char>| same_name(a, b),
    );
}

/// Changing the theme back undoes the change: from a theme one can choose,
/// stepping by `d` and then by `-d` comes back to it.
pub proof fn theme_change_is_undone(o: App, n: App, d: int)
    requires
        theme_names_seq(o.config).contains(o.config.global.theme@),
        n.config.themes == o.config.themes,
        n.config.global.theme@ == rotated_theme(o, d),
    ensures
        rotated_theme(n, -d) == o.config.global.theme@,
{
    reveal(rotated_theme);
    let names = theme_names_seq(o.config);
    theme_names_distinct(o.config);
    let k = choose|k: int| 0 <= k < names.len() && names[k] == o.config.global.theme@;
    rotation_is_undone(names, k, d);
    assert(theme_names_seq(n.config) == names);
}

/// The selected values whose step the opposite step undoes: a theme one
/// can choose, a colour given by one of the colour names, and the panel
/// switches. (The layout does not wrap, so a step at its end is not
/// undone; labels and the New Themes options do not change by steps.)
pub open spec fn step_undoable(o: App) -> bool {
    match active_section_spec(o) {
        CustomizeSection::Global => theme_names_seq(o.config).contains(o.config.global.theme@),
        CustomizeSection::Dashboard => match active_dashboard_option_spec(o) {
            DashboardOption::AssistantColor => color_names_seq().contains(
                o.config.dashboard.assistant_color@,
            ),
            DashboardOption::UserColor => color_names_seq().contains(o.config.dashboard.user_color@),
            DashboardOption::ShowStatus | DashboardOption::ShowSystem | DashboardOption::ShowProcesses
            | DashboardOption::ShowEvents | DashboardOption::ShowFlow => true,
            _ => false,
        },
        CustomizeSection::Themes => false,
    }
}

/// A colour step of the assistant's colour, undone.
proof fn assistant_color_step_is_undone(d0: DashboardConfig, d: int, d1: DashboardConfig, d2: DashboardConfig)
    requires
        color_names_seq().contains(d0.assistant_color@),
        d1 == (DashboardConfig { assistant_color: d1.assistant_color, ..d0 }),
        d1.assistant_color@ == rotated_color(d0.assistant_color@, d),
        d2 == (DashboardConfig { assistant_color: d2.assistant_color, ..d1 }),
        d2.assistant_color@ == rotated_color(d1.assistant_color@, -d),
    ensures
        d2 == (DashboardConfig { assistant_color: d2.assistant_color, ..d0 }),
        d2.assistant_color@ == d0.assistant_color@,
{
    let names = color_names_seq();
    let k = choose|k: int| 0 <= k < names.len() && names[k] == d0.assistant_color@;
    color_change_is_undone(k, d);
}

/// A colour step of the user's colour, undone.
proof fn user_color_step_is_undone(d0: DashboardConfig, d: int, d1: DashboardConfig, d2: DashboardConfig)
    requires
        color_names_seq().contains(d0.user_color@),
        d1 == (DashboardConfig { user_color: d1.user_color, ..d0 }),
        d1.user_color@ == rotated_color(d0.user_color@, d),
        d2 == (DashboardConfig { user_color: d2.user_color, ..d1 }),
        d2.user_color@ == rotated_color(d1.user_color@, -d),
    ensures
        d2 == (DashboardConfig { user_color: d2.user_color, ..d0 }),
        d2.user_color@ == d0.user_color@,
{
    let names = color_names_seq();
    let k = choose|k: int| 0 <= k < names.len() && names[k] == d0.user_color@;
    color_change_is_undone(k, d);
}

proof fn global_step_is_undone(o: App, m: App, n: App, d: int)
    requires
        active_section_spec(o) == CustomizeSection::Global,
        theme_names_seq(o.config).contains(o.config.global.theme@),
        adjust_post(o, d, m),
        adjust_post(m, -d, n),
    ensures
        n == (App { config: n.config, config_dirty: true, ..o }),
        n.config == (AppConfig {
            global: GlobalConfig { theme: n.config.global.theme, ..o.config.global },
            dashboard: DashboardConfig {
                assistant_color: n.config.dashboard.assistant_color,
                user_color: n.config.dashboard.user_color,
                ..o.config.dashboard
            },
            ..o.config
        }),
        n.config.global.theme@ == o.config.global.theme@,
        n.config.dashboard.assistant_color@ == o.config.dashboard.assistant_color@,
        n.config.dashboard.user_color@ == o.config.dashboard.user_color@,
{
    assert(m.customize_section_idx == o.customize_section_idx);
    assert(m.dashboard_option_idx == o.dashboard_option_idx);
    theme_change_is_undone(o, m, d);
}

proof fn dashboard_color_step_is_undone(o: App, m: App, n: App, d: int)
    requires
        active_section_spec(o) == CustomizeSection::Dashboard,
        active_dashboard_option_spec(o) == DashboardOption::AssistantColor || active_dashboard_option_spec(o)
            == DashboardOption::UserColor,
        step_undoable(o),
        adjust_post(o, d, m),
        adjust_post(m, -d, n),
    ensures
        n == (App { config: n.config, config_dirty: true, ..o }),
        n.config == (AppConfig {
            global: GlobalConfig { theme: n.config.global.theme, ..o.config.global },
            dashboard: DashboardConfig {
                assistant_color: n.config.dashboard.assistant_color,
                user_color: n.config.dashboard.user_color,
                ..o.config.dashboard
            },
            ..o.config
        }),
        n.config.global.theme@ == o.config.global.theme@,
        n.config.dashboard.assistant_color@ == o.config.dashboard.assistant_color@,
        n.config.dashboard.user_color@ == o.config.dashboard.user_color@,
{
    assert(m.customize_section_idx == o.customize_section_idx);
    assert(m.dashboard_option_idx == o.dashboard_option_idx);
    if active_dashboard_option_spec(o) == DashboardOption::AssistantColor {
        assistant_color_step_is_undone(o.config.dashboard, d, m.config.dashboard, n.config.dashboard);
    } else {
        user_color_step_is_undone(o.config.dashboard, d, m.config.dashboard, n.config.dashboard);
    }
}

proof fn dashboard_switch_step_is_undone(o: App, m: App, n: App, d: int)
    requires
        active_section_spec(o) == CustomizeSection::Dashboard,
        active_dashboard_option_spec(o) != DashboardOption::AssistantColor,
        active_dashboard_option_spec(o) != DashboardOption::UserColor,
        step_undoable(o),
        adjust_post(o, d, m),
        adjust_post(m, -d, n),
    ensures
        n == (App { config: n.config, config_dirty: true, ..o }),
        n.config == (AppConfig {
            global: GlobalConfig { theme: n.config.global.theme, ..o.config.global },
            dashboard: DashboardConfig {
                assistant_color: n.config.dashboard.assistant_color,
                user_color: n.config.dashboard.user_color,
                ..o.config.dashboard
            },
            ..o.config
        }),
        n.config.global.theme@ == o.config.global.theme@,
        n.config.dashboard.assistant_color@ == o.config.dashboard.assistant_color@,
        n.config.dashboard.user_color@ == o.config.dashboard.user_color@,
{
    assert(m.customize_section_idx == o.customize_section_idx);
    assert(m.dashboard_option_idx == o.dashboard_option_idx);
}

/// A Customize step followed by the opposite step gives the configuration
/// back (the theme and colour names by their text), marked changed.
#[verifier::rlimit(100)]
pub proof fn customize_step_is_undone(o: App, m: App, n: App, d: int)
    requires
        step_undoable(o),
        adjust_post(o, d, m),
        adjust_post(m, -d, n),
    ensures
        n == (App { config: n.config, config_dirty: true, ..o }),
        n.config == (AppConfig {
            global: GlobalConfig { theme: n.config.global.theme, ..o.config.global },
            dashboard: DashboardConfig {
                assistant_color: n.config.dashboard.assistant_color,
                user_color: n.config.dashboard.user_color,
                ..o.config.dashboard
            },
            ..o.config
        }),
        n.config.global.theme@ == o.config.global.theme@,
        n.config.dashboard.assistant_color@ == o.config.dashboard.assistant_color@,
        n.config.dashboard.user_color@ == o.config.dashboard.user_color@,
{
    if active_section_spec(o) == CustomizeSection::Global {
        global_step_is_undone(o, m, n, d);
    } else if active_dashboard_option_spec(o) == DashboardOption::AssistantColor
        || active_dashboard_option_spec(o) == DashboardOption::UserColor {
        dashboard_color_step_is_undone(o, m, n, d);
    } else {
        dashboard_switch_step_is_undone(o, m, n, d);
    }
}


/// A step of a `[dashboard]` option of at most a million either way fits.
proof fn dashboard_option_steps_fit(dc: DashboardConfig, opt: DashboardOption, d: int)
    requires
        -1_000_000 <= d <= 1_000_000,
    ensures
        dashboard_step_fits(dc, opt, d),
{
    let names = color_names_seq();
    assert(names.len() == 14);
    if opt == DashboardOption::AssistantColor {
        lemma_match_index_bound(names, dc.assistant_color@, |a: Seq<char>, b: Seq<char>| same_name_ignore_case(a, b));
    } else if opt == DashboardOption::UserColor {
        lemma_match_index_bound(names, dc.user_color@, |a: Seq<char>, b: Seq<char>| same_name_ignore_case(a, b));
    }
}

/// In the `[dashboard]` section a step of at most a million either way
/// keeps the position arithmetic in range, so the editor takes it (and,
/// the section being unchanged by a step, the opposite step as well).
pub proof fn dashboard_steps_fit(o: App, d: int)
    requires
        active_section_spec(o) == CustomizeSection::Dashboard,
        -1_000_000 <= d <= 1_000_000,
    ensures
        adjust_fits(o, d),
{
    dashboard_option_steps_fit(o.config.dashboard, active_dashboard_option_spec(o), d);
}

/// The cube level whose intensity is `v`.
spec fn level_of(v: u8) -> int {
    if v == 0 {
        0
    } else {
        (v - 55) / 40
    }
}

/// The ANSI-256 cube index of a colour of the cube.
spec fn cube_index_of(c: ThemeColor) -> int {
    16 + 36 * level_of(c.r) + 6 * level_of(c.g) + level_of(c.b)
}

/// The position of ANSI index `x` among the base swatches.
spec fn base_position(x: int) -> int {
    if x == 196 {
        0
    } else if x == 202 {
        1
    } else if x == 208 {
        2
    } else if x == 214 {
        3
    } else if x == 220 {
        4
    } else if x == 226 {
        5
    } else if x == 190 {
        6
    } else if x == 154 {
        7
    } else if x == 118 {
        8
    } else if x == 82 {
        9
    } else if x == 46 {
        10
    } else if x == 47 {
        11
    } else if x == 84 {
        12
    } else if x == 85 {
        13
    } else if x == 86 {
        14
    } else if x == 87 {
        15
    } else if x == 45 {
        16
    } else if x == 39 {
        17
    } else if x == 33 {
        18
    } else if x == 27 {
        19
    } else if x == 21 {
        20
    } else if x == 57 {
        21
    } else if x == 93 {
        22
    } else if x == 129 {
        23
    } else if x == 165 {
        24
    } else if x == 201 {
        25
    } else if x == 200 {
        26
    } else if x == 199 {
        27
    } else if x == 171 {
        28
    } else if x == 177 {
        29
    } else if x == 183 {
        30
    } else {
        31
    }
}

/// The base swatches by position.
proof fn lemma_base_entries()
    ensures
        base_picker_seq()[0] == 196u8,
        base_picker_seq()[1] == 202u8,
        base_picker_seq()[2] == 208u8,
        base_picker_seq()[3] == 214u8,
        base_picker_seq()[4] == 220u8,
        base_picker_seq()[5] == 226u8,
        base_picker_seq()[6] == 190u8,
        base_picker_seq()[7] == 154u8,
        base_picker_seq()[8] == 118u8,
        base_picker_seq()[9] == 82u8,
        base_picker_seq()[10] == 46u8,
        base_picker_seq()[11] == 47u8,
        base_picker_seq()[12] == 84u8,
        base_picker_seq()[13] == 85u8,
        base_picker_seq()[14] == 86u8,
        base_picker_seq()[15] == 87u8,
        base_picker_seq()[16] == 45u8,
        base_picker_seq()[17] == 39u8,
        base_picker_seq()[18] == 33u8,
        base_picker_seq()[19] == 27u8,
        base_picker_seq()[20] == 21u8,
        base_picker_seq()[21] == 57u8,
        base_picker_seq()[22] == 93u8,
        base_picker_seq()[23] == 129u8,
        base_picker_seq()[24] == 165u8,
        base_picker_seq()[25] == 201u8,
        base_picker_seq()[26] == 200u8,
        base_picker_seq()[27] == 199u8,
        base_picker_seq()[28] == 171u8,
        base_picker_seq()[29] == 177u8,
        base_picker_seq()[30] == 183u8,
        base_picker_seq()[31] == 189u8,
{
}

#[verifier::spinoff_prover]
#[verifier::rlimit(60)]
proof fn lemma_swatch_position(k: int)
    requires
        0 <= k < 32,
    ensures
        base_position(cube_index_of(ansi_rgb(base_picker_seq()[k]))) == k,
{
    let s = base_picker_seq();
    lemma_base_entries();
    if k == 0 {
        assert(base_position(cube_index_of(ansi_rgb(s[0]))) == 0);
    } else if k == 1 {
        assert(base_position(cube_index_of(ansi_rgb(s[1]))) == 1);
    } else if k == 2 {
        assert(base_position(cube_index_of(ansi_rgb(s[2]))) == 2);
    } else if k == 3 {
        assert(base_position(cube_index_of(ansi_rgb(s[3]))) == 3);
    } else if k == 4 {
        assert(base_position(cube_index_of(ansi_rgb(s[4]))) == 4);
    } else if k == 5 {
        assert(base_position(cube_index_of(ansi_rgb(s[5]))) == 5);
    } else if k == 6 {
        assert(base_position(cube_index_of(ansi_rgb(s[6]))) == 6);
    } else if k == 7 {
        assert(base_position(cube_index_of(ansi_rgb(s[7]))) == 7);
    } else if k == 8 {
        assert(base_position(cube_index_of(ansi_rgb(s[8]))) == 8);
    } else if k == 9 {
        assert(base_position(cube_index_of(ansi_rgb(s[9]))) == 9);
    } else if k == 10 {
        assert(base_position(cube_index_of(ansi_rgb(s[10]))) == 10);
    } else if k == 11 {
        assert(base_position(cube_index_of(ansi_rgb(s[11]))) == 11);
    } else if k == 12 {
        assert(base_position(cube_index_of(ansi_rgb(s[12]))) == 12);
    } else if k == 13 {
        assert(base_position(cube_index_of(ansi_rgb(s[13]))) == 13);
    } else if k == 14 {
        assert(base_position(cube_index_of(ansi_rgb(s[14]))) == 14);
    } else if k == 15 {
        assert(base_position(cube_index_of(ansi_rgb(s[15]))) == 15);
    } else if k == 16 {
        assert(base_position(cube_index_of(ansi_rgb(s[16]))) == 16);
    } else if k == 17 {
        assert(base_position(cube_index_of(ansi_rgb(s[17]))) == 17);
    } else if k == 18 {
        assert(base_position(cube_index_of(ansi_rgb(s[18]))) == 18);
    } else if k == 19 {
        assert(base_position(cube_index_of(ansi_rgb(s[19]))) == 19);
    } else if k == 20 {
        assert(base_position(cube_index_of(ansi_rgb(s[20]))) == 20);
    } else if k == 21 {
        assert(base_position(cube_index_of(ansi_rgb(s[21]))) == 21);
    } else if k == 22 {
        assert(base_position(cube_index_of(ansi_rgb(s[22]))) == 22);
    } else if k == 23 {
        assert(base_position(cube_index_of(ansi_rgb(s[23]))) == 23);
    } else if k == 24 {
        assert(base_position(cube_index_of(ansi_rgb(s[24]))) == 24);
    } else if k == 25 {
        assert(base_position(cube_index_of(ansi_rgb(s[25]))) == 25);
    } else if k == 26 {
        assert(base_position(cube_index_of(ansi_rgb(s[26]))) == 26);
    } else if k == 27 {
        assert(base_position(cube_index_of(ansi_rgb(s[27]))) == 27);
    } else if k == 28 {
        assert(base_position(cube_index_of(ansi_rgb(s[28]))) == 28);
    } else if k == 29 {
        assert(base_position(cube_index_of(ansi_rgb(s[29]))) == 29);
    } else if k == 30 {
        assert(base_position(cube_index_of(ansi_rgb(s[30]))) == 30);
    } else if k == 31 {
        assert(base_position(cube_index_of(ansi_rgb(s[31]))) == 31);
    }
}

proof fn lemma_dist2_zero(a: ThemeColor, b: ThemeColor)
    ensures
        dist2(a, b) >= 0,
        dist2(a, b) == 0 ==> a == b,
{
    let dr = a.r - b.r;
    let dg = a.g - b.g;
    let db = a.b - b.b;
    assert(dr * dr >= 0 && dg * dg >= 0 && db * db >= 0) by (nonlinear_arith);
    assert(dr * dr + dg * dg + db * db == 0 ==> dr == 0 && dg == 0 && db == 0) by (nonlinear_arith);
}

/// The picker's base swatches are pairwise distinct colours, so the base
/// entry nearest to the colour of entry `i` is `i` itself and no other:
/// searching for the nearest base colour of a picked base colour finds the
/// same entry again.
pub proof fn base_swatches_are_distinct()
    ensures
        forall|i: int, j: int|
            0 <= i < 32 && 0 <= j < 32 && i != j ==> #[trigger] ansi_rgb(base_picker_seq()[i])
                != #[trigger] ansi_rgb(base_picker_seq()[j]),
        forall|i: int, r: int|
            0 <= i < 32 && #[trigger] is_first_nearest_base(ansi_rgb(base_picker_seq()[i]), r) ==> r == i,
        forall|i: int| 0 <= i < 32 ==> #[trigger] is_first_nearest_base(ansi_rgb(base_picker_seq()[i]), i),
{
    assert forall|i: int, j: int|
        0 <= i < 32 && 0 <= j < 32 && i != j implies #[trigger] ansi_rgb(base_picker_seq()[i])
            != #[trigger] ansi_rgb(base_picker_seq()[j]) by {
        lemma_swatch_position(i);
        lemma_swatch_position(j);
    }
    assert forall|i: int, r: int|
        0 <= i < 32 && #[trigger] is_first_nearest_base(ansi_rgb(base_picker_seq()[i]), r) implies r == i by {
        let c = ansi_rgb(base_picker_seq()[i]);
        lemma_dist2_zero(c, c);
        lemma_dist2_zero(c, ansi_rgb(base_picker_seq()[r]));
        assert(dist2(c, ansi_rgb(base_picker_seq()[r])) <= dist2(c, ansi_rgb(base_picker_seq()[i])));
        if r != i {
            lemma_swatch_position(i);
            lemma_swatch_position(r);
        }
    }
    assert forall|i: int| 0 <= i < 32 implies #[trigger] is_first_nearest_base(ansi_rgb(base_picker_seq()[i]), i) by {
        let c = ansi_rgb(base_picker_seq()[i]);
        lemma_dist2_zero(c, c);
        assert forall|j: int| 0 <= j < 32 implies dist2(c, ansi_rgb(base_picker_seq()[i])) <= dist2(
            c,
            #[trigger] ansi_rgb(base_picker_seq()[j]),
        ) by {
            lemma_dist2_zero(c, ansi_rgb(base_picker_seq()[j]));
        }
        assert forall|j: int| 0 <= j < i implies dist2(c, ansi_rgb(base_picker_seq()[i])) < dist2(
            c,
            #[trigger] ansi_rgb(base_picker_seq()[j]),
        ) by {
            lemma_dist2_zero(c, ansi_rgb(base_picker_seq()[j]));
            lemma_swatch_position(i);
            lemma_swatch_position(j);
        }
    }
}


/// `strip_leading` drops a prefix and leaves no blank line first.
proof fn lemma_strip_leading(s: Seq<(Seq<char>, ChatLineKind)>)
    ensures
        exists|k: int| 0 <= k <= s.len() && strip_leading(s) == s.skip(k),
        strip_leading(s).len() > 0 ==> strip_leading(s)[0] != blank_line(),
    decreases s.len(),
{
    if s.len() > 0 && s[0] == blank_line() {
        lemma_strip_leading(s.drop_first());
        let k = choose|k: int| 0 <= k <= s.drop_first().len() && strip_leading(s.drop_first()) == s.drop_first().skip(k);
        assert(s.drop_first().skip(k) =~= s.skip(k + 1));
    } else {
        assert(s.skip(0) =~= s);
    }
}

/// `strip_trailing` keeps a prefix and leaves no blank line last.
proof fn lemma_strip_trailing(s: Seq<(Seq<char>, ChatLineKind)>)
    ensures
        exists|k: int| 0 <= k <= s.len() && strip_trailing(s) == s.take(k),
        strip_trailing(s).len() > 0 ==> strip_trailing(s).last() != blank_line(),
    decreases s.len(),
{
    if s.len() > 0 && s.last() == blank_line() {
        lemma_strip_trailing(s.drop_last());
        let k = choose|k: int| 0 <= k <= s.drop_last().len() && strip_trailing(s.drop_last()) == s.drop_last().take(k);
        assert(s.drop_last().take(k) =~= s.take(k));
    } else {
        assert(s.take(s.len() as int) =~= s);
    }
}

/// A formatted chat message neither starts nor ends with a blank line.
pub proof fn chat_lines_have_no_blank_ends(text: Seq<char>)
    ensures
        chat_format(text).len() > 0 ==> chat_format(text)[0] != blank_line(),
        chat_format(text).len() > 0 ==> chat_format(text).last() != blank_line(),
{
    let a = strip_leading(fmt_seq(text, false));
    lemma_strip_leading(fmt_seq(text, false));
    lemma_strip_trailing(a);
    let k = choose|k: int| 0 <= k <= a.len() && strip_trailing(a) == a.take(k);
    if chat_format(text).len() > 0 {
        assert(chat_format(text)[0] == a[0]);
    }
}

/// How each kind of chat line looks: a code line starts with `"  | "`, a
/// language line is a tag in square brackets.
pub open spec fn well_marked(l: (Seq<char>, ChatLineKind)) -> bool {
    match l.1 {
        ChatLineKind::Code => l.0.len() >= 4 && l.0.take(4) == "  | "@,
        ChatLineKind::CodeLang => l.0.len() >= 2 && l.0[0] == '[' && l.0.last() == ']',
        ChatLineKind::Plain => true,
    }
}

proof fn lemma_segment_marked(seg: Seq<char>, in_code: bool)
    ensures
        forall|i: int| 0 <= i < segment_lines(seg, in_code).len() ==> well_marked(#[trigger] segment_lines(seg, in_code)[i]),
{
    reveal_strlit("  | ");
    assert forall|i: int| 0 <= i < segment_lines(seg, in_code).len() implies well_marked(#[trigger] segment_lines(seg, in_code)[i]) by {
        if in_code {
            let l = crate::text::split_seq(seg, '\n')[i];
            assert(("  | "@ + l).take(4) =~= "  | "@);
        }
    }
}

proof fn lemma_fmt_marked(rest: Seq<char>, in_code: bool)
    ensures
        forall|i: int| 0 <= i < fmt_seq(rest, in_code).len() ==> well_marked(#[trigger] fmt_seq(rest, in_code)[i]),
    decreases rest.len(),
{
    reveal_strlit("[");
    reveal_strlit("]");
    if rest.len() > 0 {
        match crate::tui::markdown::first_fence(rest) {
            None => lemma_segment_marked(rest, in_code),
            Some(p) => {
                if 0 <= p && p + 3 <= rest.len() {
                    let after = rest.skip(p + 3);
                    let a = segment_lines(rest.take(p), in_code);
                    lemma_segment_marked(rest.take(p), in_code);
                    if in_code {
                        let b = fmt_seq(after, false);
                        lemma_fmt_marked(after, false);
                        let r = a + seq![blank_line()] + b;
                        assert(fmt_seq(rest, in_code) == r);
                        assert forall|i: int| 0 <= i < r.len() implies well_marked(#[trigger] r[i]) by {
                            if i < a.len() {
                                assert(r[i] == a[i]);
                            } else if i > a.len() {
                                assert(r[i] == b[i - a.len() - 1]);
                            }
                        }
                    } else if crate::tui::markdown::fence_consumed(after) <= after.len() {
                        let n = crate::tui::markdown::word_len(after);
                        let lang = if n > 0 {
                            seq![("["@ + after.take(n as int) + "]"@, ChatLineKind::CodeLang)]
                        } else {
                            Seq::empty()
                        };
                        if n > 0 {
                            let tag = "["@ + after.take(n as int) + "]"@;
                            assert(tag[0] == '[' && tag.last() == ']');
                            assert(well_marked(lang[0]));
                        }
                        let rest2 = after.skip(crate::tui::markdown::fence_consumed(after) as int);
                        let b = fmt_seq(rest2, true);
                        lemma_fmt_marked(rest2, true);
                        let r = a + seq![blank_line()] + lang + b;
                        assert(fmt_seq(rest, in_code) == r);
                        assert forall|i: int| 0 <= i < r.len() implies well_marked(#[trigger] r[i]) by {
                            if i < a.len() {
                                assert(r[i] == a[i]);
                            } else if i == a.len() {
                            } else if i < a.len() + 1 + lang.len() {
                                assert(r[i] == lang[i - a.len() - 1]);
                            } else {
                                assert(r[i] == b[i - a.len() - 1 - lang.len()]);
                            }
                        }
                    }
                }
            },
        }
    }
}

/// Every line of a formatted chat message is marked as its kind says: code
/// lines start with `"  | "`, language lines are `[` tag `]`.
pub proof fn chat_lines_are_marked(text: Seq<char>)
    ensures
        forall|i: int| 0 <= i < chat_format(text).len() ==> well_marked(#[trigger] chat_format(text)[i]),
{
    let f = fmt_seq(text, false);
    lemma_fmt_marked(text, false);
    let a = strip_leading(f);
    lemma_strip_leading(f);
    let k1 = choose|k: int| 0 <= k <= f.len() && strip_leading(f) == f.skip(k);
    lemma_strip_trailing(a);
    let k2 = choose|k: int| 0 <= k <= a.len() && strip_trailing(a) == a.take(k);
    assert forall|i: int| 0 <= i < chat_format(text).len() implies well_marked(#[trigger] chat_format(text)[i]) by {
        assert(chat_format(text)[i] == f[i + k1]);
    }
}


/// The model chosen in the selector is the one chat uses; only without a
/// choice does chat fall back to the first model the agent reports running.
pub proof fn selected_model_wins(app: App)
    ensures
        app.selected_model matches Some(m) ==> effective_model_spec(app) == Some(m@),
        app.selected_model is None && (app.llm matches Some(l) && l.running_models@.len() > 0)
            ==> effective_model_spec(app) == Some(app.llm->Some_0.running_models@[0]@),
        app.selected_model is None && !(app.llm matches Some(l) && l.running_models@.len() > 0)
            ==> effective_model_spec(app) is None,
{
}

/// The File Events panel lists the first events as the agent sends them
/// (newest first), up to 20 expanded or 8 otherwise, after the line of
/// watched folders.
pub proof fn event_lines_are_newest_first(watched: Seq<Seq<char>>, recent: Seq<Seq<char>>, expanded: bool)
    requires
        recent.len() > 0,
    ensures
        event_text_spec(watched, recent, expanded).len() == 1 + if expanded {
            if recent.len() < 20 { recent.len() as int } else { 20 }
        } else {
            if recent.len() < 8 { recent.len() as int } else { 8 }
        },
        forall|i: int|
            0 <= i < recent.len() && i < (if expanded { 20int } else { 8int }) ==> #[trigger] event_text_spec(
                watched,
                recent,
                expanded,
            )[i + 1] == recent[i],
{
}

/// Resetting a `[dashboard]` option gives it the value it has in the
/// default configuration.
pub proof fn dashboard_reset_gives_default(d: DashboardConfig, opt: DashboardOption, nd: DashboardConfig, dflt: AppConfig)
    requires
        dashboard_reset(d, opt, nd),
        is_default_config(dflt),
    ensures
        opt == DashboardOption::AssistantName ==> nd.assistant_name@ == dflt.dashboard.assistant_name@,
        opt == DashboardOption::AssistantColor ==> nd.assistant_color@ == dflt.dashboard.assistant_color@,
        opt == DashboardOption::UserName ==> nd.user_name@ == dflt.dashboard.user_name@,
        opt == DashboardOption::UserColor ==> nd.user_color@ == dflt.dashboard.user_color@,
        opt == DashboardOption::LayoutPreset ==> nd.layout_preset == dflt.dashboard.layout_preset,
        opt == DashboardOption::ShowStatus ==> nd.show_status == dflt.dashboard.show_status,
        opt == DashboardOption::ShowSystem ==> nd.show_system == dflt.dashboard.show_system,
        opt == DashboardOption::ShowProcesses ==> nd.show_processes == dflt.dashboard.show_processes,
        opt == DashboardOption::ShowEvents ==> nd.show_events == dflt.dashboard.show_events,
        opt == DashboardOption::ShowFlow ==> nd.show_flow == dflt.dashboard.show_flow,
{
}

/// Normalization replaces each invalid value by the value of the same field
/// in the default configuration, and keeps each valid one.
pub proof fn normalization_falls_back_to_defaults(c: AppConfig, r: AppConfig, dflt: AppConfig)
    requires
        is_normalized_of(r, c),
        is_default_config(dflt),
    ensures
        r.global.theme@ == if theme_known(c, c.global.theme@) { c.global.theme@ } else { dflt.global.theme@ },
        r.dashboard.assistant_color@ == if bad_color(c.dashboard.assistant_color@) {
            dflt.dashboard.assistant_color@
        } else {
            c.dashboard.assistant_color@
        },
        r.dashboard.user_color@ == if bad_color(c.dashboard.user_color@) {
            dflt.dashboard.user_color@
        } else {
            c.dashboard.user_color@
        },
        r.dashboard.assistant_name@ == if trim_seq(c.dashboard.assistant_name@).len() == 0 {
            dflt.dashboard.assistant_name@
        } else {
            c.dashboard.assistant_name@
        },
        r.dashboard.user_name@ == if trim_seq(c.dashboard.user_name@).len() == 0 {
            dflt.dashboard.user_name@
        } else {
            c.dashboard.user_name@
        },
        r.modules.flow_map.active_color@ == if bad_color(c.modules.flow_map.active_color@) {
            dflt.modules.flow_map.active_color@
        } else {
            c.modules.flow_map.active_color@
        },
        r.modules.flow_map.run_color@ == if bad_color(c.modules.flow_map.run_color@) {
            dflt.modules.flow_map.run_color@
        } else {
            c.modules.flow_map.run_color@
        },
        r.modules.flow_map.wait_color@ == if bad_color(c.modules.flow_map.wait_color@) {
            dflt.modules.flow_map.wait_color@
        } else {
            c.modules.flow_map.wait_color@
        },
        r.modules.flow_map.ok_color@ == if bad_color(c.modules.flow_map.ok_color@) {
            dflt.modules.flow_map.ok_color@
        } else {
            c.modules.flow_map.ok_color@
        },
        r.modules.flow_map.err_color@ == if bad_color(c.modules.flow_map.err_color@) {
            dflt.modules.flow_map.err_color@
        } else {
            c.modules.flow_map.err_color@
        },
        r.modules.system.warn_color@ == if bad_color(c.modules.system.warn_color@) {
            dflt.modules.system.warn_color@
        } else {
            c.modules.system.warn_color@
        },
        r.modules.system.crit_color@ == if bad_color(c.modules.system.crit_color@) {
            dflt.modules.system.crit_color@
        } else {
            c.modules.system.crit_color@
        },
        bad_thresholds(c.modules.system.memory_warn_percent, c.modules.system.memory_crit_percent) ==> {
            &&& r.modules.system.memory_warn_percent == dflt.modules.system.memory_warn_percent
            &&& r.modules.system.memory_crit_percent == dflt.modules.system.memory_crit_percent
        },
        !bad_thresholds(c.modules.system.memory_warn_percent, c.modules.system.memory_crit_percent) ==> {
            &&& r.modules.system.memory_warn_percent == c.modules.system.memory_warn_percent
            &&& r.modules.system.memory_crit_percent == c.modules.system.memory_crit_percent
        },
{
}

} // verus!
