use sys_tui::tui::config::{
    available_theme_names, normalize_config, resolve_theme_palette_config, settle_loaded_config,
    AppConfig, LoadOutcome,
};
use sys_tui::tui::markdown::{
    format_markdown_for_chat, parse_fence_lang, plain_line_with_inline_code, ChatLineKind,
};
use sys_tui::tui::names::{
    bool_label, color_from_name, color_names, layout_preset_label, rotate_color_name, rotate_layout,
    rotate_name, rotate_name_owned, step_index, DashboardLayoutPreset, NamedColor,
};
use sys_tui::tui::palette::{
    ansi256_rgb, base_palette_color_at, base_palette_len, base_palette_name, base_palette_short,
    blend_theme_color, nearest_ansi256_index, nearest_base_palette_index, nearest_shade_index,
    shade_gradient_for_base, ThemeColor,
};
use sys_tui::tui::panels::{centered_rect, dashboard_plan, event_text, status_text, two_digits, Panel};
use sys_tui::tui::theme::{
    builtin_theme_config, builtin_theme_names, compare_text, theme_color_field_name,
    theme_color_from_field, theme_color_from_field_mut, TextOrder, ThemeColorField,
    ThemePaletteConfig, ThemeTable,
};

fn s(v: &str) -> String {
    v.to_string()
}

fn rgb(r: u8, g: u8, b: u8) -> ThemeColor {
    ThemeColor::from_u8(r, g, b)
}

fn reference_ansi(index: u8) -> (u8, u8, u8) {
    let basic = [
        (0, 0, 0), (128, 0, 0), (0, 128, 0), (128, 128, 0), (0, 0, 128), (128, 0, 128),
        (0, 128, 128), (192, 192, 192), (128, 128, 128), (255, 0, 0), (0, 255, 0),
        (255, 255, 0), (0, 0, 255), (255, 0, 255), (0, 255, 255), (255, 255, 255),
    ];
    if index < 16 {
        basic[index as usize]
    } else if index <= 231 {
        let i = index - 16;
        let level = [0u8, 95, 135, 175, 215, 255];
        (level[(i / 36) as usize], level[((i % 36) / 6) as usize], level[(i % 6) as usize])
    } else {
        let v = 8 + (index - 232) * 10;
        (v, v, v)
    }
}

fn dist(a: ThemeColor, b: (u8, u8, u8)) -> i64 {
    let dr = a.r as i64 - b.0 as i64;
    let dg = a.g as i64 - b.1 as i64;
    let db = a.b as i64 - b.2 as i64;
    dr * dr + dg * dg + db * db
}

#[test]
fn ansi256_table_matches_xterm() {
    for i in 0..=255u8 {
        let c = ansi256_rgb(i);
        assert_eq!((c.r, c.g, c.b), reference_ansi(i), "index {i}");
    }
    let c = ansi256_rgb(196);
    assert_eq!((c.r, c.g, c.b), (255, 0, 0));
}

#[test]
fn nearest_ansi_is_the_first_closest() {
    for c in [rgb(0, 0, 0), rgb(255, 255, 255), rgb(10, 200, 30), rgb(128, 128, 128), rgb(0, 166, 128)] {
        let mut best = 0u8;
        let mut best_d = i64::MAX;
        for i in 0..=255u8 {
            let d = dist(c, reference_ansi(i));
            if d < best_d {
                best = i;
                best_d = d;
            }
        }
        assert_eq!(nearest_ansi256_index(c), best);
        assert_eq!(c.to_display_index(), best);
    }
    assert_eq!(nearest_ansi256_index(rgb(255, 255, 255)), 15);
}

#[test]
fn base_palette_names_and_clamping() {
    assert_eq!(base_palette_len(), 32);
    assert_eq!(base_palette_name(0), "ansi-196");
    assert_eq!(base_palette_name(31), "ansi-189");
    assert_eq!(base_palette_name(500), "ansi-189");
    assert_eq!(base_palette_short(9), "082");
    assert_eq!(base_palette_short(20), "021");
    let c = base_palette_color_at(0);
    assert_eq!((c.r, c.g, c.b), (255, 0, 0));
    assert_eq!(nearest_base_palette_index(rgb(255, 0, 0)), 0);
    assert_eq!(nearest_base_palette_index(rgb(0, 0, 255)), 20);
}

#[test]
fn blending_matches_float_rounding() {
    let colors = [rgb(0, 0, 0), rgb(255, 255, 255), rgb(13, 200, 77), rgb(255, 0, 128), rgb(1, 2, 3)];
    for a in colors {
        for b in colors {
            for k in 0..=8u8 {
                let t = k as f32 / 8.0;
                let lerp = |x: u8, y: u8| -> u8 {
                    let (xf, yf) = (f32::from(x), f32::from(y));
                    (xf + (yf - xf) * t).round().clamp(0.0, 255.0) as u8
                };
                let c = blend_theme_color(a, b, k);
                assert_eq!((c.r, c.g, c.b), (lerp(a.r, b.r), lerp(a.g, b.g), lerp(a.b, b.b)));
            }
        }
    }
}

#[test]
fn shades_go_from_dark_to_light() {
    let shades = shade_gradient_for_base(0);
    assert_eq!(shades.len(), 16);
    let base = base_palette_color_at(0);
    assert!(shades[7] == base);
    assert!(shades[0] == blend_theme_color(base, rgb(0, 0, 0), 7));
    assert!(shades[15] == blend_theme_color(base, rgb(255, 255, 255), 8));
    assert_eq!(nearest_shade_index(0, base), 7);
    assert_eq!(nearest_shade_index(0, rgb(0, 0, 0)), 0);
}

#[test]
fn builtin_themes() {
    assert_eq!(builtin_theme_names(), vec![s("default"), s("amber"), s("ocean"), s("mono")]);
    let amber = builtin_theme_config("amber").unwrap();
    assert!(amber.border_color == rgb(255, 215, 64));
    assert!(builtin_theme_config("nope").is_none());
    assert_eq!(theme_color_field_name(ThemeColorField::SectionTitle), "section_title_color");
    let d = ThemePaletteConfig::default();
    assert!(d.title_color == rgb(0, 166, 128));
    assert!(theme_color_from_field(&d, ThemeColorField::Border) == rgb(0, 170, 130));
    let mut m = ThemePaletteConfig::default();
    theme_color_from_field_mut(&mut m, ThemeColorField::Focus, rgb(1, 2, 3));
    assert!(m.focus_color == rgb(1, 2, 3));
    assert!(m.main_text_color == d.main_text_color);
}

#[test]
fn compare_text_orders_like_strings() {
    let words = ["", "a", "ab", "b", "B", "é", "abc", "ab c"];
    for x in words {
        for y in words {
            let expected = x.cmp(y);
            let got = compare_text(x, y);
            let same = match got {
                TextOrder::Less => expected == std::cmp::Ordering::Less,
                TextOrder::Equal => expected == std::cmp::Ordering::Equal,
                TextOrder::Greater => expected == std::cmp::Ordering::Greater,
            };
            assert!(same, "{x:?} vs {y:?}");
        }
    }
}

#[test]
fn theme_table_stays_in_name_order() {
    let mut t = ThemeTable::new();
    t.insert(s("zeta"), ThemePaletteConfig::default());
    t.insert(s("alpha"), ThemePaletteConfig::default());
    let mut p = ThemePaletteConfig::default();
    p.border_color = rgb(9, 9, 9);
    t.insert(s("mid"), p);
    assert_eq!(t.keys(), vec![s("alpha"), s("mid"), s("zeta")]);
    let mut q = ThemePaletteConfig::default();
    q.border_color = rgb(7, 7, 7);
    t.insert(s("mid"), q);
    assert_eq!(t.len(), 3);
    assert!(t.is_ordered());
    assert_eq!(t.position("mid"), Some(1));
    assert!(t.palette_at(1).border_color == rgb(7, 7, 7));
    assert!(t.contains_key("zeta"));
    assert!(!t.contains_key("omega"));
    assert_eq!(t.name_at(0), "alpha");
}

#[test]
fn user_themes_extend_the_builtin_names() {
    let mut c = AppConfig::default();
    c.themes.insert(s("mine"), ThemePaletteConfig::default());
    c.themes.insert(s("amber"), ThemePaletteConfig::default());
    assert_eq!(available_theme_names(&c), vec![s("default"), s("amber"), s("ocean"), s("mono"), s("mine")]);
    let mut p = ThemePaletteConfig::default();
    p.focus_color = rgb(1, 1, 1);
    c.themes.insert(s("amber"), p);
    assert!(resolve_theme_palette_config(&c, "amber").focus_color == rgb(1, 1, 1));
    assert!(resolve_theme_palette_config(&c, "ocean").border_color == rgb(64, 133, 255));
    assert!(resolve_theme_palette_config(&c, "unknown").border_color == rgb(0, 170, 130));
}

#[test]
fn color_names_and_rotation() {
    assert_eq!(color_names().len(), 14);
    assert!(matches!(color_from_name("light_cyan"), Some(NamedColor::LightCyan)));
    assert!(color_from_name("Cyan").is_none());
    assert_eq!(rotate_color_name("cyan", 1), "light_red");
    assert_eq!(rotate_color_name("CYAN", -1), "magenta");
    assert_eq!(rotate_color_name("white", -1), "light_cyan");
    assert_eq!(rotate_color_name("bogus", 1), "gray");
    let again = rotate_color_name(&rotate_color_name("blue", 1), -1);
    assert_eq!(again, "blue");
    assert_eq!(rotate_name(&vec![], "x", 1), "");
    assert_eq!(rotate_name(&vec!["a", "b"], "B", 3), "a");
    assert_eq!(rotate_name_owned(&vec![], "keep", 1), "keep");
    assert_eq!(rotate_name_owned(&vec![s("a"), s("b"), s("c")], "c", 1), "a");
}

#[test]
fn layout_and_selection_steps_do_not_wrap() {
    assert_eq!(rotate_layout(DashboardLayoutPreset::ThreeTopTwoBottom, 1), DashboardLayoutPreset::LlmColumn);
    assert_eq!(rotate_layout(DashboardLayoutPreset::LlmColumn, 1), DashboardLayoutPreset::LlmColumn);
    assert_eq!(rotate_layout(DashboardLayoutPreset::LlmColumn, -1), DashboardLayoutPreset::ThreeTopTwoBottom);
    assert_eq!(layout_preset_label(DashboardLayoutPreset::LlmColumn), "LlmColumn");
    assert_eq!(step_index(0, 9, -1), 0);
    assert_eq!(step_index(9, 9, 1), 9);
    assert_eq!(step_index(20, 9, -1), 8);
    assert_eq!(bool_label(true), "true");
}

#[test]
fn normalizing_replaces_invalid_values() {
    let mut c = AppConfig::default();
    c.global.theme = s("neon");
    c.dashboard.assistant_color = s("purple");
    c.dashboard.user_name = s("   ");
    c.modules.system.memory_warn_percent = 95;
    c.modules.system.memory_crit_percent = 90;
    let (n, warnings) = normalize_config(c);
    assert_eq!(n.global.theme, "default");
    assert_eq!(n.dashboard.assistant_color, "cyan");
    assert_eq!(n.dashboard.user_name, "you");
    assert_eq!((n.modules.system.memory_warn_percent, n.modules.system.memory_crit_percent), (75, 90));
    assert_eq!(
        warnings,
        vec![
            s("theme 'neon' invalid -> default"),
            s("assistant_color 'purple' invalid -> default"),
            s("user_name empty -> default"),
            s("modules.system memory thresholds invalid -> defaults"),
        ]
    );
    // Normalizing again changes nothing.
    let (again, more) = normalize_config(n);
    assert!(more.is_empty());
    assert_eq!(again.global.theme, "default");
}

#[test]
fn loading_outcomes() {
    let (c, note) = settle_loaded_config(LoadOutcome::Missing);
    assert!(note.is_none());
    assert_eq!(c.global.theme, "default");
    let (_, note) = settle_loaded_config(LoadOutcome::ReadFailed(s("denied")));
    assert_eq!(note, Some(s("config read failed, using defaults: denied")));
    let (_, note) = settle_loaded_config(LoadOutcome::ParseFailed(s("bad toml")));
    assert_eq!(note, Some(s("config parse failed, using defaults: bad toml")));
    let mut parsed = AppConfig::default();
    parsed.dashboard.user_color = s("nope");
    parsed.modules.flow_map.ok_color = s("nope");
    let (c, note) = settle_loaded_config(LoadOutcome::Parsed(parsed));
    assert_eq!(c.dashboard.user_color, "green");
    assert_eq!(c.modules.flow_map.ok_color, "light_green");
    assert_eq!(
        note,
        Some(s("config normalized: user_color 'nope' invalid -> default; modules.flow_map.ok_color invalid -> default"))
    );
    let (_, note) = settle_loaded_config(LoadOutcome::Parsed(AppConfig::default()));
    assert!(note.is_none());
}

fn lines_of(text: &str) -> Vec<(String, ChatLineKind)> {
    format_markdown_for_chat(text).into_iter().map(|l| (l.text, l.kind)).collect()
}

#[test]
fn markdown_code_fences() {
    let out = lines_of("Here:\n```rust\nfn main() {}\n```\nDone");
    assert_eq!(
        out,
        vec![
            (s("Here:"), ChatLineKind::Plain),
            (s(""), ChatLineKind::Plain),
            (s(""), ChatLineKind::Plain),
            (s("[rust]"), ChatLineKind::CodeLang),
            (s("  | fn main() {}"), ChatLineKind::Code),
            (s("  | "), ChatLineKind::Code),
            (s(""), ChatLineKind::Plain),
            (s(""), ChatLineKind::Plain),
            (s("Done"), ChatLineKind::Plain),
        ]
    );
    assert!(lines_of("").is_empty());
    assert!(lines_of("\n\n").is_empty());
    assert_eq!(parse_fence_lang("py\nx"), (Some(s("py")), 3));
    assert_eq!(parse_fence_lang("\nx"), (None, 1));
}

#[test]
fn fence_tag_length_counts_bytes() {
    assert_eq!(parse_fence_lang("é\n"), (Some(s("é")), 3));
    assert_eq!(parse_fence_lang("é"), (Some(s("é")), 2));
    assert_eq!(parse_fence_lang(""), (None, 0));
    assert_eq!(parse_fence_lang("rust main"), (Some(s("rust")), 5));
}

#[test]
fn inline_code_spans() {
    let spans: Vec<(String, bool)> =
        plain_line_with_inline_code("run `ls -l` now").into_iter().map(|x| (x.text, x.code)).collect();
    assert_eq!(spans, vec![(s("run "), false), (s("ls -l"), true), (s(" now"), false)]);
}

#[test]
fn panel_layouts() {
    let mut c = AppConfig::default();
    let p = dashboard_plan(&c.dashboard);
    assert_eq!(p.top, vec![75, 25]);
    assert_eq!(p.bottom, vec![(Panel::Llm, 52), (Panel::Events, 24), (Panel::Flow, 24)]);
    assert!(p.right.is_empty());
    c.dashboard.layout_preset = DashboardLayoutPreset::LlmColumn;
    c.dashboard.show_flow = false;
    c.dashboard.show_processes = false;
    let p = dashboard_plan(&c.dashboard);
    assert_eq!(p.top, vec![100]);
    assert_eq!(p.bottom, vec![(Panel::Events, 100)]);
    assert_eq!(p.right, vec![58, 42]);
    assert_eq!(centered_rect(78), (11, 78, 11));
    assert_eq!(two_digits(7), "07");
    assert_eq!(two_digits(16), "16");
}

#[test]
fn status_and_event_text() {
    let lines = status_text("http://h/state", Some(12), Some((s("mini"), 3, 99)), &None);
    assert_eq!(lines, vec![s("endpoint: http://h/state"), s("last fetch: 12 ms ago"), s("host: mini"), s("seq: 3"), s("ts_ms: 99"), s("error: none")]);
    let lines = status_text("e", None, None, &Some(s("boom")));
    assert_eq!(lines, vec![s("endpoint: e"), s("last fetch: never"), s("host: (no data)"), s("error: boom")]);
    let events: Vec<String> = (0..30).map(|i| format!("ev{i}")).collect();
    let short = event_text(&vec![s("/a"), s("/b")], &events, false);
    assert_eq!(short.len(), 9);
    assert_eq!(short[0], "watching: /a, /b");
    assert_eq!(event_text(&vec![], &events, true).len(), 21);
    assert_eq!(event_text(&vec![], &vec![], true), vec![s("watching: (none)"), s("no recent file events")]);
}

#[test]
fn base_swatches_find_themselves() {
    for i in 0..base_palette_len() {
        assert_eq!(nearest_base_palette_index(base_palette_color_at(i)), i);
        for j in 0..i {
            assert_ne!(base_palette_color_at(i), base_palette_color_at(j));
        }
    }
}

#[test]
fn formatted_chat_has_no_blank_ends_and_marked_code() {
    let lines = format_markdown_for_chat("\n\nbefore\n```sh\nls\n\npwd\n```\n\n");
    assert!(!lines.is_empty());
    let first = &lines[0];
    let last = &lines[lines.len() - 1];
    assert!(!(first.text.is_empty() && first.kind == ChatLineKind::Plain));
    assert!(!(last.text.is_empty() && last.kind == ChatLineKind::Plain));
    for l in &lines {
        match l.kind {
            ChatLineKind::Code => assert!(l.text.starts_with("  | ")),
            ChatLineKind::CodeLang => assert!(l.text.starts_with('[') && l.text.ends_with(']')),
            ChatLineKind::Plain => {}
        }
    }
    assert!(lines.iter().any(|l| l.kind == ChatLineKind::CodeLang && l.text == "[sh]"));
}
