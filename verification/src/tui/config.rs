//! The dashboard's configuration file: its sections, their defaults, and
//! how a loaded configuration is normalized.

use vstd::prelude::*;
use std::collections::BTreeMap;
use crate::text::{concat, owned, trim_is_empty, trim_seq, views, push_str, string_from_chars, join, join_seq};
use crate::tui::names::{DashboardLayoutPreset, color_from_name, named_color};
use crate::tui::theme::{Extras, ThemePaletteConfig, ThemeTable, builtin_colors, builtin_names_seq, builtin_theme_config, builtin_theme_names, default_palette_colors, palette_view};
use crate::agent::ollama::contains_string;

verus! {

/// `[global]`: the active theme.
pub struct GlobalConfig {
    pub theme: String,
    pub extra: Extras,
}

/// `[dashboard]`: chat labels and colours, layout and visible panels.
pub struct DashboardConfig {
    pub assistant_name: String,
    pub assistant_color: String,
    pub user_name: String,
    pub user_color: String,
    pub layout_preset: DashboardLayoutPreset,
    pub show_status: bool,
    pub show_system: bool,
    pub show_processes: bool,
    pub show_events: bool,
    pub show_flow: bool,
    pub extra: Extras,
}

/// `[modules.flow_map]`: colours of the request flow panel.
pub struct FlowMapModuleConfig {
    pub colorize: bool,
    pub active_color: String,
    pub run_color: String,
    pub wait_color: String,
    pub ok_color: String,
    pub err_color: String,
    pub extra: Extras,
}

/// `[modules.system]`: memory thresholds and their colours.
pub struct SystemModuleConfig {
    pub colorize: bool,
    pub memory_warn_percent: u8,
    pub memory_crit_percent: u8,
    pub warn_color: String,
    pub crit_color: String,
    pub extra: Extras,
}

/// `[modules]`.
pub struct DashboardModulesConfig {
    pub flow_map: FlowMapModuleConfig,
    pub system: SystemModuleConfig,
    pub extra: Extras,
}

/// The whole configuration file.
pub struct AppConfig {
    pub global: GlobalConfig,
    pub dashboard: DashboardConfig,
    pub modules: DashboardModulesConfig,
    /// `[themes.<name>]`: the user's themes.
    pub themes: ThemeTable,
    pub extra: Extras,
}

impl Default for GlobalConfig {
    /// The built-in "default" theme.
    fn default() -> (c: GlobalConfig)
        ensures
            c.theme@ == "default"@,
            c.extra@ == Map::<String, toml::Value>::empty(),
    {
        GlobalConfig { theme: owned("default"), extra: BTreeMap::new() }
    }
}

impl Default for DashboardConfig {
    /// Labels "assistant" (cyan) and "you" (green), three panels on top and
    /// two below, everything shown.
    fn default() -> (c: DashboardConfig)
        ensures
            c.assistant_name@ == "assistant"@,
            c.assistant_color@ == "cyan"@,
            c.user_name@ == "you"@,
            c.user_color@ == "green"@,
            c.layout_preset == DashboardLayoutPreset::ThreeTopTwoBottom,
            c.show_status && c.show_system && c.show_processes && c.show_events && c.show_flow,
            c.extra@ == Map::<String, toml::Value>::empty(),
    {
        DashboardConfig {
            assistant_name: owned("assistant"),
            assistant_color: owned("cyan"),
            user_name: owned("you"),
            user_color: owned("green"),
            layout_preset: DashboardLayoutPreset::ThreeTopTwoBottom,
            show_status: true,
            show_system: true,
            show_processes: true,
            show_events: true,
            show_flow: true,
            extra: BTreeMap::new(),
        }
    }
}

impl Default for FlowMapModuleConfig {
    /// Colourized: active light yellow, running and waiting yellow, done
    /// light green, failed light red.
    fn default() -> (c: FlowMapModuleConfig)
        ensures
            c.colorize,
            c.active_color@ == "light_yellow"@,
            c.run_color@ == "yellow"@,
            c.wait_color@ == "yellow"@,
            c.ok_color@ == "light_green"@,
            c.err_color@ == "light_red"@,
            c.extra@ == Map::<String, toml::Value>::empty(),
    {
        FlowMapModuleConfig {
            colorize: true,
            active_color: owned("light_yellow"),
            run_color: owned("yellow"),
            wait_color: owned("yellow"),
            ok_color: owned("light_green"),
            err_color: owned("light_red"),
            extra: BTreeMap::new(),
        }
    }
}

impl Default for SystemModuleConfig {
    /// Colourized: warn at 75% memory (yellow), critical at 90% (light red).
    fn default() -> (c: SystemModuleConfig)
        ensures
            c.colorize,
            c.memory_warn_percent == 75,
            c.memory_crit_percent == 90,
            c.warn_color@ == "yellow"@,
            c.crit_color@ == "light_red"@,
            c.extra@ == Map::<String, toml::Value>::empty(),
    {
        SystemModuleConfig {
            colorize: true,
            memory_warn_percent: 75,
            memory_crit_percent: 90,
            warn_color: owned("yellow"),
            crit_color: owned("light_red"),
            extra: BTreeMap::new(),
        }
    }
}

impl Default for DashboardModulesConfig {
    /// Both modules at their defaults.
    fn default() -> (c: DashboardModulesConfig)
        ensures
            c.flow_map.colorize,
            c.flow_map.active_color@ == "light_yellow"@,
            c.flow_map.run_color@ == "yellow"@,
            c.flow_map.wait_color@ == "yellow"@,
            c.flow_map.ok_color@ == "light_green"@,
            c.flow_map.err_color@ == "light_red"@,
            c.flow_map.extra@ == Map::<String, toml::Value>::empty(),
            c.system.colorize,
            c.system.memory_warn_percent == 75,
            c.system.memory_crit_percent == 90,
            c.system.warn_color@ == "yellow"@,
            c.system.crit_color@ == "light_red"@,
            c.system.extra@ == Map::<String, toml::Value>::empty(),
            c.extra@ == Map::<String, toml::Value>::empty(),
    {
        DashboardModulesConfig {
            flow_map: FlowMapModuleConfig::default(),
            system: SystemModuleConfig::default(),
            extra: BTreeMap::new(),
        }
    }
}

/// Every section at its default and no user themes.
pub open spec fn is_default_config(c: AppConfig) -> bool {
    &&& c.global.theme@ == "default"@
    &&& c.global.extra@ == Map::<String, toml::Value>::empty()
    &&& c.dashboard.assistant_name@ == "assistant"@
    &&& c.dashboard.assistant_color@ == "cyan"@
    &&& c.dashboard.user_name@ == "you"@
    &&& c.dashboard.user_color@ == "green"@
    &&& c.dashboard.layout_preset == DashboardLayoutPreset::ThreeTopTwoBottom
    &&& c.dashboard.show_status && c.dashboard.show_system && c.dashboard.show_processes
    &&& c.dashboard.show_events && c.dashboard.show_flow
    &&& c.dashboard.extra@ == Map::<String, toml::Value>::empty()
    &&& c.modules.flow_map.colorize
    &&& c.modules.flow_map.active_color@ == "light_yellow"@
    &&& c.modules.flow_map.run_color@ == "yellow"@
    &&& c.modules.flow_map.wait_color@ == "yellow"@
    &&& c.modules.flow_map.ok_color@ == "light_green"@
    &&& c.modules.flow_map.err_color@ == "light_red"@
    &&& c.modules.flow_map.extra@ == Map::<String, toml::Value>::empty()
    &&& c.modules.system.colorize
    &&& c.modules.system.memory_warn_percent == 75
    &&& c.modules.system.memory_crit_percent == 90
    &&& c.modules.system.warn_color@ == "yellow"@
    &&& c.modules.system.crit_color@ == "light_red"@
    &&& c.modules.system.extra@ == Map::<String, toml::Value>::empty()
    &&& c.modules.extra@ == Map::<String, toml::Value>::empty()
    &&& c.themes.wf()
    &&& c.themes.view_seq().len() == 0
    &&& c.extra@ == Map::<String, toml::Value>::empty()
}

impl Default for AppConfig {
    /// Every section at its default and no user themes.
    fn default() -> (c: AppConfig)
        ensures
            is_default_config(c),
    {
        AppConfig {
            global: GlobalConfig::default(),
            dashboard: DashboardConfig::default(),
            modules: DashboardModulesConfig::default(),
            themes: ThemeTable::new(),
            extra: BTreeMap::new(),
        }
    }
}

/// The built-in names followed by the names in `keys` not among them.
pub open spec fn extra_names(keys: Seq<Seq<char>>, base: Seq<Seq<char>>) -> Seq<Seq<char>>
    decreases keys.len(),
{
    if keys.len() == 0 {
        base
    } else {
        let rest = extra_names(keys.drop_last(), base);
        if rest.contains(keys.last()) {
            rest
        } else {
            rest.push(keys.last())
        }
    }
}

/// Adding names never loses one and adds at most one per key.
pub proof fn lemma_extra_names_len(keys: Seq<Seq<char>>, base: Seq<Seq<char>>)
    ensures
        extra_names(keys, base).len() <= base.len() + keys.len(),
        extra_names(keys, base).len() >= base.len(),
    decreases keys.len(),
{
    if keys.len() > 0 {
        lemma_extra_names_len(keys.drop_last(), base);
    }
}

/// The themes one can choose: the built-in ones, then the user's themes
/// that do not share a built-in name, in name order.
pub open spec fn theme_names_seq(config: AppConfig) -> Seq<Seq<char>> {
    extra_names(config.themes.names(), builtin_names_seq())
}

/// The themes one can choose (see `theme_names_seq`).
pub fn available_theme_names(config: &AppConfig) -> (r: Vec<String>)
    ensures
        views(r@) == theme_names_seq(*config),
{
    let mut out = builtin_theme_names();
    let keys = config.themes.keys();
    let ghost kv = views(keys@);
    let mut i: usize = 0;
    while i < keys.len()
        invariant
            i <= keys@.len(),
            kv == views(keys@),
            kv == config.themes.names(),
            views(out@) == extra_names(kv.take(i as int), builtin_names_seq()),
        decreases keys.len() - i,
    {
        assert(kv.take(i + 1).drop_last() =~= kv.take(i as int));
        assert(kv.take(i + 1).last() == keys@[i as int]@);
        if !contains_string(&out, keys[i].as_str()) {
            out.push(keys[i].clone());
            assert(views(out@) =~= extra_names(kv.take(i as int), builtin_names_seq()).push(
                keys@[i as int]@,
            ));
        }
        i += 1;
    }
    assert(kv.take(keys.len() as int) =~= kv);
    out
}

/// The colours and unknown keys of the theme called `theme`: the user's
/// theme of that name, else the built-in one, else the default colours.
pub open spec fn resolved_palette(config: AppConfig, theme: Seq<char>) -> (Seq<ThemeColor>, Map<String, toml::Value>) {
    let s = config.themes.view_seq();
    if exists|i: int| 0 <= i < s.len() && s[i].0 == theme {
        s[choose|i: int| 0 <= i < s.len() && s[i].0 == theme].1
    } else {
        match builtin_colors(theme) {
            Some(c) => (c, Map::empty()),
            None => (default_palette_colors(), Map::empty()),
        }
    }
}

/// The theme called `theme` (see `resolved_palette`).
pub fn resolve_theme_palette_config(config: &AppConfig, theme: &str) -> (r: ThemePaletteConfig)
    requires
        config.themes.wf(),
    ensures
        palette_view(r) == resolved_palette(*config, theme@),
{
    let ghost s = config.themes.view_seq();
    match config.themes.position(theme) {
        Some(i) => {
            proof {
                let c = choose|k: int| 0 <= k < s.len() && s[k].0 == theme@;
                if c != i {
                    crate::tui::theme::lemma_text_trichotomy(s[c].0, s[i as int].0);
                    if c < i {
                        assert(crate::tui::theme::text_lt(s[c].0, s[i as int].0));
                    } else {
                        assert(crate::tui::theme::text_lt(s[i as int].0, s[c].0));
                    }
                }
            }
            config.themes.palette_at(i).clone()
        },
        None => {
            proof {
                if exists|k: int| 0 <= k < s.len() && s[k].0 == theme@ {
                    let k = choose|k: int| 0 <= k < s.len() && s[k].0 == theme@;
                    assert(config.themes.names()[k] == theme@);
                }
            }
            match builtin_theme_config(theme) {
                Some(p) => p,
                None => {
                    let p = ThemePaletteConfig::default();
                    p
                },
            }
        },
    }
}

use crate::tui::palette::ThemeColor;

/// Whether `theme` is a theme one can choose.
pub open spec fn theme_known(config: AppConfig, theme: Seq<char>) -> bool {
    builtin_names_seq().contains(theme) || config.themes.names().contains(theme)
}

/// A warning, when `cond` holds.
pub open spec fn warn_if(cond: bool, msg: Seq<char>) -> Seq<Seq<char>> {
    if cond {
        seq![msg]
    } else {
        Seq::empty()
    }
}

/// Whether a configured colour name is unknown.
pub open spec fn bad_color(name: Seq<char>) -> bool {
    named_color(name) is None
}

/// Whether the memory thresholds are unusable.
pub open spec fn bad_thresholds(warn: u8, crit: u8) -> bool {
    warn >= crit || crit > 100
}

/// The warnings about the `[dashboard]` section, in order.
pub open spec fn dashboard_warnings(d: DashboardConfig) -> Seq<Seq<char>> {
    warn_if(
        bad_color(d.assistant_color@),
        "assistant_color '"@ + d.assistant_color@ + "' invalid -> default"@,
    ) + warn_if(bad_color(d.user_color@), "user_color '"@ + d.user_color@ + "' invalid -> default"@)
        + warn_if(trim_seq(d.assistant_name@).len() == 0, "assistant_name empty -> default"@)
        + warn_if(trim_seq(d.user_name@).len() == 0, "user_name empty -> default"@)
}

/// The warnings about `[modules.flow_map]`, in order.
pub open spec fn flow_map_warnings(f: FlowMapModuleConfig) -> Seq<Seq<char>> {
    warn_if(bad_color(f.active_color@), "modules.flow_map.active_color invalid -> default"@)
        + warn_if(bad_color(f.run_color@), "modules.flow_map.run_color invalid -> default"@)
        + warn_if(bad_color(f.wait_color@), "modules.flow_map.wait_color invalid -> default"@)
        + warn_if(bad_color(f.ok_color@), "modules.flow_map.ok_color invalid -> default"@)
        + warn_if(bad_color(f.err_color@), "modules.flow_map.err_color invalid -> default"@)
}

/// The warnings about `[modules.system]`, in order.
pub open spec fn system_warnings(m: SystemModuleConfig) -> Seq<Seq<char>> {
    warn_if(bad_color(m.warn_color@), "modules.system.warn_color invalid -> default"@) + warn_if(
        bad_color(m.crit_color@),
        "modules.system.crit_color invalid -> default"@,
    ) + warn_if(
        bad_thresholds(m.memory_warn_percent, m.memory_crit_percent),
        "modules.system memory thresholds invalid -> defaults"@,
    )
}

/// The warnings that normalizing `cfg` reports, in order.
pub open spec fn normalize_warnings(cfg: AppConfig) -> Seq<Seq<char>> {
    warn_if(
        !theme_known(cfg, cfg.global.theme@),
        "theme '"@ + cfg.global.theme@ + "' invalid -> default"@,
    ) + dashboard_warnings(cfg.dashboard) + flow_map_warnings(cfg.modules.flow_map)
        + system_warnings(cfg.modules.system)
}

/// `value` when `keep`, else `default`.
pub open spec fn keep_or(keep: bool, value: Seq<char>, default: Seq<char>) -> Seq<char> {
    if keep {
        value
    } else {
        default
    }
}

/// `[dashboard]` normalized.
pub open spec fn dashboard_normalized(r: DashboardConfig, d: DashboardConfig) -> bool {
    &&& r.assistant_color@ == keep_or(!bad_color(d.assistant_color@), d.assistant_color@, "cyan"@)
    &&& r.user_color@ == keep_or(!bad_color(d.user_color@), d.user_color@, "green"@)
    &&& r.assistant_name@ == keep_or(
        trim_seq(d.assistant_name@).len() > 0,
        d.assistant_name@,
        "assistant"@,
    )
    &&& r.user_name@ == keep_or(trim_seq(d.user_name@).len() > 0, d.user_name@, "you"@)
    &&& r.layout_preset == d.layout_preset
    &&& r.show_status == d.show_status
    &&& r.show_system == d.show_system
    &&& r.show_processes == d.show_processes
    &&& r.show_events == d.show_events
    &&& r.show_flow == d.show_flow
    &&& r.extra == d.extra
}

/// `[modules.flow_map]` normalized.
pub open spec fn flow_map_normalized(r: FlowMapModuleConfig, f: FlowMapModuleConfig) -> bool {
    &&& r.colorize == f.colorize
    &&& r.active_color@ == keep_or(!bad_color(f.active_color@), f.active_color@, "light_yellow"@)
    &&& r.run_color@ == keep_or(!bad_color(f.run_color@), f.run_color@, "yellow"@)
    &&& r.wait_color@ == keep_or(!bad_color(f.wait_color@), f.wait_color@, "yellow"@)
    &&& r.ok_color@ == keep_or(!bad_color(f.ok_color@), f.ok_color@, "light_green"@)
    &&& r.err_color@ == keep_or(!bad_color(f.err_color@), f.err_color@, "light_red"@)
    &&& r.extra == f.extra
}

/// `[modules.system]` normalized.
pub open spec fn system_normalized(r: SystemModuleConfig, m: SystemModuleConfig) -> bool {
    &&& r.colorize == m.colorize
    &&& r.warn_color@ == keep_or(!bad_color(m.warn_color@), m.warn_color@, "yellow"@)
    &&& r.crit_color@ == keep_or(!bad_color(m.crit_color@), m.crit_color@, "light_red"@)
    &&& (if bad_thresholds(m.memory_warn_percent, m.memory_crit_percent) {
        r.memory_warn_percent == 75 && r.memory_crit_percent == 90
    } else {
        r.memory_warn_percent == m.memory_warn_percent && r.memory_crit_percent
            == m.memory_crit_percent
    })
    &&& r.extra == m.extra
}

/// `cfg` normalized: each value that is invalid is replaced by its default,
/// everything else is kept.
pub open spec fn is_normalized_of(r: AppConfig, cfg: AppConfig) -> bool {
    &&& r.global.theme@ == keep_or(theme_known(cfg, cfg.global.theme@), cfg.global.theme@, "default"@)
    &&& r.global.extra == cfg.global.extra
    &&& dashboard_normalized(r.dashboard, cfg.dashboard)
    &&& flow_map_normalized(r.modules.flow_map, cfg.modules.flow_map)
    &&& system_normalized(r.modules.system, cfg.modules.system)
    &&& r.modules.extra == cfg.modules.extra
    &&& r.themes == cfg.themes
    &&& r.extra == cfg.extra
}

fn known_theme(cfg: &AppConfig, theme: &str) -> (r: bool)
    requires
        cfg.themes.wf(),
    ensures
        r == theme_known(*cfg, theme@),
{
    let names = builtin_theme_names();
    contains_string(&names, theme) || cfg.themes.contains_key(theme)
}

fn check_color(
    value: &mut String,
    default: &str,
    warning: &str,
    warnings: &mut Vec<String>,
)
    ensures
        final(value)@ == keep_or(!bad_color(old(value)@), old(value)@, default@),
        views(final(warnings)@) == views(old(warnings)@) + warn_if(bad_color(old(value)@), warning@),
{
    if color_from_name(value.as_str()).is_none() {
        warnings.push(owned(warning));
        *value = owned(default);
        assert(views(warnings@) =~= views(old(warnings)@) + warn_if(true, warning@));
    } else {
        assert(views(warnings@) =~= views(old(warnings)@) + warn_if(false, warning@));
    }
}

fn quoted_warning(prefix: &str, value: &str, suffix: &str) -> (r: String)
    ensures
        r@ == prefix@ + value@ + suffix@,
{
    let mut v: Vec<char> = Vec::new();
    push_str(&mut v, prefix);
    push_str(&mut v, value);
    push_str(&mut v, suffix);
    string_from_chars(&v)
}

fn check_color_quoted(value: &mut String, default: &str, prefix: &str, warnings: &mut Vec<String>)
    ensures
        final(value)@ == keep_or(!bad_color(old(value)@), old(value)@, default@),
        views(final(warnings)@) == views(old(warnings)@) + warn_if(
            bad_color(old(value)@),
            prefix@ + old(value)@ + "' invalid -> default"@,
        ),
{
    if color_from_name(value.as_str()).is_none() {
        warnings.push(quoted_warning(prefix, value.as_str(), "' invalid -> default"));
        *value = owned(default);
        assert(views(warnings@) =~= views(old(warnings)@) + warn_if(
            true,
            prefix@ + old(value)@ + "' invalid -> default"@,
        ));
    } else {
        assert(views(warnings@) =~= views(old(warnings)@) + warn_if(
            false,
            prefix@ + old(value)@ + "' invalid -> default"@,
        ));
    }
}

fn check_label(value: &mut String, default: &str, warning: &str, warnings: &mut Vec<String>)
    ensures
        final(value)@ == keep_or(trim_seq(old(value)@).len() > 0, old(value)@, default@),
        views(final(warnings)@) == views(old(warnings)@) + warn_if(
            trim_seq(old(value)@).len() == 0,
            warning@,
        ),
{
    if trim_is_empty(value.as_str()) {
        warnings.push(owned(warning));
        *value = owned(default);
        assert(views(warnings@) =~= views(old(warnings)@) + warn_if(true, warning@));
    } else {
        assert(views(warnings@) =~= views(old(warnings)@) + warn_if(false, warning@));
    }
}

fn normalize_dashboard(d: &mut DashboardConfig, warnings: &mut Vec<String>)
    ensures
        dashboard_normalized(*final(d), *old(d)),
        views(final(warnings)@) == views(old(warnings)@) + dashboard_warnings(*old(d)),
{
    let ghost d0 = *d;
    let ghost w0 = views(warnings@);
    check_color_quoted(&mut d.assistant_color, "cyan", "assistant_color '", warnings);
    check_color_quoted(&mut d.user_color, "green", "user_color '", warnings);
    check_label(&mut d.assistant_name, "assistant", "assistant_name empty -> default", warnings);
    check_label(&mut d.user_name, "you", "user_name empty -> default", warnings);
    assert(views(warnings@) =~= w0 + dashboard_warnings(d0));
}

fn normalize_flow_map(f: &mut FlowMapModuleConfig, warnings: &mut Vec<String>)
    ensures
        flow_map_normalized(*final(f), *old(f)),
        views(final(warnings)@) == views(old(warnings)@) + flow_map_warnings(*old(f)),
{
    let ghost f0 = *f;
    let ghost w0 = views(warnings@);
    check_color(
        &mut f.active_color,
        "light_yellow",
        "modules.flow_map.active_color invalid -> default",
        warnings,
    );
    check_color(&mut f.run_color, "yellow", "modules.flow_map.run_color invalid -> default", warnings);
    check_color(&mut f.wait_color, "yellow", "modules.flow_map.wait_color invalid -> default", warnings);
    check_color(&mut f.ok_color, "light_green", "modules.flow_map.ok_color invalid -> default", warnings);
    check_color(&mut f.err_color, "light_red", "modules.flow_map.err_color invalid -> default", warnings);
    assert(views(warnings@) =~= w0 + flow_map_warnings(f0));
}

fn normalize_system(m: &mut SystemModuleConfig, warnings: &mut Vec<String>)
    ensures
        system_normalized(*final(m), *old(m)),
        views(final(warnings)@) == views(old(warnings)@) + system_warnings(*old(m)),
{
    let ghost m0 = *m;
    let ghost w0 = views(warnings@);
    check_color(&mut m.warn_color, "yellow", "modules.system.warn_color invalid -> default", warnings);
    check_color(&mut m.crit_color, "light_red", "modules.system.crit_color invalid -> default", warnings);
    let ghost w2 = views(warnings@);
    if m.memory_warn_percent >= m.memory_crit_percent || m.memory_crit_percent > 100 {
        warnings.push(owned("modules.system memory thresholds invalid -> defaults"));
        m.memory_warn_percent = 75;
        m.memory_crit_percent = 90;
    }
    assert(views(warnings@) =~= w2 + warn_if(
        bad_thresholds(m0.memory_warn_percent, m0.memory_crit_percent),
        "modules.system memory thresholds invalid -> defaults"@,
    ));
    assert(views(warnings@) =~= w0 + system_warnings(m0));
}

/// Replaces every invalid value of `cfg` by its default and lists what was
/// replaced: an unknown theme, unknown colour names, blank chat labels, and
/// memory thresholds where warn is not below critical or critical exceeds
/// 100 (both reset).
pub fn normalize_config(cfg: AppConfig) -> (r: (AppConfig, Vec<String>))
    requires
        cfg.themes.wf(),
    ensures
        is_normalized_of(r.0, cfg),
        views(r.1@) == normalize_warnings(cfg),
{
    let ghost c0 = cfg;
    let mut cfg = cfg;
    let mut warnings: Vec<String> = Vec::new();
    if !known_theme(&cfg, cfg.global.theme.as_str()) {
        warnings.push(quoted_warning("theme '", cfg.global.theme.as_str(), "' invalid -> default"));
        cfg.global.theme = owned("default");
    }
    let ghost w1 = views(warnings@);
    assert(w1 =~= warn_if(
        !theme_known(c0, c0.global.theme@),
        "theme '"@ + c0.global.theme@ + "' invalid -> default"@,
    ));
    normalize_dashboard(&mut cfg.dashboard, &mut warnings);
    normalize_flow_map(&mut cfg.modules.flow_map, &mut warnings);
    normalize_system(&mut cfg.modules.system, &mut warnings);
    assert(views(warnings@) =~= normalize_warnings(c0));
    (cfg, warnings)
}

/// The note shown after loading: none without warnings, otherwise
/// "config normalized: " and the warnings joined by "; ".
pub fn load_note(warnings: &Vec<String>) -> (r: Option<String>)
    ensures
        warnings@.len() == 0 ==> r is None,
        warnings@.len() > 0 ==> (r matches Some(s) && s@ == "config normalized: "@ + join_seq(
            views(warnings@),
            "; "@,
        )),
{
    if warnings.len() == 0 {
        None
    } else {
        let joined = join(warnings, "; ");
        Some(concat("config normalized: ", joined.as_str()))
    }
}

/// How reading the configuration file ended: no file, a file that could
/// not be read or parsed (with the error's text), or a parsed
/// configuration.
pub enum LoadOutcome {
    Missing,
    ReadFailed(String),
    ParseFailed(String),
    Parsed(AppConfig),
}

/// The configuration to start with and the note to show: the defaults
/// (with a note, unless the file is missing) when nothing usable was read,
/// otherwise the parsed configuration normalized, noted as `load_note`
/// says.
pub fn settle_loaded_config(outcome: LoadOutcome) -> (r: (AppConfig, Option<String>))
    requires
        outcome matches LoadOutcome::Parsed(c) ==> c.themes.wf(),
    ensures
        r.0.themes.wf(),
        match outcome {
            LoadOutcome::Missing => is_default_config(r.0) && r.1 is None,
            LoadOutcome::ReadFailed(e) => is_default_config(r.0) && (r.1 matches Some(n) && n@
                == "config read failed, using defaults: "@ + e@),
            LoadOutcome::ParseFailed(e) => is_default_config(r.0) && (r.1 matches Some(n) && n@
                == "config parse failed, using defaults: "@ + e@),
            LoadOutcome::Parsed(c) => {
                &&& is_normalized_of(r.0, c)
                &&& normalize_warnings(c).len() == 0 ==> r.1 is None
                &&& normalize_warnings(c).len() > 0 ==> (r.1 matches Some(n) && n@
                    == "config normalized: "@ + join_seq(normalize_warnings(c), "; "@))
            },
        },
{
    match outcome {
        LoadOutcome::Missing => (AppConfig::default(), None),
        LoadOutcome::ReadFailed(e) => (
            AppConfig::default(),
            Some(concat("config read failed, using defaults: ", e.as_str())),
        ),
        LoadOutcome::ParseFailed(e) => (
            AppConfig::default(),
            Some(concat("config parse failed, using defaults: ", e.as_str())),
        ),
        LoadOutcome::Parsed(c) => {
            let (cfg, warnings) = normalize_config(c);
            let note = load_note(&warnings);
            (cfg, note)
        },
    }
}

} // verus!
