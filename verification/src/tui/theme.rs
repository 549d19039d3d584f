//! Colour themes: the six theme colours, the built-in themes and the table
//! of themes the user created.

use vstd::prelude::*;
use std::collections::BTreeMap;
use crate::text::{chars_of, owned, str_eq, views};
use crate::tui::palette::ThemeColor;

verus! {

/// A value of the configuration file that the dashboard does not interpret
/// and writes back unchanged.
#[verifier::external_type_specification]
#[verifier::external_body]
pub struct ExTomlValue(toml::Value);

/// Keys of a configuration section that the dashboard does not know, kept
/// so that saving does not lose them.
pub type Extras = BTreeMap<String, toml::Value>;

/// The six colours a theme sets.
#[derive(Clone, Copy, Debug, PartialEq, Eq, Structural)]
pub enum ThemeColorField {
    MainText,
    SecondaryText,
    Border,
    SectionTitle,
    Focus,
    Title,
}

/// A theme: its six colours and any unknown keys.
pub struct ThemePaletteConfig {
    pub main_text_color: ThemeColor,
    pub secondary_text_color: ThemeColor,
    pub border_color: ThemeColor,
    pub section_title_color: ThemeColor,
    pub focus_color: ThemeColor,
    pub title_color: ThemeColor,
    pub extra: Extras,
}

/// The six colours of a theme, in field order.
pub open spec fn palette_colors(p: ThemePaletteConfig) -> Seq<ThemeColor> {
    seq![
        p.main_text_color,
        p.secondary_text_color,
        p.border_color,
        p.section_title_color,
        p.focus_color,
        p.title_color,
    ]
}

/// The model of a theme: its colours and its unknown keys.
pub open spec fn palette_view(p: ThemePaletteConfig) -> (Seq<ThemeColor>, Map<String, toml::Value>) {
    (palette_colors(p), p.extra@)
}

/// Six colours as a theme's colour list.
pub open spec fn colors6(
    a: (u8, u8, u8),
    b: (u8, u8, u8),
    c: (u8, u8, u8),
    d: (u8, u8, u8),
    e: (u8, u8, u8),
    f: (u8, u8, u8),
) -> Seq<ThemeColor> {
    seq![
        ThemeColor { r: a.0, g: a.1, b: a.2 },
        ThemeColor { r: b.0, g: b.1, b: b.2 },
        ThemeColor { r: c.0, g: c.1, b: c.2 },
        ThemeColor { r: d.0, g: d.1, b: d.2 },
        ThemeColor { r: e.0, g: e.1, b: e.2 },
        ThemeColor { r: f.0, g: f.1, b: f.2 },
    ]
}

/// The colours of a theme that sets none.
pub open spec fn default_palette_colors() -> Seq<ThemeColor> {
    colors6((255, 255, 255), (150, 150, 150), (0, 170, 130), (100, 255, 220), (100, 255, 220), (0, 166, 128))
}

fn palette(colors: [ThemeColor; 6]) -> (p: ThemePaletteConfig)
    ensures
        palette_colors(p) == colors@,
        p.extra@ == Map::<String, toml::Value>::empty(),
{
    let p = ThemePaletteConfig {
        main_text_color: colors[0],
        secondary_text_color: colors[1],
        border_color: colors[2],
        section_title_color: colors[3],
        focus_color: colors[4],
        title_color: colors[5],
        extra: BTreeMap::new(),
    };
    assert(palette_colors(p) =~= colors@);
    p
}

impl Default for ThemePaletteConfig {
    /// The theme used when a theme sets nothing.
    fn default() -> (p: ThemePaletteConfig)
        ensures
            palette_colors(p) == default_palette_colors(),
            p.extra@ == Map::<String, toml::Value>::empty(),
    {
        let p = palette(
            [
                ThemeColor::from_u8(255, 255, 255),
                ThemeColor::from_u8(150, 150, 150),
                ThemeColor::from_u8(0, 170, 130),
                ThemeColor::from_u8(100, 255, 220),
                ThemeColor::from_u8(100, 255, 220),
                ThemeColor::from_u8(0, 166, 128),
            ],
        );
        assert(palette_colors(p) =~= default_palette_colors());
        p
    }
}

impl Clone for ThemePaletteConfig {
    /// A copy with the same colours and unknown keys.
    fn clone(&self) -> (p: ThemePaletteConfig)
        ensures
            palette_view(p) == palette_view(*self),
    {
        ThemePaletteConfig {
            main_text_color: self.main_text_color,
            secondary_text_color: self.secondary_text_color,
            border_color: self.border_color,
            section_title_color: self.section_title_color,
            focus_color: self.focus_color,
            title_color: self.title_color,
            extra: self.extra.clone(),
        }
    }
}

/// The position of a field in `palette_colors`.
pub open spec fn field_index(field: ThemeColorField) -> int {
    match field {
        ThemeColorField::MainText => 0,
        ThemeColorField::SecondaryText => 1,
        ThemeColorField::Border => 2,
        ThemeColorField::SectionTitle => 3,
        ThemeColorField::Focus => 4,
        ThemeColorField::Title => 5,
    }
}

/// The configuration key of a theme colour.
pub open spec fn field_name_seq(field: ThemeColorField) -> Seq<char> {
    match field {
        ThemeColorField::MainText => "main_text_color"@,
        ThemeColorField::SecondaryText => "secondary_text_color"@,
        ThemeColorField::Border => "border_color"@,
        ThemeColorField::SectionTitle => "section_title_color"@,
        ThemeColorField::Focus => "focus_color"@,
        ThemeColorField::Title => "title_color"@,
    }
}

/// The configuration key of a theme colour.
pub fn theme_color_field_name(field: ThemeColorField) -> (s: &'static str)
    ensures
        s@ == field_name_seq(field),
{
    match field {
        ThemeColorField::MainText => "main_text_color",
        ThemeColorField::SecondaryText => "secondary_text_color",
        ThemeColorField::Border => "border_color",
        ThemeColorField::SectionTitle => "section_title_color",
        ThemeColorField::Focus => "focus_color",
        ThemeColorField::Title => "title_color",
    }
}

/// The colour a theme sets for `field`.
pub fn theme_color_from_field(cfg: &ThemePaletteConfig, field: ThemeColorField) -> (c: ThemeColor)
    ensures
        c == palette_colors(*cfg)[field_index(field)],
{
    match field {
        ThemeColorField::MainText => cfg.main_text_color,
        ThemeColorField::SecondaryText => cfg.secondary_text_color,
        ThemeColorField::Border => cfg.border_color,
        ThemeColorField::SectionTitle => cfg.section_title_color,
        ThemeColorField::Focus => cfg.focus_color,
        ThemeColorField::Title => cfg.title_color,
    }
}

/// Sets the colour of `field`, leaving the other colours and the unknown
/// keys as they were.
pub fn theme_color_from_field_mut(cfg: &mut ThemePaletteConfig, field: ThemeColorField, color: ThemeColor)
    ensures
        palette_colors(*final(cfg)) == palette_colors(*old(cfg)).update(field_index(field), color),
        final(cfg).extra == old(cfg).extra,
{
    match field {
        ThemeColorField::MainText => cfg.main_text_color = color,
        ThemeColorField::SecondaryText => cfg.secondary_text_color = color,
        ThemeColorField::Border => cfg.border_color = color,
        ThemeColorField::SectionTitle => cfg.section_title_color = color,
        ThemeColorField::Focus => cfg.focus_color = color,
        ThemeColorField::Title => cfg.title_color = color,
    }
    assert(palette_colors(*cfg) =~= palette_colors(*old(cfg)).update(field_index(field), color));
}

/// The names of the built-in themes, in the order they are offered.
pub open spec fn builtin_names_seq() -> Seq<Seq<char>> {
    seq!["default"@, "amber"@, "ocean"@, "mono"@]
}

/// The names of the built-in themes.
pub fn builtin_theme_names() -> (r: Vec<String>)
    ensures
        views(r@) == builtin_names_seq(),
{
    let mut r: Vec<String> = Vec::new();
    r.push(owned("default"));
    r.push(owned("amber"));
    r.push(owned("ocean"));
    r.push(owned("mono"));
    assert(views(r@) =~= builtin_names_seq());
    r
}

/// The colours of the built-in theme called `name`, if there is one.
pub open spec fn builtin_colors(name: Seq<char>) -> Option<Seq<ThemeColor>> {
    if name == "amber"@ {
        Some(colors6((255, 255, 255), (160, 160, 160), (255, 215, 64), (255, 215, 64), (255, 235, 140), (255, 215, 64)))
    } else if name == "ocean"@ {
        Some(colors6((255, 255, 255), (160, 160, 160), (64, 133, 255), (130, 200, 255), (130, 255, 255), (64, 133, 255)))
    } else if name == "mono"@ {
        Some(colors6((255, 255, 255), (160, 160, 160), (140, 140, 140), (255, 255, 255), (255, 255, 255), (140, 140, 140)))
    } else if name == "default"@ {
        Some(colors6((255, 255, 255), (160, 160, 160), (40, 180, 140), (120, 255, 220), (120, 255, 220), (40, 180, 140)))
    } else {
        None
    }
}

/// The built-in theme called `name`, if there is one.
pub fn builtin_theme_config(name: &str) -> (r: Option<ThemePaletteConfig>)
    ensures
        match r {
            Some(p) => builtin_colors(name@) == Some(palette_colors(p)) && p.extra@ == Map::<
                String,
                toml::Value,
            >::empty(),
            None => builtin_colors(name@) is None,
        },
{
    if str_eq(name, "amber") {
        let p = palette(
            [
                ThemeColor::from_u8(255, 255, 255),
                ThemeColor::from_u8(160, 160, 160),
                ThemeColor::from_u8(255, 215, 64),
                ThemeColor::from_u8(255, 215, 64),
                ThemeColor::from_u8(255, 235, 140),
                ThemeColor::from_u8(255, 215, 64),
            ],
        );
        assert(palette_colors(p) =~= builtin_colors(name@)->0);
        Some(p)
    } else if str_eq(name, "ocean") {
        let p = palette(
            [
                ThemeColor::from_u8(255, 255, 255),
                ThemeColor::from_u8(160, 160, 160),
                ThemeColor::from_u8(64, 133, 255),
                ThemeColor::from_u8(130, 200, 255),
                ThemeColor::from_u8(130, 255, 255),
                ThemeColor::from_u8(64, 133, 255),
            ],
        );
        assert(palette_colors(p) =~= builtin_colors(name@)->0);
        Some(p)
    } else if str_eq(name, "mono") {
        let p = palette(
            [
                ThemeColor::from_u8(255, 255, 255),
                ThemeColor::from_u8(160, 160, 160),
                ThemeColor::from_u8(140, 140, 140),
                ThemeColor::from_u8(255, 255, 255),
                ThemeColor::from_u8(255, 255, 255),
                ThemeColor::from_u8(140, 140, 140),
            ],
        );
        assert(palette_colors(p) =~= builtin_colors(name@)->0);
        Some(p)
    } else if str_eq(name, "default") {
        let p = palette(
            [
                ThemeColor::from_u8(255, 255, 255),
                ThemeColor::from_u8(160, 160, 160),
                ThemeColor::from_u8(40, 180, 140),
                ThemeColor::from_u8(120, 255, 220),
                ThemeColor::from_u8(120, 255, 220),
                ThemeColor::from_u8(40, 180, 140),
            ],
        );
        assert(palette_colors(p) =~= builtin_colors(name@)->0);
        Some(p)
    } else {
        None
    }
}

/// Code-point order of strings (the order of `String` keys in a
/// `BTreeMap`).
pub open spec fn text_lt(a: Seq<char>, b: Seq<char>) -> bool
    decreases a.len(),
{
    if a.len() == 0 {
        b.len() > 0
    } else if b.len() == 0 {
        false
    } else if a[0] < b[0] {
        true
    } else if a[0] > b[0] {
        false
    } else {
        text_lt(a.drop_first(), b.drop_first())
    }
}

/// Exactly one of `a < b`, `a == b`, `b < a` holds.
pub proof fn lemma_text_trichotomy(a: Seq<char>, b: Seq<char>)
    ensures
        text_lt(a, b) || a == b || text_lt(b, a),
        !(text_lt(a, b) && text_lt(b, a)),
        text_lt(a, b) ==> a != b,
    decreases a.len(),
{
    if a.len() > 0 && b.len() > 0 {
        lemma_text_trichotomy(a.drop_first(), b.drop_first());
        if a[0] == b[0] && a.drop_first() == b.drop_first() {
            assert(a =~= seq![a[0]] + a.drop_first());
            assert(b =~= seq![b[0]] + b.drop_first());
        }
    } else if a.len() == 0 && b.len() == 0 {
        assert(a =~= b);
    }
}

/// The order is transitive.
pub proof fn lemma_text_transitive(a: Seq<char>, b: Seq<char>, c: Seq<char>)
    requires
        text_lt(a, b),
        text_lt(b, c),
    ensures
        text_lt(a, c),
    decreases a.len(),
{
    if a.len() > 0 && b.len() > 0 && c.len() > 0 {
        if a[0] == b[0] && b[0] == c[0] {
            lemma_text_transitive(a.drop_first(), b.drop_first(), c.drop_first());
        }
    }
}

/// How two strings compare.
pub enum TextOrder {
    Less,
    Equal,
    Greater,
}

/// Compares two strings in code-point order.
pub fn compare_text(a: &str, b: &str) -> (r: TextOrder)
    ensures
        r is Less <==> text_lt(a@, b@),
        r is Equal <==> a@ == b@,
        r is Greater <==> text_lt(b@, a@),
{
    let x = chars_of(a);
    let y = chars_of(b);
    let mut i: usize = 0;
    proof {
        lemma_text_trichotomy(a@, b@);
        assert(a@.skip(0) =~= a@);
        assert(b@.skip(0) =~= b@);
    }
    while i < x.len() && i < y.len() && x[i] == y[i]
        invariant
            x@ == a@,
            y@ == b@,
            i <= x.len(),
            i <= y.len(),
            forall|j: int| 0 <= j < i ==> x@[j] == y@[j],
            text_lt(a@, b@) == text_lt(a@.skip(i as int), b@.skip(i as int)),
            text_lt(b@, a@) == text_lt(b@.skip(i as int), a@.skip(i as int)),
        decreases x.len() - i,
    {
        assert(a@.skip(i as int).drop_first() =~= a@.skip(i + 1));
        assert(b@.skip(i as int).drop_first() =~= b@.skip(i + 1));
        i += 1;
    }
    proof {
        lemma_text_trichotomy(a@, b@);
    }
    if i < x.len() && i < y.len() {
        assert(a@ != b@) by {
            assert(a@[i as int] != b@[i as int]);
        }
        assert(a@.skip(i as int)[0] == x@[i as int]);
        assert(b@.skip(i as int)[0] == y@[i as int]);
        if x[i] < y[i] {
            TextOrder::Less
        } else {
            TextOrder::Greater
        }
    } else if i == x.len() && i == y.len() {
        assert(a@ =~= b@);
        TextOrder::Equal
    } else if i == x.len() {
        assert(a@ != b@);
        assert(a@.skip(i as int).len() == 0);
        assert(b@.skip(i as int).len() > 0);
        TextOrder::Less
    } else {
        assert(a@ != b@);
        assert(b@.skip(i as int).len() == 0);
        assert(a@.skip(i as int).len() > 0);
        TextOrder::Greater
    }
}

fn text_less(a: &str, b: &str) -> (r: bool)
    ensures
        r == text_lt(a@, b@),
{
    match compare_text(a, b) {
        TextOrder::Less => true,
        _ => false,
    }
}

/// One user theme: its name and colours.
pub struct ThemeEntry {
    pub name: String,
    pub palette: ThemePaletteConfig,
}

/// The user's themes, kept in name order with each name once (as the
/// configuration file's table of themes holds them).
pub struct ThemeTable {
    entries: Vec<ThemeEntry>,
}

/// The model of a theme table: names with theme models, in name order.
pub open spec fn table_entry_view(e: ThemeEntry) -> (Seq<char>, (Seq<ThemeColor>, Map<String, toml::Value>)) {
    (e.name@, palette_view(e.palette))
}

/// The names are strictly increasing.
pub open spec fn names_sorted(s: Seq<(Seq<char>, (Seq<ThemeColor>, Map<String, toml::Value>))>) -> bool {
    forall|i: int, j: int| 0 <= i < j < s.len() ==> text_lt(#[trigger] s[i].0, #[trigger] s[j].0)
}

/// `t` is `s` with `e` stored under `name`: the entry of that name
/// replaced, or a new entry at its place in name order.
pub open spec fn table_insert_post(
    s: Seq<(Seq<char>, (Seq<ThemeColor>, Map<String, toml::Value>))>,
    name: Seq<char>,
    e: (Seq<ThemeColor>, Map<String, toml::Value>),
    t: Seq<(Seq<char>, (Seq<ThemeColor>, Map<String, toml::Value>))>,
) -> bool {
    ||| exists|i: int| 0 <= i < s.len() && s[i].0 == name && t == s.update(i, (name, e))
    ||| ((forall|i: int| 0 <= i < s.len() ==> s[i].0 != name) && exists|p: int|
        0 <= p <= s.len() && (forall|i: int| 0 <= i < p ==> text_lt(s[i].0, name)) && (forall|i: int|
            p <= i < s.len() ==> text_lt(name, s[i].0)) && t == s.insert(p, (name, e)))
}

impl ThemeTable {
    /// The entries, in name order.
    pub closed spec fn view_seq(&self) -> Seq<(Seq<char>, (Seq<ThemeColor>, Map<String, toml::Value>))> {
        self.entries@.map_values(|e: ThemeEntry| table_entry_view(e))
    }

    /// The names, in order.
    pub open spec fn names(&self) -> Seq<Seq<char>> {
        self.view_seq().map_values(|e: (Seq<char>, (Seq<ThemeColor>, Map<String, toml::Value>))| e.0)
    }

    /// Names are in order and distinct.
    pub open spec fn wf(&self) -> bool {
        names_sorted(self.view_seq())
    }

    /// No themes.
    pub fn new() -> (t: ThemeTable)
        ensures
            t.wf(),
            t.view_seq().len() == 0,
    {
        let t = ThemeTable { entries: Vec::new() };
        assert(t.view_seq() =~= Seq::empty());
        t
    }

    /// Whether the names are in order and distinct (see `wf`); a table
    /// built by `new` and `insert` always is.
    pub fn is_ordered(&self) -> (b: bool)
        ensures
            b == self.wf(),
    {
        let n = self.entries.len();
        let ghost s = self.view_seq();
        if n < 2 {
            return true;
        }
        let mut i: usize = 1;
        while i < n
            invariant
                1 <= i <= n,
                n == s.len(),
                s == self.view_seq(),
                names_sorted(s.take(i as int)),
            decreases n - i,
        {
            if !text_less(self.entries[i - 1].name.as_str(), self.entries[i].name.as_str()) {
                proof {
                    assert(s[i - 1].0 == self.entries@[i - 1].name@);
                    assert(s[i as int].0 == self.entries@[i as int].name@);
                    assert(!text_lt(s[i - 1].0, s[i as int].0));
                }
                return false;
            }
            proof {
                let t = s.take(i as int + 1);
                assert(s[i - 1].0 == self.entries@[i - 1].name@);
                assert(s[i as int].0 == self.entries@[i as int].name@);
                assert forall|a: int, b: int| 0 <= a < b < t.len() implies text_lt(
                    #[trigger] t[a].0,
                    #[trigger] t[b].0,
                ) by {
                    if b < i {
                        assert(s.take(i as int)[a] == t[a] && s.take(i as int)[b] == t[b]);
                    } else if a < i - 1 {
                        assert(s.take(i as int)[a] == t[a] && s.take(i as int)[i - 1] == s[i - 1]);
                        lemma_text_transitive(t[a].0, s[i - 1].0, t[b].0);
                    }
                }
            }
            i += 1;
        }
        proof {
            assert(s.take(n as int) =~= s);
        }
        true
    }

    /// The number of themes.
    pub fn len(&self) -> (n: usize)
        ensures
            n == self.view_seq().len(),
    {
        self.entries.len()
    }

    /// The name of theme `i`.
    pub fn name_at(&self, i: usize) -> (s: &String)
        requires
            i < self.view_seq().len(),
        ensures
            s@ == self.view_seq()[i as int].0,
    {
        &self.entries[i].name
    }

    /// Theme `i`.
    pub fn palette_at(&self, i: usize) -> (p: &ThemePaletteConfig)
        requires
            i < self.view_seq().len(),
        ensures
            palette_view(*p) == self.view_seq()[i as int].1,
    {
        &self.entries[i].palette
    }

    /// The names, in order.
    pub fn keys(&self) -> (r: Vec<String>)
        ensures
            views(r@) == self.names(),
    {
        let mut r: Vec<String> = Vec::new();
        let mut i: usize = 0;
        while i < self.entries.len()
            invariant
                i <= self.entries@.len(),
                self.view_seq().len() == self.entries@.len(),
                views(r@) == self.names().take(i as int),
            decreases self.entries.len() - i,
        {
            let ghost before = r@;
            r.push(self.entries[i].name.clone());
            proof {
                assert(self.names()[i as int] == self.entries@[i as int].name@);
                assert(views(r@) =~= views(before).push(self.entries@[i as int].name@));
                assert(self.names().take(i + 1) =~= self.names().take(i as int).push(
                    self.names()[i as int],
                ));
            }
            i += 1;
        }
        assert(self.names().take(i as int) =~= self.names());
        r
    }

    /// The position of the theme called `name`.
    pub fn position(&self, name: &str) -> (r: Option<usize>)
        requires
            self.wf(),
        ensures
            match r {
                Some(i) => i < self.view_seq().len() && self.view_seq()[i as int].0 == name@,
                None => !self.names().contains(name@),
            },
    {
        let mut i: usize = 0;
        while i < self.entries.len()
            invariant
                i <= self.entries@.len(),
                self.view_seq().len() == self.entries@.len(),
                forall|j: int| 0 <= j < i ==> self.view_seq()[j].0 != name@,
            decreases self.entries.len() - i,
        {
            if str_eq(self.entries[i].name.as_str(), name) {
                return Some(i);
            }
            i += 1;
        }
        proof {
            if self.names().contains(name@) {
                let k = choose|k: int| 0 <= k < self.names().len() && self.names()[k] == name@;
                assert(self.view_seq()[k].0 == name@);
            }
        }
        None
    }

    /// Whether a theme is called `name`.
    pub fn contains_key(&self, name: &str) -> (r: bool)
        requires
            self.wf(),
        ensures
            r == self.names().contains(name@),
    {
        match self.position(name) {
            Some(i) => {
                assert(self.names()[i as int] == name@);
                true
            },
            None => false,
        }
    }

    /// Stores `palette` under `name`, replacing a theme of that name or
    /// adding it at its place in name order.
    pub fn insert(&mut self, name: String, palette: ThemePaletteConfig)
        requires
            old(self).wf(),
        ensures
            final(self).wf(),
            table_insert_post(old(self).view_seq(), name@, palette_view(palette), final(self).view_seq()),
    {
        let ghost s = self.view_seq();
        let ghost e = (name@, palette_view(palette));
        let mut p: usize = 0;
        while p < self.entries.len() && text_less(self.entries[p].name.as_str(), name.as_str())
            invariant
                p <= self.entries@.len(),
                s == self.view_seq(),
                s.len() == self.entries@.len(),
                names_sorted(s),
                forall|i: int| 0 <= i < p ==> text_lt(s[i].0, name@),
            decreases self.entries.len() - p,
        {
            p += 1;
        }
        if p < self.entries.len() && str_eq(self.entries[p].name.as_str(), name.as_str()) {
            let entry = ThemeEntry { name, palette };
            assert(table_entry_view(entry) == e);
            self.entries.set(p, entry);
            proof {
                assert(self.view_seq() =~= s.update(p as int, e));
                assert forall|i: int, j: int|
                    0 <= i < j < self.view_seq().len() implies text_lt(
                    #[trigger] self.view_seq()[i].0,
                    #[trigger] self.view_seq()[j].0,
                ) by {
                    assert(self.view_seq()[i].0 == s[i].0);
                    assert(self.view_seq()[j].0 == s[j].0);
                }
            }
            return;
        }
        proof {
            if p < s.len() {
                lemma_text_trichotomy(s[p as int].0, name@);
            }
            assert forall|i: int| p <= i < s.len() implies text_lt(name@, s[i].0) by {
                assert(text_lt(name@, s[p as int].0));
                if i > p {
                    assert(text_lt(s[p as int].0, s[i].0));
                    lemma_text_transitive(name@, s[p as int].0, s[i].0);
                }
            }
            assert forall|k: int| 0 <= k < s.len() implies s[k].0 != name@ by {
                if k < p {
                    lemma_text_trichotomy(s[k].0, name@);
                } else {
                    lemma_text_trichotomy(name@, s[k].0);
                }
            }
            assert(!self.names().contains(name@)) by {
                if self.names().contains(name@) {
                    let k = choose|k: int| 0 <= k < self.names().len() && self.names()[k] == name@;
                    assert(s[k].0 == name@);
                }
            }
        }
        let entry = ThemeEntry { name, palette };
        self.entries.insert(p, entry);
        proof {
            let t = self.view_seq();
            assert(t =~= s.insert(p as int, e));
            assert forall|i: int, j: int| 0 <= i < j < t.len() implies text_lt(
                #[trigger] t[i].0,
                #[trigger] t[j].0,
            ) by {
                if j < p {
                    assert(t[i] == s[i] && t[j] == s[j]);
                } else if j == p {
                    assert(t[i] == s[i]);
                } else if i < p {
                    assert(t[i] == s[i] && t[j] == s[j - 1]);
                    lemma_text_transitive(s[i].0, name@, s[j - 1].0);
                } else if i == p {
                    assert(t[j] == s[j - 1]);
                } else {
                    assert(t[i] == s[i - 1] && t[j] == s[j - 1]);
                }
            }
        }
    }
}

} // verus!
