//! Colours of the dashboard: the ANSI-256 table, the colour picker's base
//! palette and shades, and nearest-colour search.

use vstd::prelude::*;
use crate::text::{decimal_chars, decimal_seq, string_from_chars};

verus! {

/// An RGB colour.
#[derive(Clone, Copy, Debug, PartialEq, Eq, Structural)]
pub struct ThemeColor {
    pub r: u8,
    pub g: u8,
    pub b: u8,
}

impl ThemeColor {
    /// The colour with these components.
    pub fn from_u8(r: u8, g: u8, b: u8) -> (c: ThemeColor)
        ensures
            c == (ThemeColor { r, g, b }),
    {
        ThemeColor { r, g, b }
    }

    /// The ANSI-256 index the terminal shows for this colour.
    pub fn to_display_index(self) -> (i: u8)
        ensures
            is_first_nearest_ansi(self, i),
    {
        nearest_ansi256_index(self)
    }
}

impl Default for ThemeColor {
    /// White.
    fn default() -> (c: ThemeColor)
        ensures
            c == (ThemeColor { r: 255, g: 255, b: 255 }),
    {
        ThemeColor { r: 255, g: 255, b: 255 }
    }
}

/// The intensity of cube level `l < 6` of the ANSI-256 colour cube.
pub open spec fn cube_level(l: int) -> int {
    if l == 0 {
        0
    } else {
        55 + 40 * l
    }
}

/// The RGB value of ANSI-256 colour `index`: the sixteen system colours,
/// the 6x6x6 cube from 16 to 231 and the grey ramp from 232 to 255.
pub open spec fn ansi_rgb(index: u8) -> ThemeColor {
    if index < 16 {
        if index == 0 {
            ThemeColor { r: 0, g: 0, b: 0 }
        } else if index == 1 {
            ThemeColor { r: 128, g: 0, b: 0 }
        } else if index == 2 {
            ThemeColor { r: 0, g: 128, b: 0 }
        } else if index == 3 {
            ThemeColor { r: 128, g: 128, b: 0 }
        } else if index == 4 {
            ThemeColor { r: 0, g: 0, b: 128 }
        } else if index == 5 {
            ThemeColor { r: 128, g: 0, b: 128 }
        } else if index == 6 {
            ThemeColor { r: 0, g: 128, b: 128 }
        } else if index == 7 {
            ThemeColor { r: 192, g: 192, b: 192 }
        } else if index == 8 {
            ThemeColor { r: 128, g: 128, b: 128 }
        } else if index == 9 {
            ThemeColor { r: 255, g: 0, b: 0 }
        } else if index == 10 {
            ThemeColor { r: 0, g: 255, b: 0 }
        } else if index == 11 {
            ThemeColor { r: 255, g: 255, b: 0 }
        } else if index == 12 {
            ThemeColor { r: 0, g: 0, b: 255 }
        } else if index == 13 {
            ThemeColor { r: 255, g: 0, b: 255 }
        } else if index == 14 {
            ThemeColor { r: 0, g: 255, b: 255 }
        } else {
            ThemeColor { r: 255, g: 255, b: 255 }
        }
    } else if index < 232 {
        let i = index - 16;
        ThemeColor {
            r: cube_level(i / 36) as u8,
            g: cube_level((i % 36) / 6) as u8,
            b: cube_level(i % 6) as u8,
        }
    } else {
        let v = 8 + (index - 232) * 10;
        ThemeColor { r: v as u8, g: v as u8, b: v as u8 }
    }
}

fn level(l: u8) -> (v: u8)
    requires
        l < 6,
    ensures
        v as int == cube_level(l as int),
{
    if l == 0 {
        0
    } else {
        55 + 40 * l
    }
}

/// The RGB value of an ANSI-256 colour.
pub fn ansi256_rgb(index: u8) -> (c: ThemeColor)
    ensures
        c == ansi_rgb(index),
{
    if index < 16 {
        if index == 0 {
            ThemeColor::from_u8(0, 0, 0)
        } else if index == 1 {
            ThemeColor::from_u8(128, 0, 0)
        } else if index == 2 {
            ThemeColor::from_u8(0, 128, 0)
        } else if index == 3 {
            ThemeColor::from_u8(128, 128, 0)
        } else if index == 4 {
            ThemeColor::from_u8(0, 0, 128)
        } else if index == 5 {
            ThemeColor::from_u8(128, 0, 128)
        } else if index == 6 {
            ThemeColor::from_u8(0, 128, 128)
        } else if index == 7 {
            ThemeColor::from_u8(192, 192, 192)
        } else if index == 8 {
            ThemeColor::from_u8(128, 128, 128)
        } else if index == 9 {
            ThemeColor::from_u8(255, 0, 0)
        } else if index == 10 {
            ThemeColor::from_u8(0, 255, 0)
        } else if index == 11 {
            ThemeColor::from_u8(255, 255, 0)
        } else if index == 12 {
            ThemeColor::from_u8(0, 0, 255)
        } else if index == 13 {
            ThemeColor::from_u8(255, 0, 255)
        } else if index == 14 {
            ThemeColor::from_u8(0, 255, 255)
        } else {
            ThemeColor::from_u8(255, 255, 255)
        }
    } else if index < 232 {
        let i = index - 16;
        ThemeColor::from_u8(level(i / 36), level((i % 36) / 6), level(i % 6))
    } else {
        let v = 8 + (index - 232) * 10;
        ThemeColor::from_u8(v, v, v)
    }
}

/// Squared Euclidean distance between two colours.
pub open spec fn dist2(a: ThemeColor, b: ThemeColor) -> int {
    (a.r - b.r) * (a.r - b.r) + (a.g - b.g) * (a.g - b.g) + (a.b - b.b) * (a.b - b.b)
}

fn distance2(a: ThemeColor, b: ThemeColor) -> (d: i64)
    ensures
        d as int == dist2(a, b),
        0 <= d <= 3 * 255 * 255,
{
    let dr = a.r as i64 - b.r as i64;
    let dg = a.g as i64 - b.g as i64;
    let db = a.b as i64 - b.b as i64;
    assert(0 <= dr * dr <= 255 * 255) by (nonlinear_arith)
        requires
            -255 <= dr <= 255,
    ;
    assert(0 <= dg * dg <= 255 * 255) by (nonlinear_arith)
        requires
            -255 <= dg <= 255,
    ;
    assert(0 <= db * db <= 255 * 255) by (nonlinear_arith)
        requires
            -255 <= db <= 255,
    ;
    dr * dr + dg * dg + db * db
}

/// `i` is the first ANSI-256 index whose colour is nearest to `c`.
pub open spec fn is_first_nearest_ansi(c: ThemeColor, i: u8) -> bool {
    &&& forall|j: u8| dist2(c, ansi_rgb(i)) <= dist2(c, #[trigger] ansi_rgb(j))
    &&& forall|j: u8| j < i ==> dist2(c, ansi_rgb(i)) < dist2(c, #[trigger] ansi_rgb(j))
}

/// The first ANSI-256 index nearest to `c`.
pub fn nearest_ansi256_index(c: ThemeColor) -> (r: u8)
    ensures
        is_first_nearest_ansi(c, r),
{
    let mut best: u8 = 0;
    let mut best_dist: i64 = i64::MAX;
    let mut idx: u16 = 0;
    while idx < 256
        invariant
            idx <= 256,
            idx > 0 ==> best < idx,
            idx > 0 ==> best_dist == dist2(c, ansi_rgb(best)),
            idx == 0 ==> best == 0 && best_dist == i64::MAX,
            forall|j: u8| (j as int) < idx ==> best_dist <= dist2(c, #[trigger] ansi_rgb(j)),
            forall|j: u8| j < best ==> best_dist < dist2(c, #[trigger] ansi_rgb(j)),
        decreases 256 - idx,
    {
        let sw = ansi256_rgb(idx as u8);
        let dist = distance2(c, sw);
        if dist < best_dist {
            best = idx as u8;
            best_dist = dist;
        }
        idx += 1;
    }
    assert forall|j: u8| dist2(c, ansi_rgb(best)) <= dist2(c, #[trigger] ansi_rgb(j)) by {
        assert((j as int) < idx);
    }
    best
}

/// The ANSI-256 indices offered as base colours by the picker.
pub open spec fn base_picker_seq() -> Seq<u8> {
    seq![
        196u8, 202, 208, 214, 220, 226, 190, 154, 118, 82, 46, 47, 84, 85, 86, 87, 45, 39, 33, 27,
        21, 57, 93, 129, 165, 201, 200, 199, 171, 177, 183, 189,
    ]
}

/// The number of base colours in the picker.
pub fn base_palette_len() -> (n: usize)
    ensures
        n == base_picker_seq().len(),
        n == 32,
{
    32
}

/// Base index `idx`, moved into range.
pub open spec fn clamp_base(idx: usize) -> int {
    if idx < 31 {
        idx as int
    } else {
        31
    }
}

fn base_picker_at(i: usize) -> (r: u8)
    requires
        i < 32,
    ensures
        r == base_picker_seq()[i as int],
{
    let table: [u8; 32] = [
        196, 202, 208, 214, 220, 226, 190, 154, 118, 82, 46, 47, 84, 85, 86, 87, 45, 39, 33, 27, 21,
        57, 93, 129, 165, 201, 200, 199, 171, 177, 183, 189,
    ];
    assert(table@ =~= base_picker_seq());
    table[i]
}

/// The colour of base entry `idx` (the last one for larger indices).
pub fn base_palette_color_at(idx: usize) -> (c: ThemeColor)
    ensures
        c == ansi_rgb(base_picker_seq()[clamp_base(idx)]),
{
    let safe = if idx < 31 {
        idx
    } else {
        31
    };
    ansi256_rgb(base_picker_at(safe))
}

/// The display name of base entry `idx`: `ansi-` and its ANSI index.
pub fn base_palette_name(idx: usize) -> (s: String)
    ensures
        s@ == "ansi-"@ + decimal_seq(base_picker_seq()[clamp_base(idx)] as nat),
{
    let safe = if idx < 31 {
        idx
    } else {
        31
    };
    let mut v: Vec<char> = Vec::new();
    v.push('a');
    v.push('n');
    v.push('s');
    v.push('i');
    v.push('-');
    let d = decimal_chars(base_picker_at(safe) as u128);
    let mut i: usize = 0;
    while i < d.len()
        invariant
            i <= d.len(),
            v@ == seq!['a', 'n', 's', 'i', '-'] + d@.take(i as int),
        decreases d.len() - i,
    {
        v.push(d[i]);
        assert(seq!['a', 'n', 's', 'i', '-'] + d@.take(i as int) + seq![d@[i as int]] =~= seq![
            'a',
            'n',
            's',
            'i',
            '-',
        ] + d@.take(i + 1));
        i += 1;
    }
    assert(d@.take(d.len() as int) =~= d@);
    proof {
        reveal_strlit("ansi-");
        assert("ansi-"@ =~= seq!['a', 'n', 's', 'i', '-']);
    }
    string_from_chars(&v)
}

/// `n` in decimal, padded with zeros to at least three digits.
pub open spec fn pad3_seq(n: nat) -> Seq<char> {
    if n < 10 {
        seq!['0', '0'] + decimal_seq(n)
    } else if n < 100 {
        seq!['0'] + decimal_seq(n)
    } else {
        decimal_seq(n)
    }
}

/// The short label of base entry `idx`: its ANSI index in three digits.
pub fn base_palette_short(idx: usize) -> (s: String)
    ensures
        s@ == pad3_seq(base_picker_seq()[clamp_base(idx)] as nat),
{
    let safe = if idx < 31 {
        idx
    } else {
        31
    };
    let n = base_picker_at(safe);
    let d = decimal_chars(n as u128);
    let mut v: Vec<char> = Vec::new();
    if n < 10 {
        v.push('0');
        v.push('0');
    } else if n < 100 {
        v.push('0');
    }
    let ghost prefix = v@;
    let mut i: usize = 0;
    while i < d.len()
        invariant
            i <= d.len(),
            v@ == prefix + d@.take(i as int),
        decreases d.len() - i,
    {
        v.push(d[i]);
        assert(prefix + d@.take(i as int) + seq![d@[i as int]] =~= prefix + d@.take(i + 1));
        i += 1;
    }
    assert(d@.take(d.len() as int) =~= d@);
    assert(v@ =~= pad3_seq(n as nat));
    string_from_chars(&v)
}

/// `i` is the first base entry whose colour is nearest to `c`.
pub open spec fn is_first_nearest_base(c: ThemeColor, i: int) -> bool {
    &&& 0 <= i < 32
    &&& forall|j: int|
        0 <= j < 32 ==> dist2(c, ansi_rgb(base_picker_seq()[i])) <= dist2(
            c,
            #[trigger] ansi_rgb(base_picker_seq()[j]),
        )
    &&& forall|j: int|
        0 <= j < i ==> dist2(c, ansi_rgb(base_picker_seq()[i])) < dist2(
            c,
            #[trigger] ansi_rgb(base_picker_seq()[j]),
        )
}

/// The first base entry nearest to `c`.
pub fn nearest_base_palette_index(c: ThemeColor) -> (r: usize)
    ensures
        is_first_nearest_base(c, r as int),
{
    let mut best_idx: usize = 0;
    let mut best_dist: i64 = i64::MAX;
    let mut idx: usize = 0;
    while idx < 32
        invariant
            idx <= 32,
            idx > 0 ==> best_idx < idx,
            idx > 0 ==> best_dist == dist2(c, ansi_rgb(base_picker_seq()[best_idx as int])),
            idx == 0 ==> best_idx == 0 && best_dist == i64::MAX,
            forall|j: int|
                0 <= j < idx ==> best_dist <= dist2(c, #[trigger] ansi_rgb(base_picker_seq()[j])),
            forall|j: int|
                0 <= j < best_idx ==> best_dist < dist2(
                    c,
                    #[trigger] ansi_rgb(base_picker_seq()[j]),
                ),
        decreases 32 - idx,
    {
        let sw = ansi256_rgb(base_picker_at(idx));
        let dist = distance2(c, sw);
        if dist < best_dist {
            best_dist = dist;
            best_idx = idx;
        }
        idx += 1;
    }
    best_idx
}

/// Moves component `a` towards `b` by `k` eighths of the way, rounding half
/// away from zero: `round(a + (b - a) * k / 8)`.
pub open spec fn lerp_eighths(a: u8, b: u8, k: u8) -> u8 {
    ((8 * a + (b - a) * k + 4) / 8) as u8
}

proof fn lemma_lerp_range(a: u8, b: u8, k: u8)
    requires
        k <= 8,
    ensures
        0 <= 8 * a + (b - a) * k + 4,
        0 <= (8 * a + (b - a) * k + 4) / 8 <= 255,
{
    assert(0 <= 8 * a + (b - a) * k <= 8 * 255) by (nonlinear_arith)
        requires
            0 <= a <= 255,
            0 <= b <= 255,
            0 <= k <= 8,
    ;
}

fn lerp_u8(a: u8, b: u8, k: u8) -> (r: u8)
    requires
        k <= 8,
    ensures
        r == lerp_eighths(a, b, k),
{
    proof {
        lemma_lerp_range(a, b, k);
    }
    let n: i32 = 8 * (a as i32) + (b as i32 - a as i32) * (k as i32) + 4;
    (n / 8) as u8
}

/// `a` moved towards `b` by `k` eighths of the way, per component
/// (the picker only blends in steps of one eighth).
pub open spec fn blend_eighths(a: ThemeColor, b: ThemeColor, k: u8) -> ThemeColor {
    ThemeColor {
        r: lerp_eighths(a.r, b.r, k),
        g: lerp_eighths(a.g, b.g, k),
        b: lerp_eighths(a.b, b.b, k),
    }
}

/// Blends `a` towards `b` by `eighths / 8`.
pub fn blend_theme_color(a: ThemeColor, b: ThemeColor, eighths: u8) -> (r: ThemeColor)
    requires
        eighths <= 8,
    ensures
        r == blend_eighths(a, b, eighths),
{
    ThemeColor { r: lerp_u8(a.r, b.r, eighths), g: lerp_u8(a.g, b.g, eighths), b: lerp_u8(a.b, b.b, eighths) }
}

/// Shade `i < 16` of `base`: darker towards black for `i < 7` (0 darkest),
/// `base` itself at 7, lighter towards white above (15 lightest).
pub open spec fn shade_of(base: ThemeColor, i: int) -> ThemeColor {
    if i < 7 {
        blend_eighths(base, ThemeColor { r: 0, g: 0, b: 0 }, (7 - i) as u8)
    } else if i == 7 {
        base
    } else {
        blend_eighths(base, ThemeColor { r: 255, g: 255, b: 255 }, (i - 7) as u8)
    }
}

/// The sixteen shades of base entry `base_idx`.
pub fn shade_gradient_for_base(base_idx: usize) -> (r: Vec<ThemeColor>)
    ensures
        r@.len() == 16,
        forall|i: int|
            0 <= i < 16 ==> r@[i] == shade_of(
                ansi_rgb(base_picker_seq()[clamp_base(base_idx)]),
                i,
            ),
{
    let base = base_palette_color_at(base_idx);
    let mut out: Vec<ThemeColor> = Vec::new();
    let mut idx: usize = 0;
    while idx < 16
        invariant
            idx <= 16,
            base == ansi_rgb(base_picker_seq()[clamp_base(base_idx)]),
            out@.len() == idx,
            forall|i: int| 0 <= i < idx ==> out@[i] == shade_of(base, i),
        decreases 16 - idx,
    {
        let c = if idx < 7 {
            blend_theme_color(base, ThemeColor::from_u8(0, 0, 0), (7 - idx) as u8)
        } else if idx == 7 {
            base
        } else {
            blend_theme_color(base, ThemeColor::from_u8(255, 255, 255), (idx - 7) as u8)
        };
        out.push(c);
        idx += 1;
    }
    out
}

/// The first of the sixteen shades of base entry `base_idx` nearest to
/// `current`.
pub fn nearest_shade_index(base_idx: usize, current: ThemeColor) -> (r: usize)
    ensures
        r < 16,
        ({
            let base = ansi_rgb(base_picker_seq()[clamp_base(base_idx)]);
            &&& forall|j: int|
                0 <= j < 16 ==> dist2(current, shade_of(base, r as int)) <= dist2(
                    current,
                    #[trigger] shade_of(base, j),
                )
            &&& forall|j: int|
                0 <= j < r ==> dist2(current, shade_of(base, r as int)) < dist2(
                    current,
                    #[trigger] shade_of(base, j),
                )
        }),
{
    let shades = shade_gradient_for_base(base_idx);
    let ghost base = ansi_rgb(base_picker_seq()[clamp_base(base_idx)]);
    let mut best: usize = 0;
    let mut best_dist: i64 = i64::MAX;
    let mut idx: usize = 0;
    while idx < 16
        invariant
            idx <= 16,
            shades@.len() == 16,
            forall|i: int| 0 <= i < 16 ==> shades@[i] == shade_of(base, i),
            idx > 0 ==> best < idx,
            idx > 0 ==> best_dist == dist2(current, shade_of(base, best as int)),
            idx == 0 ==> best == 0 && best_dist == i64::MAX,
            forall|j: int| 0 <= j < idx ==> best_dist <= dist2(current, #[trigger] shade_of(base, j)),
            forall|j: int| 0 <= j < best ==> best_dist < dist2(current, #[trigger] shade_of(base, j)),
        decreases 16 - idx,
    {
        let dist = distance2(current, shades[idx]);
        if dist < best_dist {
            best = idx;
            best_dist = dist;
        }
        idx += 1;
    }
    best
}

} // verus!
