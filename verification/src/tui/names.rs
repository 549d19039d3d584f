//! Named colours, layout presets, and stepping through option lists.

use vstd::prelude::*;
use crate::text::{eq_ignore_ascii_case, eq_ignore_ascii_case_seq, owned, str_eq, views};

verus! {

/// The colours that configuration values may name.
#[derive(Clone, Copy, Debug, PartialEq, Eq, Structural)]
pub enum NamedColor {
    White,
    Gray,
    Red,
    Green,
    Yellow,
    Blue,
    Magenta,
    Cyan,
    LightRed,
    LightGreen,
    LightYellow,
    LightBlue,
    LightMagenta,
    LightCyan,
}

/// The colour names, in the order the editor cycles through them.
pub open spec fn color_names_seq() -> Seq<Seq<char>> {
    seq![
        "white"@,
        "gray"@,
        "red"@,
        "green"@,
        "yellow"@,
        "blue"@,
        "magenta"@,
        "cyan"@,
        "light_red"@,
        "light_green"@,
        "light_yellow"@,
        "light_blue"@,
        "light_magenta"@,
        "light_cyan"@,
    ]
}

/// The colour names.
pub fn color_names() -> (r: Vec<&'static str>)
    ensures
        r@.map_values(|s: &str| s@) == color_names_seq(),
{
    let r = vec![
        "white",
        "gray",
        "red",
        "green",
        "yellow",
        "blue",
        "magenta",
        "cyan",
        "light_red",
        "light_green",
        "light_yellow",
        "light_blue",
        "light_magenta",
        "light_cyan",
    ];
    assert(r@.map_values(|s: &str| s@) =~= color_names_seq());
    r
}

/// The colour a configuration value names (exactly, case included).
pub open spec fn named_color(name: Seq<char>) -> Option<NamedColor> {
    if name == "white"@ {
        Some(NamedColor::White)
    } else if name == "gray"@ {
        Some(NamedColor::Gray)
    } else if name == "red"@ {
        Some(NamedColor::Red)
    } else if name == "green"@ {
        Some(NamedColor::Green)
    } else if name == "yellow"@ {
        Some(NamedColor::Yellow)
    } else if name == "blue"@ {
        Some(NamedColor::Blue)
    } else if name == "magenta"@ {
        Some(NamedColor::Magenta)
    } else if name == "cyan"@ {
        Some(NamedColor::Cyan)
    } else if name == "light_red"@ {
        Some(NamedColor::LightRed)
    } else if name == "light_green"@ {
        Some(NamedColor::LightGreen)
    } else if name == "light_yellow"@ {
        Some(NamedColor::LightYellow)
    } else if name == "light_blue"@ {
        Some(NamedColor::LightBlue)
    } else if name == "light_magenta"@ {
        Some(NamedColor::LightMagenta)
    } else if name == "light_cyan"@ {
        Some(NamedColor::LightCyan)
    } else {
        None
    }
}

/// The colour `name` names, if any.
pub fn color_from_name(name: &str) -> (r: Option<NamedColor>)
    ensures
        r == named_color(name@),
{
    if str_eq(name, "white") {
        Some(NamedColor::White)
    } else if str_eq(name, "gray") {
        Some(NamedColor::Gray)
    } else if str_eq(name, "red") {
        Some(NamedColor::Red)
    } else if str_eq(name, "green") {
        Some(NamedColor::Green)
    } else if str_eq(name, "yellow") {
        Some(NamedColor::Yellow)
    } else if str_eq(name, "blue") {
        Some(NamedColor::Blue)
    } else if str_eq(name, "magenta") {
        Some(NamedColor::Magenta)
    } else if str_eq(name, "cyan") {
        Some(NamedColor::Cyan)
    } else if str_eq(name, "light_red") {
        Some(NamedColor::LightRed)
    } else if str_eq(name, "light_green") {
        Some(NamedColor::LightGreen)
    } else if str_eq(name, "light_yellow") {
        Some(NamedColor::LightYellow)
    } else if str_eq(name, "light_blue") {
        Some(NamedColor::LightBlue)
    } else if str_eq(name, "light_magenta") {
        Some(NamedColor::LightMagenta)
    } else if str_eq(name, "light_cyan") {
        Some(NamedColor::LightCyan)
    } else {
        None
    }
}

/// The index `delta` steps from `idx` in a cyclic list of `len` items.
pub open spec fn cycle(idx: int, delta: int, len: int) -> int {
    (idx + delta) % len
}

proof fn lemma_negative_mod(s: int, n: int, t: int, a: int)
    requires
        s < 0,
        n > 0,
        t == -s,
        a == t % n,
    ensures
        a == 0 ==> s % n == 0,
        a != 0 ==> s % n == n - a,
{
    let q = t / n;
    vstd::arithmetic::div_mod::lemma_fundamental_div_mod(t, n);
    assert(t == n * q + a);
    assert(0 <= a < n) by {
        vstd::arithmetic::div_mod::lemma_mod_bound(t, n);
    }
    if a == 0 {
        assert(s == (-q) * n) by (nonlinear_arith)
            requires
                t == n * q + a,
                a == 0,
                s == -t,
        ;
        vstd::arithmetic::div_mod::lemma_fundamental_div_mod_converse(s, n, -q, 0);
    } else {
        assert(s == (-q - 1) * n + (n - a)) by (nonlinear_arith)
            requires
                t == n * q + a,
                s == -t,
        ;
        vstd::arithmetic::div_mod::lemma_fundamental_div_mod_converse(s, n, -q - 1, n - a);
    }
}

fn cycle_exec(idx: usize, delta: i32, len: usize) -> (r: usize)
    requires
        idx < len,
        len <= i32::MAX,
    ensures
        r == cycle(idx as int, delta as int, len as int),
        r < len,
{
    let s: i64 = idx as i64 + delta as i64;
    let n: u64 = len as u64;
    if s >= 0 {
        let r = (s as u64) % n;
        r as usize
    } else {
        let t: u64 = (-s) as u64;
        let a: u64 = t % n;
        proof {
            lemma_negative_mod(s as int, n as int, t as int, a as int);
        }
        if a == 0 {
            0
        } else {
            (n - a) as usize
        }
    }
}

/// The first position of an item equal to `current` (by `eq`), else 0.
pub open spec fn match_index(items: Seq<Seq<char>>, current: Seq<char>, eq: spec_fn(Seq<char>, Seq<char>) -> bool) -> int {
    if exists|i: int| 0 <= i < items.len() && eq(items[i], current) {
        choose|i: int|
            0 <= i < items.len() && eq(items[i], current) && forall|j: int| 0 <= j < i ==> !eq(items[j], current)
    } else {
        0
    }
}

/// The position of the first item for which `hit` holds, else 0.
pub proof fn lemma_match_index(items: Seq<Seq<char>>, current: Seq<char>, eq: spec_fn(Seq<char>, Seq<char>) -> bool, k: int)
    requires
        0 <= k <= items.len(),
        forall|j: int| 0 <= j < k ==> !eq(items[j], current),
        k < items.len() ==> eq(items[k], current),
    ensures
        match_index(items, current, eq) == if k < items.len() {
            k
        } else {
            0
        },
{
    if k < items.len() {
        let c = choose|i: int|
            0 <= i < items.len() && eq(items[i], current) && forall|j: int| 0 <= j < i ==> !eq(items[j], current);
        assert(0 <= k < items.len() && eq(items[k], current) && forall|j: int| 0 <= j < k ==> !eq(items[j], current));
        if c < k {
            assert(!eq(items[c], current));
        } else if c > k {
            assert(!eq(items[k], current));
        }
    }
}

pub proof fn lemma_match_index_bound(items: Seq<Seq<char>>, current: Seq<char>, eq: spec_fn(Seq<char>, Seq<char>) -> bool)
    requires
        items.len() > 0,
    ensures
        0 <= match_index(items, current, eq) < items.len(),
{
    if exists|i: int| 0 <= i < items.len() && eq(items[i], current) {
        let i = choose|i: int| 0 <= i < items.len() && eq(items[i], current);
        lemma_first_match_exists(items, current, eq, i);
    }
}

proof fn lemma_first_match_exists(items: Seq<Seq<char>>, current: Seq<char>, eq: spec_fn(Seq<char>, Seq<char>) -> bool, i: int)
    requires
        0 <= i < items.len(),
        eq(items[i], current),
    ensures
        exists|k: int|
            0 <= k < items.len() && eq(items[k], current) && forall|j: int| 0 <= j < k ==> !eq(items[j], current),
    decreases i,
{
    if exists|j: int| 0 <= j < i && eq(items[j], current) {
        let j = choose|j: int| 0 <= j < i && eq(items[j], current);
        lemma_first_match_exists(items, current, eq, j);
    } else {
        assert(0 <= i < items.len() && eq(items[i], current) && forall|j: int| 0 <= j < i ==> !eq(items[j], current));
    }
}

/// Exact equality of names.
pub open spec fn same_name(a: Seq<char>, b: Seq<char>) -> bool {
    a == b
}

/// The item `delta` steps (cyclically) from the first item equal to
/// `current` (from the first item when none is).
pub open spec fn rotated_name(items: Seq<Seq<char>>, current: Seq<char>, delta: int) -> Seq<char> {
    items[cycle(
        match_index(items, current, |a: Seq<char>, b: Seq<char>| same_name(a, b)),
        delta,
        items.len() as int,
    )]
}

/// The item `delta` steps (cyclically) from the first item equal to
/// `current`, counting from the first item when none is equal; `current`
/// itself when there are no items.
pub fn rotate_name_owned(items: &Vec<String>, current: &str, delta: i32) -> (r: String)
    requires
        items@.len() <= i32::MAX,
        match_index(views(items@), current@, |a: Seq<char>, b: Seq<char>| same_name(a, b)) + delta
            <= i32::MAX,
    ensures
        items@.len() == 0 ==> r@ == current@,
        items@.len() > 0 ==> r@ == rotated_name(views(items@), current@, delta as int),
{
    if items.len() == 0 {
        return owned(current);
    }
    let mut k: usize = 0;
    while k < items.len() && !str_eq(items[k].as_str(), current)
        invariant
            k <= items@.len(),
            forall|j: int| 0 <= j < k ==> !same_name(views(items@)[j], current@),
        decreases items.len() - k,
    {
        k += 1;
    }
    proof {
        lemma_match_index(views(items@), current@, |a: Seq<char>, b: Seq<char>| same_name(a, b), k as int);
    }
    let idx = if k < items.len() {
        k
    } else {
        0
    };
    let next = cycle_exec(idx, delta, items.len());
    items[next].clone()
}

/// ASCII case-insensitive equality of names.
pub open spec fn same_name_ignore_case(a: Seq<char>, b: Seq<char>) -> bool {
    eq_ignore_ascii_case_seq(a, b)
}

/// Like `rotate_name_owned`, but names match ignoring ASCII case and an
/// empty list gives the empty name.
pub fn rotate_name<'a>(items: &Vec<&'a str>, current: &str, delta: i32) -> (r: &'a str)
    requires
        items@.len() <= i32::MAX,
        match_index(
            items@.map_values(|s: &str| s@),
            current@,
            |a: Seq<char>, b: Seq<char>| same_name_ignore_case(a, b),
        ) + delta <= i32::MAX,
    ensures
        items@.len() == 0 ==> r@ == ""@,
        items@.len() > 0 ==> r@ == items@.map_values(|s: &str| s@)[cycle(
            match_index(
                items@.map_values(|s: &str| s@),
                current@,
                |a: Seq<char>, b: Seq<char>| same_name_ignore_case(a, b),
            ),
            delta as int,
            items@.len() as int,
        )],
{
    if items.len() == 0 {
        return "";
    }
    let ghost vs = items@.map_values(|s: &str| s@);
    let mut k: usize = 0;
    while k < items.len() && !eq_ignore_ascii_case(items[k], current)
        invariant
            k <= items@.len(),
            vs == items@.map_values(|s: &str| s@),
            forall|j: int| 0 <= j < k ==> !same_name_ignore_case(vs[j], current@),
        decreases items.len() - k,
    {
        k += 1;
    }
    proof {
        lemma_match_index(
            vs,
            current@,
            |a: Seq<char>, b: Seq<char>| same_name_ignore_case(a, b),
            k as int,
        );
    }
    let idx = if k < items.len() {
        k
    } else {
        0
    };
    let next = cycle_exec(idx, delta, items.len());
    items[next]
}

/// The colour name `delta` steps from `current` in `color_names_seq`
/// (matching ignoring ASCII case; from "white" when `current` is unknown).
pub fn rotate_color_name(current: &str, delta: i32) -> (r: String)
    requires
        match_index(
            color_names_seq(),
            current@,
            |a: Seq<char>, b: Seq<char>| same_name_ignore_case(a, b),
        ) + delta <= i32::MAX,
    ensures
        r@ == color_names_seq()[cycle(
            match_index(
                color_names_seq(),
                current@,
                |a: Seq<char>, b: Seq<char>| same_name_ignore_case(a, b),
            ),
            delta as int,
            14,
        )],
{
    let names = color_names();
    proof {
        lemma_match_index_bound(
            color_names_seq(),
            current@,
            |a: Seq<char>, b: Seq<char>| same_name_ignore_case(a, b),
        );
    }
    owned(rotate_name(&names, current, delta))
}

/// How the dashboard arranges its panels.
#[derive(Clone, Copy, Debug, PartialEq, Eq, Structural)]
pub enum DashboardLayoutPreset {
    ThreeTopTwoBottom,
    LlmColumn,
}

/// `current` clamped to `max`, moved by `delta`, clamped to `0..=max`.
pub open spec fn step_spec(current: int, max: int, delta: int) -> int {
    let cur = if current < max {
        current
    } else {
        max
    };
    let next = cur + delta;
    if next < 0 {
        0
    } else if next > max {
        max
    } else {
        next
    }
}

/// Moves a selection index by `delta`, staying within `0..=max`.
pub fn step_index(current: usize, max: usize, delta: i32) -> (r: usize)
    requires
        max <= i32::MAX,
        (if current < max {
            current as int
        } else {
            max as int
        }) + delta <= i32::MAX,
    ensures
        r == step_spec(current as int, max as int, delta as int),
{
    let cur: i64 = if current < max {
        current as i64
    } else {
        max as i64
    };
    let next = cur + delta as i64;
    if next < 0 {
        0
    } else if next > max as i64 {
        max
    } else {
        next as usize
    }
}

/// The layout `delta` steps from `current`, without wrapping around.
pub fn rotate_layout(current: DashboardLayoutPreset, delta: i32) -> (r: DashboardLayoutPreset)
    requires
        (if current == DashboardLayoutPreset::ThreeTopTwoBottom {
            0int
        } else {
            1int
        }) + delta <= i32::MAX,
    ensures
        r == (if step_spec(
            (if current == DashboardLayoutPreset::ThreeTopTwoBottom {
                0int
            } else {
                1int
            }),
            1,
            delta as int,
        ) == 0 {
            DashboardLayoutPreset::ThreeTopTwoBottom
        } else {
            DashboardLayoutPreset::LlmColumn
        }),
{
    let idx: usize = match current {
        DashboardLayoutPreset::ThreeTopTwoBottom => 0,
        DashboardLayoutPreset::LlmColumn => 1,
    };
    let next = step_index(idx, 1, delta);
    if next == 0 {
        DashboardLayoutPreset::ThreeTopTwoBottom
    } else {
        DashboardLayoutPreset::LlmColumn
    }
}

/// The label of a layout.
pub fn layout_preset_label(layout: DashboardLayoutPreset) -> (s: &'static str)
    ensures
        s@ == match layout {
            DashboardLayoutPreset::ThreeTopTwoBottom => "ThreeTopTwoBottom"@,
            DashboardLayoutPreset::LlmColumn => "LlmColumn"@,
        },
{
    match layout {
        DashboardLayoutPreset::ThreeTopTwoBottom => "ThreeTopTwoBottom",
        DashboardLayoutPreset::LlmColumn => "LlmColumn",
    }
}

/// `"true"` or `"false"`.
pub fn bool_label(v: bool) -> (s: &'static str)
    ensures
        s@ == if v {
            "true"@
        } else {
            "false"@
        },
{
    if v {
        "true"
    } else {
        "false"
    }
}

} // verus!
