//! A small markdown reader for the chat window: fenced code blocks become
//! indented code lines with a language tag, and inline code is marked.

use vstd::prelude::*;
use vstd::utf8::encode_utf8;
use crate::text::{chars_of, is_whitespace, is_ws, slice_chars, split_chars, split_seq, string_from_chars};

verus! {

/// How a chat line is shown.
#[derive(Clone, Copy, Debug, PartialEq, Eq, Structural)]
pub enum ChatLineKind {
    /// Ordinary text (inline code is marked within it).
    Plain,
    /// A line of a fenced code block.
    Code,
    /// The language tag of a fenced code block.
    CodeLang,
}

/// One line of a formatted chat message.
pub struct ChatLine {
    pub text: String,
    pub kind: ChatLineKind,
}

/// The model of a chat line.
pub open spec fn line_view(l: ChatLine) -> (Seq<char>, ChatLineKind) {
    (l.text@, l.kind)
}

/// The models of chat lines.
pub open spec fn lines_view(s: Seq<ChatLine>) -> Seq<(Seq<char>, ChatLineKind)> {
    s.map_values(|l: ChatLine| line_view(l))
}

/// Whether a code fence (three backticks) starts at `k`.
pub open spec fn is_fence_at(s: Seq<char>, k: int) -> bool {
    0 <= k && k + 3 <= s.len() && s[k] == '`' && s[k + 1] == '`' && s[k + 2] == '`'
}

/// The position of the first code fence.
pub open spec fn first_fence(s: Seq<char>) -> Option<int>
    decreases s.len(),
{
    if s.len() < 3 {
        None
    } else if is_fence_at(s, 0) {
        Some(0)
    } else {
        match first_fence(s.drop_first()) {
            Some(p) => Some(p + 1),
            None => None,
        }
    }
}

proof fn lemma_first_fence(s: Seq<char>, p: int)
    requires
        0 <= p <= s.len(),
        forall|k: int| 0 <= k < p ==> !is_fence_at(s, k),
        is_fence_at(s, p) || p + 3 > s.len(),
    ensures
        first_fence(s) == if is_fence_at(s, p) {
            Some(p)
        } else {
            None::<int>
        },
    decreases p,
{
    if s.len() >= 3 && !is_fence_at(s, 0) {
        assert forall|k: int| 0 <= k < p - 1 implies !is_fence_at(s.drop_first(), k) by {
            assert(!is_fence_at(s, k + 1));
        }
        if p > 0 {
            lemma_first_fence(s.drop_first(), p - 1);
            assert(is_fence_at(s, p) == is_fence_at(s.drop_first(), p - 1));
        }
    }
}

/// The number of leading characters that are not whitespace.
pub open spec fn word_len(s: Seq<char>) -> nat
    decreases s.len(),
{
    if s.len() == 0 || is_ws(s[0]) {
        0
    } else {
        1 + word_len(s.drop_first())
    }
}

/// How many characters the language tag after a fence takes up: the tag
/// and the whitespace character that ends it, if any.
pub open spec fn fence_consumed(s: Seq<char>) -> nat {
    if word_len(s) < s.len() {
        word_len(s) + 1
    } else {
        word_len(s)
    }
}

proof fn lemma_word_len(s: Seq<char>, n: int)
    requires
        0 <= n <= s.len(),
        forall|k: int| 0 <= k < n ==> !is_ws(s[k]),
        n < s.len() ==> is_ws(s[n]),
    ensures
        word_len(s) == n,
    decreases n,
{
    if n > 0 {
        lemma_word_len(s.drop_first(), n - 1);
    }
}

/// The language tag after a fence (`None` when there is none) and how
/// many bytes of UTF-8 it takes up: the bytes of the characters that
/// `fence_consumed` counts.
pub fn parse_fence_lang(input: &str) -> (r: (Option<String>, usize))
    ensures
        r.1 == encode_utf8(input@.take(fence_consumed(input@) as int)).len() as usize,
        word_len(input@) == 0 ==> r.0 is None,
        word_len(input@) > 0 ==> (r.0 matches Some(l) && l@ == input@.take(word_len(input@) as int)),
{
    let v = chars_of(input);
    let (n, consumed) = word_bounds(&v, 0);
    proof {
        assert(v@.skip(0) =~= v@);
    }
    let taken = string_from_chars(&slice_chars(&v, 0, consumed));
    proof {
        assert(taken@ =~= input@.take(fence_consumed(input@) as int));
    }
    let bytes = taken.as_str().len();
    if n == 0 {
        (None, bytes)
    } else {
        let w = slice_chars(&v, 0, n);
        (Some(string_from_chars(&w)), bytes)
    }
}

fn word_bounds(v: &Vec<char>, from: usize) -> (r: (usize, usize))
    requires
        from <= v.len(),
    ensures
        r.0 == word_len(v@.skip(from as int)),
        r.1 == fence_consumed(v@.skip(from as int)),
        from + r.1 <= v.len(),
{
    let mut j = from;
    while j < v.len() && !is_whitespace(v[j])
        invariant
            from <= j <= v.len(),
            forall|k: int| from <= k < j ==> !is_ws(v@[k]),
        decreases v.len() - j,
    {
        j += 1;
    }
    proof {
        let s = v@.skip(from as int);
        lemma_word_len(s, j - from);
    }
    let n = j - from;
    if j < v.len() {
        (n, n + 1)
    } else {
        (n, n)
    }
}

/// The lines of one segment between fences: one line per `\n`-separated
/// piece, indented with `"  | "` inside a code block; none for an empty
/// segment.
pub open spec fn segment_lines(seg: Seq<char>, in_code: bool) -> Seq<(Seq<char>, ChatLineKind)> {
    if seg.len() == 0 {
        Seq::empty()
    } else {
        split_seq(seg, '\n').map_values(
            |l: Seq<char>|
                if in_code {
                    ("  | "@ + l, ChatLineKind::Code)
                } else {
                    (l, ChatLineKind::Plain)
                },
        )
    }
}

/// An empty plain line.
pub open spec fn blank_line() -> (Seq<char>, ChatLineKind) {
    (Seq::empty(), ChatLineKind::Plain)
}

/// The lines of `rest`, read from outside (`in_code` false) or inside a
/// code block: text up to the next fence forms a segment; a closing fence
/// adds a blank line; an opening fence adds a blank line and, when a
/// language follows it, the line `[lang]`.
pub open spec fn fmt_seq(rest: Seq<char>, in_code: bool) -> Seq<(Seq<char>, ChatLineKind)>
    decreases rest.len(),
{
    if rest.len() == 0 {
        Seq::empty()
    } else {
        match first_fence(rest) {
            None => segment_lines(rest, in_code),
            Some(p) => if 0 <= p && p + 3 <= rest.len() {
                let after = rest.skip(p + 3);
                if in_code {
                    segment_lines(rest.take(p), true) + seq![blank_line()] + fmt_seq(after, false)
                } else {
                    let n = word_len(after);
                    let lang = if n > 0 {
                        seq![("["@ + after.take(n as int) + "]"@, ChatLineKind::CodeLang)]
                    } else {
                        Seq::empty()
                    };
                    if fence_consumed(after) <= after.len() {
                        segment_lines(rest.take(p), false) + seq![blank_line()] + lang + fmt_seq(
                            after.skip(fence_consumed(after) as int),
                            true,
                        )
                    } else {
                        Seq::empty()
                    }
                }
            } else {
                Seq::empty()
            },
        }
    }
}

/// `s` without its leading blank lines.
pub open spec fn strip_leading(s: Seq<(Seq<char>, ChatLineKind)>) -> Seq<(Seq<char>, ChatLineKind)>
    decreases s.len(),
{
    if s.len() > 0 && s[0] == blank_line() {
        strip_leading(s.drop_first())
    } else {
        s
    }
}

/// `s` without its trailing blank lines.
pub open spec fn strip_trailing(s: Seq<(Seq<char>, ChatLineKind)>) -> Seq<(Seq<char>, ChatLineKind)>
    decreases s.len(),
{
    if s.len() > 0 && s.last() == blank_line() {
        strip_trailing(s.drop_last())
    } else {
        s
    }
}

/// The chat lines of a message.
pub open spec fn chat_format(text: Seq<char>) -> Seq<(Seq<char>, ChatLineKind)> {
    strip_trailing(strip_leading(fmt_seq(text, false)))
}

/// Appends the lines of one segment (see `segment_lines`).
pub fn append_segment(seg: &Vec<char>, in_code: bool, out: &mut Vec<ChatLine>)
    ensures
        lines_view(final(out)@) == lines_view(old(out)@) + segment_lines(seg@, in_code),
{
    if seg.len() == 0 {
        assert(lines_view(out@) =~= lines_view(old(out)@) + segment_lines(seg@, in_code));
        return;
    }
    let pieces = split_chars(seg, '\n');
    let ghost pv = pieces@.map_values(|p: Vec<char>| p@);
    let ghost target = segment_lines(seg@, in_code);
    let mut i: usize = 0;
    while i < pieces.len()
        invariant
            i <= pieces@.len(),
            pv == pieces@.map_values(|p: Vec<char>| p@),
            pv == split_seq(seg@, '\n'),
            seg@.len() > 0,
            target == segment_lines(seg@, in_code),
            lines_view(out@) == lines_view(old(out)@) + target.take(i as int),
        decreases pieces.len() - i,
    {
        let ghost before = out@;
        let line = if in_code {
            let mut t: Vec<char> = Vec::new();
            t.push(' ');
            t.push(' ');
            t.push('|');
            t.push(' ');
            let mut k: usize = 0;
            while k < pieces[i].len()
                invariant
                    i < pieces@.len(),
                    k <= pieces@[i as int]@.len(),
                    t@ == seq![' ', ' ', '|', ' '] + pieces@[i as int]@.take(k as int),
                decreases pieces@[i as int]@.len() - k,
            {
                t.push(pieces[i][k]);
                assert(seq![' ', ' ', '|', ' '] + pieces@[i as int]@.take(k as int) + seq![
                    pieces@[i as int]@[k as int],
                ] =~= seq![' ', ' ', '|', ' '] + pieces@[i as int]@.take(k + 1));
                k += 1;
            }
            assert(pieces@[i as int]@.take(k as int) =~= pieces@[i as int]@);
            proof {
                reveal_strlit("  | ");
                assert("  | "@ =~= seq![' ', ' ', '|', ' ']);
            }
            ChatLine { text: string_from_chars(&t), kind: ChatLineKind::Code }
        } else {
            ChatLine { text: string_from_chars(&pieces[i]), kind: ChatLineKind::Plain }
        };
        out.push(line);
        proof {
            assert(pv[i as int] == pieces@[i as int]@);
            assert(target[i as int] == line_view(line));
            assert(lines_view(out@) =~= lines_view(before).push(line_view(line)));
            assert(target.take(i + 1) =~= target.take(i as int).push(target[i as int]));
        }
        i += 1;
    }
    assert(target.take(pieces@.len() as int) =~= target);
}

fn find_fence(v: &Vec<char>, from: usize) -> (r: Option<usize>)
    requires
        from <= v.len(),
    ensures
        match r {
            Some(p) => from <= p && p + 3 <= v.len() && first_fence(v@.skip(from as int)) == Some(
                p - from,
            ),
            None => first_fence(v@.skip(from as int)) is None,
        },
{
    let ghost s = v@.skip(from as int);
    let mut j = from;
    while v.len() - j >= 3 && !(v[j] == '`' && v[j + 1] == '`' && v[j + 2] == '`')
        invariant
            from <= j <= v.len(),
            s == v@.skip(from as int),
            forall|k: int| 0 <= k < j - from ==> !is_fence_at(s, k),
        decreases v.len() - j,
    {
        assert(!is_fence_at(s, j - from));
        j += 1;
    }
    proof {
        if v.len() - j >= 3 {
            assert(is_fence_at(s, j - from));
        }
        lemma_first_fence(s, j - from);
    }
    if v.len() - j >= 3 {
        Some(j)
    } else {
        None
    }
}

fn blank() -> (l: ChatLine)
    ensures
        line_view(l) == blank_line(),
{
    ChatLine { text: String::new(), kind: ChatLineKind::Plain }
}

/// Formats a chat message for the terminal (see `chat_format`).
pub fn format_markdown_for_chat(text: &str) -> (r: Vec<ChatLine>)
    ensures
        lines_view(r@) == chat_format(text@),
{
    let v = chars_of(text);
    let mut out: Vec<ChatLine> = Vec::new();
    let mut i: usize = 0;
    let mut in_code = false;
    proof {
        assert(v@.skip(0) =~= v@);
    }
    while i < v.len()
        invariant
            i <= v.len(),
            lines_view(out@) + fmt_seq(v@.skip(i as int), in_code) == fmt_seq(v@, false),
        decreases v.len() - i,
    {
        let ghost rest = v@.skip(i as int);
        let ghost before = lines_view(out@);
        let ghost was_code = in_code;
        match find_fence(&v, i) {
            Some(pos) => {
                let ghost p = (pos - i) as int;
                let seg = slice_chars(&v, i, pos);
                append_segment(&seg, in_code, &mut out);
                assert(seg@ =~= rest.take(p));
                let after_fence = pos + 3;
                let ghost after = rest.skip(p + 3);
                assert(v@.skip(after_fence as int) =~= after);
                if in_code {
                    in_code = false;
                    out.push(blank());
                    i = after_fence;
                    proof {
                        assert(fmt_seq(rest, true) == segment_lines(rest.take(p), true) + seq![
                            blank_line(),
                        ] + fmt_seq(after, false));
                        assert(lines_view(out@) =~= before + segment_lines(rest.take(p), true)
                            + seq![blank_line()]);
                    }
                } else {
                    let (n, consumed) = word_bounds(&v, after_fence);
                    in_code = true;
                    out.push(blank());
                    let ghost mid = lines_view(out@);
                    assert(mid =~= before + segment_lines(rest.take(p), false) + seq![blank_line()]);
                    let ghost lang: Seq<(Seq<char>, ChatLineKind)> = if n > 0 {
                        seq![("["@ + after.take(n as int) + "]"@, ChatLineKind::CodeLang)]
                    } else {
                        Seq::empty()
                    };
                    if n > 0 {
                        let mut t: Vec<char> = Vec::new();
                        t.push('[');
                        let w = slice_chars(&v, after_fence, after_fence + n);
                        assert(w@ =~= after.take(n as int));
                        let mut k: usize = 0;
                        while k < w.len()
                            invariant
                                k <= w@.len(),
                                t@ == seq!['['] + w@.take(k as int),
                            decreases w@.len() - k,
                        {
                            t.push(w[k]);
                            assert(seq!['['] + w@.take(k as int) + seq![w@[k as int]] =~= seq!['['] + w@.take(k + 1));
                            k += 1;
                        }
                        t.push(']');
                        proof {
                            reveal_strlit("[");
                            reveal_strlit("]");
                            assert(w@.take(k as int) =~= w@);
                            assert(t@ =~= "["@ + after.take(n as int) + "]"@);
                        }
                        out.push(ChatLine { text: string_from_chars(&t), kind: ChatLineKind::CodeLang });
                    }
                    assert(lines_view(out@) =~= mid + lang);
                    i = after_fence + consumed;
                    proof {
                        assert(v@.skip(i as int) =~= after.skip(fence_consumed(after) as int));
                        assert(fmt_seq(rest, false) == segment_lines(rest.take(p), false) + seq![
                            blank_line(),
                        ] + lang + fmt_seq(after.skip(fence_consumed(after) as int), true));
                    }
                }
            },
            None => {
                let seg = slice_chars(&v, i, v.len());
                append_segment(&seg, in_code, &mut out);
                assert(seg@ =~= rest);
                i = v.len();
                assert(v@.skip(i as int) =~= Seq::<char>::empty());
            },
        }
    }
    assert(v@.skip(i as int) =~= Seq::<char>::empty());
    strip_blank_ends(out)
}

fn strip_blank_ends(lines: Vec<ChatLine>) -> (r: Vec<ChatLine>)
    ensures
        lines_view(r@) == strip_trailing(strip_leading(lines_view(lines@))),
{
    let ghost lv = lines_view(lines@);
    let mut a: usize = 0;
    assert(lv.skip(0) =~= lv);
    while a < lines.len() && lines[a].kind == ChatLineKind::Plain && lines[a].text.as_str().is_empty()
        invariant
            a <= lines@.len(),
            lv == lines_view(lines@),
            strip_leading(lv) == strip_leading(lv.skip(a as int)),
        decreases lines.len() - a,
    {
        assert(lv.skip(a as int)[0] == blank_line()) by {
            assert(lines@[a as int].text@.len() == 0);
            assert(lines@[a as int].text@ =~= Seq::<char>::empty());
        }
        assert(lv.skip(a as int).drop_first() =~= lv.skip(a + 1));
        a += 1;
    }
    let ghost head = lv.skip(a as int);
    assert(strip_leading(head) == head) by {
        if head.len() > 0 {
            assert(head[0] == lv[a as int]);
            if lines@[a as int].kind == ChatLineKind::Plain {
                assert(lines@[a as int].text@.len() != 0);
            }
        }
    };
    let mut b: usize = lines.len();
    while b > a && lines[b - 1].kind == ChatLineKind::Plain && lines[b - 1].text.as_str().is_empty()
        invariant
            a <= b <= lines@.len(),
            lv == lines_view(lines@),
            head == lv.skip(a as int),
            strip_trailing(head) == strip_trailing(lv.subrange(a as int, b as int)),
        decreases b,
    {
        let ghost cur = lv.subrange(a as int, b as int);
        assert(cur.last() == blank_line()) by {
            assert(lines@[b - 1].text@ =~= Seq::<char>::empty());
        }
        assert(cur.drop_last() =~= lv.subrange(a as int, b - 1));
        b -= 1;
    }
    let ghost body = lv.subrange(a as int, b as int);
    assert(strip_trailing(body) == body) by {
        if body.len() > 0 {
            assert(body.last() == lv[b - 1]);
            if lines@[b - 1].kind == ChatLineKind::Plain {
                assert(lines@[b - 1].text@.len() != 0);
            }
        }
    };
    assert(head =~= lv.subrange(a as int, lines@.len() as int));
    let mut out: Vec<ChatLine> = Vec::new();
    let mut k = a;
    while k < b
        invariant
            a <= k <= b <= lines@.len(),
            lv == lines_view(lines@),
            lines_view(out@) == lv.subrange(a as int, k as int),
        decreases b - k,
    {
        let ghost before = out@;
        let line = ChatLine { text: lines[k].text.clone(), kind: lines[k].kind };
        assert(line_view(line) == lv[k as int]);
        out.push(line);
        assert(lines_view(out@) =~= lines_view(before).push(lv[k as int]));
        assert(lv.subrange(a as int, k + 1) =~= lv.subrange(a as int, k as int).push(lv[k as int]));
        k += 1;
    }
    out
}

/// One run of text within a plain line: its text and whether it is inline
/// code.
pub struct InlineSpan {
    pub text: String,
    pub code: bool,
}

/// The runs of a plain line: the pieces between backticks that are not
/// empty, every odd piece being code.
pub open spec fn inline_runs(pieces: Seq<Seq<char>>) -> Seq<(Seq<char>, bool)>
    decreases pieces.len(),
{
    if pieces.len() == 0 {
        Seq::empty()
    } else {
        let rest = inline_runs(pieces.drop_last());
        if pieces.last().len() > 0 {
            rest.push((pieces.last(), (pieces.len() - 1) % 2 == 1))
        } else {
            rest
        }
    }
}

/// The number of pieces that are not empty.
pub open spec fn nonempty_count(pieces: Seq<Seq<char>>) -> nat
    decreases pieces.len(),
{
    if pieces.len() == 0 {
        0
    } else {
        nonempty_count(pieces.drop_last()) + if pieces.last().len() > 0 {
            1nat
        } else {
            0nat
        }
    }
}

/// Every backtick toggles inline code: each non-empty piece `k` between
/// backticks becomes a run of its own, in order (after the non-empty pieces
/// before it), and that run is code exactly when `k` is odd, whatever
/// empty pieces came before.
pub proof fn inline_code_follows_backtick_parity(pieces: Seq<Seq<char>>)
    ensures
        inline_runs(pieces).len() == nonempty_count(pieces),
        forall|k: int|
            #![trigger pieces[k]]
            0 <= k < pieces.len() && pieces[k].len() > 0 ==> nonempty_count(pieces.take(k)) < nonempty_count(
                pieces,
            ) && inline_runs(pieces)[nonempty_count(pieces.take(k)) as int] == (pieces[k], k % 2 == 1),
    decreases pieces.len(),
{
    if pieces.len() > 0 {
        let p = pieces.drop_last();
        inline_code_follows_backtick_parity(p);
        assert forall|k: int|
            #![trigger pieces[k]]
            0 <= k < pieces.len() && pieces[k].len() > 0 implies nonempty_count(pieces.take(k)) < nonempty_count(
                pieces,
            ) && inline_runs(pieces)[nonempty_count(pieces.take(k)) as int] == (pieces[k], k % 2 == 1) by {
            if k < pieces.len() - 1 {
                assert(pieces.take(k) =~= p.take(k));
                assert(pieces[k] == p[k]);
            } else {
                assert(pieces.take(k) =~= p);
            }
        }
    }
}

/// Splits a plain line at its backticks (see `inline_runs`).
pub fn plain_line_with_inline_code(text: &str) -> (r: Vec<InlineSpan>)
    ensures
        r@.map_values(|s: InlineSpan| (s.text@, s.code)) == inline_runs(split_seq(text@, '`')),
        r@.len() == nonempty_count(split_seq(text@, '`')),
        forall|k: int|
            #![trigger split_seq(text@, '`')[k]]
            0 <= k < split_seq(text@, '`').len() && split_seq(text@, '`')[k].len() > 0 ==> {
                let j = nonempty_count(split_seq(text@, '`').take(k)) as int;
                &&& 0 <= j < r@.len()
                &&& r@[j].text@ == split_seq(text@, '`')[k]
                &&& r@[j].code == (k % 2 == 1)
            },
{
    let v = chars_of(text);
    let pieces = split_chars(&v, '`');
    let ghost pv = pieces@.map_values(|p: Vec<char>| p@);
    let mut out: Vec<InlineSpan> = Vec::new();
    let mut i: usize = 0;
    let mut code = false;
    while i < pieces.len()
        invariant
            i <= pieces@.len(),
            pv == pieces@.map_values(|p: Vec<char>| p@),
            pv == split_seq(text@, '`'),
            code == (i % 2 == 1),
            out@.map_values(|s: InlineSpan| (s.text@, s.code)) == inline_runs(pv.take(i as int)),
        decreases pieces.len() - i,
    {
        let ghost before = out@;
        assert(pv.take(i + 1).drop_last() =~= pv.take(i as int));
        assert(pv.take(i + 1).last() == pieces@[i as int]@);
        if pieces[i].len() > 0 {
            out.push(InlineSpan { text: string_from_chars(&pieces[i]), code });
            assert(out@.map_values(|s: InlineSpan| (s.text@, s.code)) =~= before.map_values(
                |s: InlineSpan| (s.text@, s.code),
            ).push((pieces@[i as int]@, code)));
        }
        code = !code;
        i += 1;
    }
    assert(pv.take(pieces@.len() as int) =~= pv);
    proof {
        let sp = split_seq(text@, '`');
        inline_code_follows_backtick_parity(sp);
        let rv = out@.map_values(|s: InlineSpan| (s.text@, s.code));
        assert forall|k: int|
            #![trigger sp[k]]
            0 <= k < sp.len() && sp[k].len() > 0 implies {
                let j = nonempty_count(sp.take(k)) as int;
                &&& 0 <= j < out@.len()
                &&& out@[j].text@ == sp[k]
                &&& out@[j].code == (k % 2 == 1)
            } by {
            let j = nonempty_count(sp.take(k)) as int;
            assert(rv[j] == (out@[j].text@, out@[j].code));
        }
    }
    out
}

} // verus!
