//! Text preparation for the rendered report artifacts: title composition,
//! whitespace normalization, line splitting and line wrapping.
//!
//! The rasterizer itself (fonts, pixels, files) is an external collaborator;
//! everything here is the pure text logic that feeds it.

use vstd::prelude::*;
use vstd::string::{StrSliceExecFns, StringExecFns};

use crate::strutil::{contains_sub, push_char, spec_contains_sub, str_eq};

verus! {

/// Whitespace recognized by the text tool: the Unicode `White_Space`
/// characters, the set `str::trim` strips.
pub open spec fn is_space_char(c: char) -> bool {
    c == ' ' || c == '\t' || c == '\n' || c == '\u{b}' || c == '\u{c}' || c == '\r'
        || c == '\u{85}' || c == '\u{a0}' || c == '\u{1680}' || c == '\u{2000}'
        || c == '\u{2001}' || c == '\u{2002}' || c == '\u{2003}' || c == '\u{2004}'
        || c == '\u{2005}' || c == '\u{2006}' || c == '\u{2007}' || c == '\u{2008}'
        || c == '\u{2009}' || c == '\u{200a}' || c == '\u{2028}' || c == '\u{2029}'
        || c == '\u{202f}' || c == '\u{205f}' || c == '\u{3000}'
}

fn is_space_exec(c: char) -> (r: bool)
    ensures
        r == is_space_char(c),
{
    c == ' ' || c == '\t' || c == '\n' || c == '\u{b}' || c == '\u{c}' || c == '\r'
        || c == '\u{85}' || c == '\u{a0}' || c == '\u{1680}' || c == '\u{2000}'
        || c == '\u{2001}' || c == '\u{2002}' || c == '\u{2003}' || c == '\u{2004}'
        || c == '\u{2005}' || c == '\u{2006}' || c == '\u{2007}' || c == '\u{2008}'
        || c == '\u{2009}' || c == '\u{200a}' || c == '\u{2028}' || c == '\u{2029}'
        || c == '\u{202f}' || c == '\u{205f}' || c == '\u{3000}'
}

/// `s` without leading whitespace.
pub open spec fn spec_trim_front(s: Seq<char>) -> Seq<char>
    decreases s.len(),
{
    if s.len() > 0 && is_space_char(s[0]) {
        spec_trim_front(s.drop_first())
    } else {
        s
    }
}

/// `s` without trailing whitespace.
pub open spec fn spec_trim_back(s: Seq<char>) -> Seq<char>
    decreases s.len(),
{
    if s.len() > 0 && is_space_char(s.last()) {
        spec_trim_back(s.drop_last())
    } else {
        s
    }
}

/// `s` without leading and trailing whitespace.
pub open spec fn spec_trim(s: Seq<char>) -> Seq<char> {
    spec_trim_back(spec_trim_front(s))
}

proof fn lemma_trim_front_skip(s: Seq<char>, a: int)
    requires
        0 <= a <= s.len(),
        forall|k: int| 0 <= k < a ==> is_space_char(s[k]),
        a < s.len() ==> !is_space_char(s[a]),
    ensures
        spec_trim_front(s) == s.skip(a),
    decreases a,
{
    if a == 0 {
        assert(s.skip(0) =~= s);
    } else {
        assert(is_space_char(s[0]));
        lemma_trim_front_skip(s.drop_first(), a - 1);
        assert(s.drop_first().skip(a - 1) =~= s.skip(a));
    }
}

proof fn lemma_trim_back_take(s: Seq<char>, b: int)
    requires
        0 <= b <= s.len(),
        forall|k: int| b <= k < s.len() ==> is_space_char(s[k]),
        b > 0 ==> !is_space_char(s[b - 1]),
    ensures
        spec_trim_back(s) == s.take(b),
    decreases s.len() - b,
{
    if b == s.len() {
        if s.len() > 0 && is_space_char(s.last()) {
            assert(!is_space_char(s[b - 1]));
            assert(false);
        }
        assert(s.take(b) =~= s);
    } else {
        assert(is_space_char(s.last()));
        lemma_trim_back_take(s.drop_last(), b);
        assert(s.drop_last().take(b) =~= s.take(b));
    }
}

/// Strip leading and trailing whitespace, mirroring `str::trim` for the
/// whitespace characters the tool recognizes.
pub fn trim_str(s: &str) -> (r: &str)
    ensures
        r@ == spec_trim(s@),
{
    let len = s.unicode_len();
    let mut a: usize = 0;
    while a < len && is_space_exec(s.get_char(a))
        invariant
            a <= len,
            len == s@.len(),
            forall|k: int| 0 <= k < a ==> is_space_char(s@[k]),
        decreases len - a,
    {
        a = a + 1;
    }
    proof {
        lemma_trim_front_skip(s@, a as int);
    }
    if a == len {
        proof {
            assert(s@.skip(len as int) =~= Seq::<char>::empty());
            assert(spec_trim_back(Seq::<char>::empty()) =~= Seq::<char>::empty());
            assert(s@.subrange(len as int, len as int) =~= Seq::<char>::empty());
        }
        return s.substring_char(len, len);
    }
    let mut b: usize = len;
    while b > a && is_space_exec(s.get_char(b - 1))
        invariant
            a <= b <= len,
            len == s@.len(),
            forall|k: int| b <= k < len ==> is_space_char(s@[k]),
        decreases b,
    {
        b = b - 1;
    }
    proof {
        assert(!is_space_char(s@[a as int]));
        assert(b > a);
        let tail = s@.skip(a as int);
        assert(forall|k: int| b - a <= k < tail.len() ==> is_space_char(#[trigger] tail[k]));
        assert(!is_space_char(tail[b - a - 1]));
        lemma_trim_back_take(tail, b - a);
        assert(tail.take(b - a) =~= s@.subrange(a as int, b as int));
    }
    s.substring_char(a, b)
}

/// `s` is empty or all whitespace.
pub fn is_blank(s: &str) -> (r: bool)
    ensures
        r == (spec_trim(s@).len() == 0),
{
    trim_str(s).is_empty()
}

/// `s` with each non-overlapping `"  "` (two spaces) replaced by one space,
/// scanning left to right — the normalization applied to report text,
/// mirroring `str::replace("  ", " ")`.
pub open spec fn spec_collapse_spaces(s: Seq<char>) -> Seq<char>
    decreases s.len(),
{
    if s.len() >= 2 && s[0] == ' ' && s[1] == ' ' {
        seq![' '] + spec_collapse_spaces(s.skip(2))
    } else if s.len() >= 1 {
        seq![s[0]] + spec_collapse_spaces(s.skip(1))
    } else {
        Seq::<char>::empty()
    }
}

/// Replace each non-overlapping two-space run by one space.
pub fn collapse_spaces(s: &str) -> (r: String)
    ensures
        r@ == spec_collapse_spaces(s@),
{
    let len = s.unicode_len();
    let mut out = String::new();
    let mut i: usize = 0;
    proof {
        assert(s@.skip(0) =~= s@);
        assert(out@ + spec_collapse_spaces(s@) =~= spec_collapse_spaces(s@));
    }
    while i < len
        invariant
            i <= len,
            len == s@.len(),
            out@ + spec_collapse_spaces(s@.skip(i as int)) == spec_collapse_spaces(s@),
        decreases len - i,
    {
        let c = s.get_char(i);
        if c == ' ' && i + 1 < len && s.get_char(i + 1) == ' ' {
            push_char(&mut out, ' ');
            proof {
                assert(s@.skip(i as int).skip(2) =~= s@.skip(i + 2));
                assert(out@ + spec_collapse_spaces(s@.skip(i + 2)) =~= spec_collapse_spaces(s@));
            }
            i = i + 2;
        } else {
            push_char(&mut out, c);
            proof {
                assert(s@.skip(i as int).skip(1) =~= s@.skip(i + 1));
                assert(out@ + spec_collapse_spaces(s@.skip(i + 1)) =~= spec_collapse_spaces(s@));
            }
            i = i + 1;
        }
    }
    proof {
        assert(s@.skip(len as int) =~= Seq::<char>::empty());
        assert(out@ + Seq::<char>::empty() =~= out@);
    }
    out
}

/// Index of the first `'\n'` at or after `from`, or the length of `s`.
pub open spec fn spec_find_newline(s: Seq<char>, from: int) -> int
    recommends
        0 <= from <= s.len(),
    decreases s.len() - from,
{
    if from < 0 || from >= s.len() {
        s.len() as int
    } else if s[from] == '\n' {
        from
    } else {
        spec_find_newline(s, from + 1)
    }
}

/// A line segment with one trailing carriage return removed.
pub open spec fn spec_strip_cr(l: Seq<char>) -> Seq<char> {
    if l.len() > 0 && l.last() == '\r' {
        l.drop_last()
    } else {
        l
    }
}

/// The lines of `s` starting at `pos`: split at `'\n'`, one trailing
/// `'\r'` removed from each piece, no entry for a trailing terminator —
/// mirroring `str::lines`.
pub open spec fn spec_lines_from(s: Seq<char>, pos: int) -> Seq<Seq<char>>
    recommends
        0 <= pos <= s.len(),
    decreases s.len() - pos,
{
    if pos < 0 || pos >= s.len() {
        Seq::<Seq<char>>::empty()
    } else {
        let i = spec_find_newline(s, pos);
        if pos <= i < s.len() {
            seq![spec_strip_cr(s.subrange(pos, i))] + spec_lines_from(s, i + 1)
        } else {
            seq![spec_strip_cr(s.subrange(pos, s.len() as int))]
        }
    }
}

/// The lines of `s`.
pub open spec fn spec_lines(s: Seq<char>) -> Seq<Seq<char>> {
    spec_lines_from(s, 0)
}

/// The lines of `s`, each trimmed.
pub open spec fn spec_trimmed_lines(s: Seq<char>) -> Seq<Seq<char>> {
    spec_lines(s).map_values(|l: Seq<char>| spec_trim(l))
}

proof fn lemma_find_newline_at(s: Seq<char>, from: int, j: int)
    requires
        0 <= from <= j <= s.len(),
        forall|k: int| from <= k < j ==> s[k] != '\n',
        j < s.len() ==> s[j] == '\n',
    ensures
        spec_find_newline(s, from) == j,
    decreases j - from,
{
    if from < j {
        lemma_find_newline_at(s, from + 1, j);
    }
}

/// Split `s` into lines and trim each, mirroring
/// `s.lines().map(str::trim)`.
pub fn split_lines_trimmed(s: &str) -> (r: Vec<String>)
    ensures
        r.deep_view() == spec_trimmed_lines(s@),
{
    let len = s.unicode_len();
    let mut out: Vec<String> = Vec::new();
    let mut pos: usize = 0;
    proof {
        assert(out.deep_view() + spec_lines_from(s@, 0).map_values(|l: Seq<char>| spec_trim(l))
            =~= spec_trimmed_lines(s@));
    }
    while pos < len
        invariant
            pos <= len,
            len == s@.len(),
            out.deep_view() + spec_lines_from(s@, pos as int).map_values(
                |l: Seq<char>| spec_trim(l),
            ) == spec_trimmed_lines(s@),
        decreases len - pos,
    {
        let mut j: usize = pos;
        while j < len && s.get_char(j) != '\n'
            invariant
                pos <= j <= len,
                len == s@.len(),
                forall|k: int| pos <= k < j ==> s@[k] != '\n',
            decreases len - j,
        {
            j = j + 1;
        }
        proof {
            lemma_find_newline_at(s@, pos as int, j as int);
        }
        let seg_end: usize = if j > pos && s.get_char(j - 1) == '\r' {
            j - 1
        } else {
            j
        };
        proof {
            if j > pos && s@[j - 1] == '\r' {
                assert(s@.subrange(pos as int, j as int).last() == '\r');
                assert(s@.subrange(pos as int, j as int).drop_last() =~= s@.subrange(
                    pos as int,
                    j - 1,
                ));
            } else if j > pos {
                assert(s@.subrange(pos as int, j as int).last() == s@[j - 1]);
            }
            assert(spec_strip_cr(s@.subrange(pos as int, j as int)) =~= s@.subrange(
                pos as int,
                seg_end as int,
            ));
        }
        let line = trim_str(s.substring_char(pos, seg_end));
        out.push(String::from_str(line));
        let next_pos: usize = if j < len {
            j + 1
        } else {
            len
        };
        proof {
            let f = |l: Seq<char>| spec_trim(l);
            if j < len {
                assert(out.deep_view() + spec_lines_from(s@, j + 1).map_values(f)
                    =~= spec_trimmed_lines(s@));
            } else {
                assert(spec_lines_from(s@, len as int).map_values(f)
                    =~= Seq::<Seq<char>>::empty());
                assert(out.deep_view() + spec_lines_from(s@, len as int).map_values(f)
                    =~= spec_trimmed_lines(s@));
            }
        }
        pos = next_pos;
    }
    proof {
        assert(spec_lines_from(s@, pos as int).map_values(|l: Seq<char>| spec_trim(l))
            =~= Seq::<Seq<char>>::empty());
        assert(out.deep_view() + Seq::<Seq<char>>::empty() =~= out.deep_view());
    }
    out
}

/// Title line of a rendered report: the center name is appended in
/// parentheses when it is known and not already part of the author name.
pub open spec fn spec_compose_title(
    title: Seq<char>,
    center: Option<Seq<char>>,
    author: Seq<char>,
) -> Seq<char> {
    match center {
        Some(c) => if c != author && !spec_contains_sub(author, c) {
            title + " ("@ + c + ")\n"@
        } else {
            title + "\n"@
        },
        None => title + "\n"@,
    }
}

/// Compose the title line written at the top of both report artifacts.
pub fn compose_title(title: &str, center_name: &Option<String>, author_name: &str) -> (r: String)
    ensures
        r@ == spec_compose_title(title@, center_name.deep_view(), author_name@),
{
    match center_name {
        Some(c) => {
            if !str_eq(c.as_str(), author_name) && !contains_sub(author_name, c.as_str()) {
                let mut s = String::from_str(title);
                s.append(" (");
                s.append(c.as_str());
                s.append(")\n");
                s
            } else {
                let mut s = String::from_str(title);
                s.append("\n");
                s
            }
        },
        None => {
            let mut s = String::from_str(title);
            s.append("\n");
            s
        },
    }
}

/// Report text prepared for rendering: `None` when the raw content is
/// blank or yields no lines; otherwise the trimmed lines of the content
/// with double spaces collapsed.
pub fn renderable_lines(content: &str) -> (r: Option<Vec<String>>)
    ensures
        match r {
            Some(v) => spec_trim(content@).len() != 0 && v.deep_view() == spec_trimmed_lines(
                spec_collapse_spaces(content@),
            ) && v.deep_view().len() != 0,
            None => spec_trim(content@).len() == 0 || spec_trimmed_lines(
                spec_collapse_spaces(content@),
            ).len() == 0,
        },
{
    if is_blank(content) {
        return None;
    }
    let collapsed = collapse_spaces(content);
    let lines = split_lines_trimmed(collapsed.as_str());
    if lines.len() == 0 {
        None
    } else {
        Some(lines)
    }
}

/// The line-wrapping state machine of the renderer: a running count of
/// characters since the last break; once it reaches `limit`, a space turns
/// into a newline, and a run without spaces is broken hard at `limit + 7`.
pub open spec fn spec_wrap_from(s: Seq<char>, i: int, count: int, limit: int) -> Seq<char>
    recommends
        0 <= i <= s.len(),
    decreases s.len() - i,
{
    if i < 0 || i >= s.len() {
        Seq::<char>::empty()
    } else {
        let c = s[i];
        let count1 = count + 1;
        if count1 >= limit {
            if c == ' ' {
                seq!['\n'] + spec_wrap_from(s, i + 1, 0, limit)
            } else if count1 >= limit + 7 {
                seq![c, '\n'] + spec_wrap_from(s, i + 1, 0, limit)
            } else {
                seq![c] + spec_wrap_from(s, i + 1, count1, limit)
            }
        } else {
            seq![c] + spec_wrap_from(s, i + 1, count1, limit)
        }
    }
}

/// `s` wrapped at `limit` characters per line.
pub open spec fn spec_wrap_text(s: Seq<char>, limit: int) -> Seq<char> {
    spec_wrap_from(s, 0, 0, limit)
}

/// Text-artifact helpers of the renderer.
pub struct ImageTool {}

impl ImageTool {
    /// Wrap `text` at `limit` characters: once a line reaches the limit it
    /// breaks at the next space, or unconditionally seven characters later.
    pub fn wrap_text(text: &str, limit: usize) -> (r: String)
        requires
            limit <= usize::MAX - 7,
        ensures
            r@ == spec_wrap_text(text@, limit as int),
    {
        let len = text.unicode_len();
        let max = limit + 7;
        let mut result = String::new();
        let mut count: usize = 0;
        let mut i: usize = 0;
        proof {
            assert(result@ + spec_wrap_text(text@, limit as int) =~= spec_wrap_text(
                text@,
                limit as int,
            ));
        }
        while i < len
            invariant
                i <= len,
                len == text@.len(),
                max == limit + 7,
                count < max || count == 0,
                result@ + spec_wrap_from(text@, i as int, count as int, limit as int)
                    == spec_wrap_text(text@, limit as int),
            decreases len - i,
        {
            let c = text.get_char(i);
            count = count + 1;
            if count >= limit {
                if c == ' ' {
                    push_char(&mut result, '\n');
                    count = 0;
                } else if count >= max {
                    push_char(&mut result, c);
                    push_char(&mut result, '\n');
                    count = 0;
                } else {
                    push_char(&mut result, c);
                }
            } else {
                push_char(&mut result, c);
            }
            proof {
                assert(result@ + spec_wrap_from(text@, i + 1, count as int, limit as int)
                    =~= spec_wrap_text(text@, limit as int));
            }
            i = i + 1;
        }
        proof {
            assert(result@ + Seq::<char>::empty() =~= result@);
        }
        result
    }
}

} // verus!
