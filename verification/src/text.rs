//! Verified text utilities the session controller rests on: trimming,
//! splitting text into lines, joining lines back into text, and substring
//! search.  Specifications are stated over sequences of characters.

use vstd::prelude::*;
use vstd::string::*;

verus! {

// ---------------------------------------------------------------------------
// Blank characters and trimming
// ---------------------------------------------------------------------------

/// The whitespace characters recognized when trimming a line of user
/// input: the characters with the Unicode `White_Space` property, the set
/// that `str::trim` removes.
pub open spec fn is_blank(c: char) -> bool {
    ||| c == '\t'
    ||| c == '\n'
    ||| c == '\u{000B}'
    ||| c == '\u{000C}'
    ||| c == '\r'
    ||| c == ' '
    ||| c == '\u{0085}'
    ||| c == '\u{00A0}'
    ||| c == '\u{1680}'
    ||| c == '\u{2000}'
    ||| c == '\u{2001}'
    ||| c == '\u{2002}'
    ||| c == '\u{2003}'
    ||| c == '\u{2004}'
    ||| c == '\u{2005}'
    ||| c == '\u{2006}'
    ||| c == '\u{2007}'
    ||| c == '\u{2008}'
    ||| c == '\u{2009}'
    ||| c == '\u{200A}'
    ||| c == '\u{2028}'
    ||| c == '\u{2029}'
    ||| c == '\u{202F}'
    ||| c == '\u{205F}'
    ||| c == '\u{3000}'
}

/// Number of blank characters at the front of `s`.
pub open spec fn leading_blanks(s: Seq<char>) -> nat
    decreases s.len(),
{
    if s.len() == 0 {
        0
    } else if is_blank(s[0]) {
        1 + leading_blanks(s.drop_first())
    } else {
        0
    }
}

/// Length of `s` once its trailing blank characters are removed.
pub open spec fn trimmed_end(s: Seq<char>) -> nat
    decreases s.len(),
{
    if s.len() == 0 {
        0
    } else if is_blank(s.last()) {
        trimmed_end(s.drop_last())
    } else {
        s.len()
    }
}

/// `s` without its leading and trailing blank characters.
pub open spec fn spec_trim(s: Seq<char>) -> Seq<char> {
    let a = leading_blanks(s) as int;
    let b = trimmed_end(s) as int;
    if a <= b {
        s.subrange(a, b)
    } else {
        Seq::empty()
    }
}

pub proof fn lemma_leading_blanks(s: Seq<char>)
    ensures
        leading_blanks(s) <= s.len(),
        forall|k: int| 0 <= k < leading_blanks(s) ==> is_blank(s[k]),
        leading_blanks(s) < s.len() ==> !is_blank(s[leading_blanks(s) as int]),
    decreases s.len(),
{
    if s.len() > 0 && is_blank(s[0]) {
        lemma_leading_blanks(s.drop_first());
        assert forall|k: int| 0 <= k < leading_blanks(s) implies is_blank(s[k]) by {
            if k > 0 {
                assert(s.drop_first()[k - 1] == s[k]);
            }
        }
        if leading_blanks(s) < s.len() {
            assert(s.drop_first()[leading_blanks(s) - 1] == s[leading_blanks(s) as int]);
        }
    }
}

pub proof fn lemma_trimmed_end(s: Seq<char>)
    ensures
        trimmed_end(s) <= s.len(),
        forall|k: int| trimmed_end(s) <= k < s.len() ==> is_blank(s[k]),
        trimmed_end(s) > 0 ==> !is_blank(s[trimmed_end(s) - 1]),
    decreases s.len(),
{
    if s.len() > 0 && is_blank(s.last()) {
        lemma_trimmed_end(s.drop_last());
        assert forall|k: int| trimmed_end(s) <= k < s.len() implies is_blank(s[k]) by {
            if k < s.len() - 1 {
                assert(s.drop_last()[k] == s[k]);
            }
        }
        if trimmed_end(s) > 0 {
            assert(s.drop_last()[trimmed_end(s) - 1] == s[trimmed_end(s) - 1]);
        }
    }
}

fn is_blank_char(c: char) -> (r: bool)
    ensures
        r == is_blank(c),
{
    c == '\t' || c == '\n' || c == '\u{000B}' || c == '\u{000C}' || c == '\r' || c == ' '
        || c == '\u{0085}' || c == '\u{00A0}' || c == '\u{1680}' || c == '\u{2000}'
        || c == '\u{2001}' || c == '\u{2002}' || c == '\u{2003}' || c == '\u{2004}'
        || c == '\u{2005}' || c == '\u{2006}' || c == '\u{2007}' || c == '\u{2008}'
        || c == '\u{2009}' || c == '\u{200A}' || c == '\u{2028}' || c == '\u{2029}'
        || c == '\u{202F}' || c == '\u{205F}' || c == '\u{3000}'
}

/// Remove the leading and trailing blank characters of `s`.
pub fn trim(s: &str) -> (r: String)
    ensures
        r@ == spec_trim(s@),
{
    proof {
        lemma_leading_blanks(s@);
        lemma_trimmed_end(s@);
    }
    let n = s.unicode_len();
    let mut a: usize = 0;
    while a < n && is_blank_char(s.get_char(a))
        invariant
            n == s@.len(),
            a <= n,
            forall|k: int| 0 <= k < a ==> is_blank(s@[k]),
        decreases n - a,
    {
        a += 1;
    }
    assert(a == leading_blanks(s@));
    let mut b: usize = n;
    while b > a && is_blank_char(s.get_char(b - 1))
        invariant
            n == s@.len(),
            a <= b <= n,
            forall|k: int| b <= k < n ==> is_blank(s@[k]),
        decreases b,
    {
        b -= 1;
    }
    assert(spec_trim(s@) =~= s@.subrange(a as int, b as int));
    String::from_str(s.substring_char(a, b))
}

// ---------------------------------------------------------------------------
// Splitting text into lines
// ---------------------------------------------------------------------------

/// Index of the first newline in `s`, or `s.len()` if there is none.
pub open spec fn first_nl(s: Seq<char>) -> nat
    decreases s.len(),
{
    if s.len() == 0 {
        0
    } else if s[0] == '\n' {
        0
    } else {
        1 + first_nl(s.drop_first())
    }
}

pub proof fn lemma_first_nl(s: Seq<char>)
    ensures
        first_nl(s) <= s.len(),
        forall|k: int| 0 <= k < first_nl(s) ==> s[k] != '\n',
        first_nl(s) < s.len() ==> s[first_nl(s) as int] == '\n',
    decreases s.len(),
{
    if s.len() > 0 && s[0] != '\n' {
        lemma_first_nl(s.drop_first());
        assert forall|k: int| 0 <= k < first_nl(s) implies s[k] != '\n' by {
            if k > 0 {
                assert(s.drop_first()[k - 1] == s[k]);
            }
        }
        if first_nl(s) < s.len() {
            assert(s.drop_first()[first_nl(s) - 1] == s[first_nl(s) as int]);
        }
    }
}

/// The segments of `s` between newline characters; there is one segment
/// more than there are newlines.
pub open spec fn split_nl(s: Seq<char>) -> Seq<Seq<char>>
    decreases s.len(),
{
    let i = first_nl(s) as int;
    if i >= s.len() {
        seq![s]
    } else {
        seq![s.subrange(0, i)] + split_nl(s.subrange(i + 1, s.len() as int))
    }
}

/// Drop one carriage return from the end of a segment that stood before a
/// newline, so that `\r\n` line endings are recognized.
pub open spec fn strip_cr(seg: Seq<char>) -> Seq<char> {
    if seg.len() > 0 && seg.last() == '\r' {
        seg.drop_last()
    } else {
        seg
    }
}

/// The lines denoted by newline-separated segments: every segment that was
/// followed by a newline loses one trailing carriage return, and a final
/// empty segment (the effect of a trailing line ending) is dropped.
pub open spec fn lines_of_segs(segs: Seq<Seq<char>>) -> Seq<Seq<char>> {
    if segs.len() == 0 {
        Seq::empty()
    } else {
        let n = segs.len() as int;
        let kept = if segs[n - 1].len() == 0 {
            n - 1
        } else {
            n
        };
        Seq::new(
            kept as nat,
            |i: int|
                if i < n - 1 {
                    strip_cr(segs[i])
                } else {
                    segs[i]
                },
        )
    }
}

/// How a text divides into lines: split at newlines, drop a carriage return
/// that stood before a newline, and ignore a final line ending.
pub open spec fn spec_lines(s: Seq<char>) -> Seq<Seq<char>> {
    if s.len() == 0 {
        Seq::empty()
    } else {
        lines_of_segs(split_nl(s))
    }
}

/// `split_nl` follows the position of the first newline.
proof fn lemma_split_nl_step(s: Seq<char>, i: int)
    requires
        0 <= i <= s.len(),
        forall|k: int| 0 <= k < i ==> s[k] != '\n',
        i < s.len() ==> s[i] == '\n',
    ensures
        i == s.len() ==> split_nl(s) == seq![s],
        i < s.len() ==> split_nl(s) == seq![s.subrange(0, i)] + split_nl(
            s.subrange(i + 1, s.len() as int),
        ),
{
    lemma_first_nl(s);
    if first_nl(s) < i {
        assert(s[first_nl(s) as int] == '\n');
        assert(false);
    }
    if i < first_nl(s) {
        assert(s[i] != '\n');
        assert(i < s.len());
        assert(false);
    }
    assert(first_nl(s) == i);
}

/// Turning segments into lines commutes with splitting off a front segment.
proof fn lemma_lines_of_segs_prepend(seg: Seq<char>, rest: Seq<Seq<char>>)
    requires
        rest.len() > 0,
    ensures
        lines_of_segs(seq![seg] + rest) == seq![strip_cr(seg)] + lines_of_segs(rest),
{
    let all = seq![seg] + rest;
    let l = lines_of_segs(all);
    let r = seq![strip_cr(seg)] + lines_of_segs(rest);
    assert(all[all.len() - 1] == rest[rest.len() - 1]);
    assert forall|i: int| 0 <= i < l.len() implies l[i] == r[i] by {
        if i > 0 {
            assert(all[i] == rest[i - 1]);
        }
    }
    assert(l =~~= r);
}

/// Split `s` into its lines: line endings `\n` and `\r\n` are both
/// recognized, and a final line ending does not yield an extra empty line.
pub fn split_lines(s: &str) -> (r: Vec<String>)
    ensures
        r.deep_view() == spec_lines(s@),
{
    let n = s.unicode_len();
    let mut out: Vec<String> = Vec::new();
    if n == 0 {
        assert(out.deep_view() =~~= spec_lines(s@));
        return out;
    }
    let mut start: usize = 0;
    let mut i: usize = 0;
    proof {
        assert(s@.subrange(0, n as int) =~~= s@);
        assert(out.deep_view() + lines_of_segs(split_nl(s@)) =~~= spec_lines(s@));
    }
    while i < n
        invariant
            n == s@.len(),
            n > 0,
            start <= i <= n,
            forall|k: int| start <= k < i ==> s@[k] != '\n',
            spec_lines(s@) == out.deep_view() + lines_of_segs(
                split_nl(s@.subrange(start as int, n as int)),
            ),
        decreases n - i,
    {
        if s.get_char(i) == '\n' {
            let mut end = i;
            if end > start && s.get_char(end - 1) == '\r' {
                end = end - 1;
            }
            let piece = String::from_str(s.substring_char(start, end));
            proof {
                let suf = s@.subrange(start as int, n as int);
                let seg = s@.subrange(start as int, i as int);
                assert forall|k: int| 0 <= k < i - start implies suf[k] != '\n' by {
                    assert(suf[k] == s@[start + k]);
                }
                assert(suf[i - start] == s@[i as int]);
                lemma_split_nl_step(suf, i - start);
                assert(suf.subrange(0, i - start) =~~= seg);
                assert(suf.subrange(i - start + 1, suf.len() as int) =~~= s@.subrange(
                    i + 1,
                    n as int,
                ));
                let rest = split_nl(s@.subrange(i + 1, n as int));
                assert(rest.len() > 0);
                lemma_lines_of_segs_prepend(seg, rest);
                if end < i {
                    assert(seg.last() == s@[i - 1]);
                }
                assert(piece@ =~~= strip_cr(seg));
                assert(out.deep_view().push(piece@) =~~= out.deep_view() + seq![strip_cr(seg)]);
            }
            let ghost prev = out.deep_view();
            out.push(piece);
            proof {
                assert(out.deep_view() =~~= prev.push(piece@));
                assert(out.deep_view() + lines_of_segs(split_nl(s@.subrange(i + 1, n as int)))
                    =~~= spec_lines(s@));
            }
            start = i + 1;
        }
        i += 1;
    }
    proof {
        let suf = s@.subrange(start as int, n as int);
        assert forall|k: int| 0 <= k < suf.len() implies suf[k] != '\n' by {
            assert(suf[k] == s@[start + k]);
        }
        lemma_split_nl_step(suf, n - start);
        assert(split_nl(suf) == seq![suf]);
    }
    if start < n {
        let piece = String::from_str(s.substring_char(start, n));
        let ghost prev = out.deep_view();
        out.push(piece);
        proof {
            let suf = s@.subrange(start as int, n as int);
            assert(lines_of_segs(seq![suf]) =~~= seq![suf]);
            assert(out.deep_view() =~~= prev.push(piece@));
            assert(out.deep_view() =~~= spec_lines(s@));
        }
    } else {
        proof {
            let suf = s@.subrange(start as int, n as int);
            assert(suf.len() == 0);
            assert(lines_of_segs(seq![suf]) =~~= Seq::<Seq<char>>::empty());
            assert(out.deep_view() =~~= spec_lines(s@));
        }
    }
    out
}

// ---------------------------------------------------------------------------
// Joining lines into text
// ---------------------------------------------------------------------------

/// The text obtained by joining lines with a newline between each pair.
pub open spec fn spec_join_lines(lines: Seq<Seq<char>>) -> Seq<char>
    decreases lines.len(),
{
    if lines.len() == 0 {
        Seq::empty()
    } else if lines.len() == 1 {
        lines[0]
    } else {
        lines[0] + seq!['\n'] + spec_join_lines(lines.drop_first())
    }
}

pub proof fn lemma_join_push(lines: Seq<Seq<char>>, x: Seq<char>)
    ensures
        lines.len() == 0 ==> spec_join_lines(lines.push(x)) == x,
        lines.len() > 0 ==> spec_join_lines(lines.push(x)) == spec_join_lines(lines)
            + seq!['\n'] + x,
    decreases lines.len(),
{
    let p = lines.push(x);
    if lines.len() == 0 {
        assert(p.len() == 1);
        assert(p[0] == x);
    } else if lines.len() == 1 {
        assert(p.len() == 2);
        assert(p[0] == lines[0]);
        assert(p.drop_first() =~~= seq![x]);
        assert(spec_join_lines(seq![x]) == x);
    } else {
        lemma_join_push(lines.drop_first(), x);
        assert(p.drop_first() =~~= lines.drop_first().push(x));
        assert(p[0] == lines[0]);
        assert(spec_join_lines(p) == lines[0] + seq!['\n'] + spec_join_lines(
            lines.drop_first().push(x),
        ));
        assert(lines[0] + seq!['\n'] + (spec_join_lines(lines.drop_first()) + seq!['\n'] + x)
            =~~= (lines[0] + seq!['\n'] + spec_join_lines(lines.drop_first())) + seq!['\n'] + x);
    }
}

/// Join lines with a newline between each pair: the serialization written
/// when the buffer is saved.
pub fn join_lines(lines: &Vec<String>) -> (r: String)
    ensures
        r@ == spec_join_lines(lines.deep_view()),
{
    let mut r = String::new();
    let mut i: usize = 0;
    proof {
        reveal_strlit("\n");
        assert(lines.deep_view().take(0) =~~= Seq::<Seq<char>>::empty());
    }
    while i < lines.len()
        invariant
            i <= lines.len(),
            r@ == spec_join_lines(lines.deep_view().take(i as int)),
        decreases lines.len() - i,
    {
        proof {
            reveal_strlit("\n");
            assert("\n"@ =~~= seq!['\n']);
        }
        if i > 0 {
            r.append("\n");
        }
        r.append(lines[i].as_str());
        proof {
            let dv = lines.deep_view();
            lemma_join_push(dv.take(i as int), dv[i as int]);
            assert(dv.take(i as int).push(dv[i as int]) =~~= dv.take(i as int + 1));
        }
        i += 1;
    }
    proof {
        assert(lines.deep_view().take(lines.len() as int) =~~= lines.deep_view());
    }
    r
}

// ---------------------------------------------------------------------------
// Substring search
// ---------------------------------------------------------------------------

/// `pat` occurs in `text` starting at position `i`.
pub open spec fn match_at(text: Seq<char>, pat: Seq<char>, i: int) -> bool {
    &&& 0 <= i
    &&& i + pat.len() <= text.len()
    &&& forall|k: int| 0 <= k < pat.len() ==> text[i + k] == pat[k]
}

/// `pat` occurs somewhere in `text`.
pub open spec fn contains_match(text: Seq<char>, pat: Seq<char>) -> bool {
    exists|i: int| match_at(text, pat, i)
}

/// The first occurrence of `pat` in `line`, as a character offset.  An
/// empty pattern matches at offset zero.
pub fn find_in_line(line: &str, pat: &str) -> (r: Option<usize>)
    ensures
        match r {
            Some(j) => match_at(line@, pat@, j as int) && forall|k: int|
                0 <= k < j ==> !match_at(line@, pat@, k),
            None => forall|k: int| !match_at(line@, pat@, k),
        },
{
    let n = line.unicode_len();
    let m = pat.unicode_len();
    if m > n {
        return None;
    }
    let mut j: usize = 0;
    while j <= n - m
        invariant
            n == line@.len(),
            m == pat@.len(),
            m <= n,
            j <= n - m + 1,
            forall|k: int| 0 <= k < j ==> !match_at(line@, pat@, k),
        decreases n - m - j + 1,
    {
        let mut k: usize = 0;
        let mut ok = true;
        while k < m && ok
            invariant
                n == line@.len(),
                m == pat@.len(),
                j + m <= n,
                k <= m,
                ok ==> forall|t: int| 0 <= t < k ==> line@[j + t] == pat@[t],
                !ok ==> !match_at(line@, pat@, j as int),
            decreases m - k, (if ok { 1int } else { 0 }),
        {
            if line.get_char(j + k) != pat.get_char(k) {
                ok = false;
            } else {
                k += 1;
            }
        }
        if ok {
            return Some(j);
        }
        j += 1;
    }
    assert forall|k: int| !match_at(line@, pat@, k) by {
        if 0 <= k <= n - m {
            assert(!match_at(line@, pat@, k));
        }
    }
    None
}

/// Search the buffer lines in order for the first occurrence of `query`,
/// returning the line index and the column of the first match in that line.
/// An empty query matches nothing.
pub fn find_in_lines(lines: &Vec<String>, query: &str) -> (r: Option<(usize, usize)>)
    ensures
        match r {
            Some(pos) => {
                &&& query@.len() > 0
                &&& (pos.0 as int) < lines.deep_view().len()
                &&& match_at(lines.deep_view()[pos.0 as int], query@, pos.1 as int)
                &&& forall|k: int|
                    0 <= k < pos.0 ==> !contains_match(lines.deep_view()[k], query@)
                &&& forall|c: int|
                    0 <= c < pos.1 ==> !match_at(lines.deep_view()[pos.0 as int], query@, c)
            },
            None => query@.len() == 0 || forall|k: int|
                0 <= k < lines.deep_view().len() ==> !contains_match(lines.deep_view()[k], query@),
        },
{
    if query.unicode_len() == 0 {
        return None;
    }
    let mut i: usize = 0;
    while i < lines.len()
        invariant
            query@.len() > 0,
            i <= lines.len(),
            forall|k: int| 0 <= k < i ==> !contains_match(lines.deep_view()[k], query@),
        decreases lines.len() - i,
    {
        match find_in_line(lines[i].as_str(), query) {
            Some(col) => {
                return Some((i, col));
            },
            None => {
                assert(!contains_match(lines.deep_view()[i as int], query@));
            },
        }
        i += 1;
    }
    None
}

// ---------------------------------------------------------------------------
// Markdown code fences
// ---------------------------------------------------------------------------

/// A markdown code-fence line: its trimmed text starts with three backticks.
pub open spec fn spec_is_fence(line: Seq<char>) -> bool {
    let t = spec_trim(line);
    t.len() >= 3 && t[0] == '`' && t[1] == '`' && t[2] == '`'
}

/// Whether `line`, once trimmed, starts with a markdown code fence.
pub fn is_fence(line: &str) -> (r: bool)
    ensures
        r == spec_is_fence(line@),
{
    let t = trim(line);
    let ts = t.as_str();
    ts.unicode_len() >= 3 && ts.get_char(0) == '`' && ts.get_char(1) == '`' && ts.get_char(2)
        == '`'
}

} // verus!
