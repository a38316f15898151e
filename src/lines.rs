//! Cell sources as line-inclusive segments: every line keeps its own
//! trailing newline, and joining the lines gives the text back.

use vstd::prelude::*;
use crate::text::str_views;

verus! {

/// The lines joined end to end.
pub open spec fn concat(lines: Seq<Seq<char>>) -> Seq<char>
    decreases lines.len(),
{
    if lines.len() == 0 {
        Seq::empty()
    } else {
        concat(lines.drop_last()) + lines.last()
    }
}

/// The line-inclusive segments of a text, built one character at a time:
/// a character starts a new segment at the beginning of the text or after
/// a newline, and otherwise extends the last segment.
pub open spec fn spec_lines(s: Seq<char>) -> Seq<Seq<char>>
    decreases s.len(),
{
    if s.len() == 0 {
        Seq::empty()
    } else {
        let rest = spec_lines(s.drop_last());
        if rest.len() == 0 || rest.last().last() == '\n' {
            rest.push(seq![s.last()])
        } else {
            rest.update(rest.len() - 1, rest.last().push(s.last()))
        }
    }
}

/// The segments are not empty, each of them but the last ends in a newline,
/// and no segment holds a newline anywhere but at its end.
pub open spec fn well_split(lines: Seq<Seq<char>>) -> bool {
    forall|i: int| 0 <= i < lines.len() ==> {
        &&& lines[i].len() > 0
        &&& (i < lines.len() - 1 ==> lines[i].last() == '\n')
        &&& forall|k: int| 0 <= k < lines[i].len() - 1 ==> lines[i][k] != '\n'
    }
}

/// Splitting a text into line-inclusive segments and joining them again
/// gives back the text, and the segments are well split.
pub proof fn lemma_lines_concat(s: Seq<char>)
    ensures
        concat(spec_lines(s)) == s,
        well_split(spec_lines(s)),
        s.len() == 0 <==> spec_lines(s).len() == 0,
        s.len() > 0 ==> spec_lines(s).last().last() == s.last(),
    decreases s.len(),
{
    if s.len() > 0 {
        let p = s.drop_last();
        lemma_lines_concat(p);
        let rest = spec_lines(p);
        if rest.len() == 0 || rest.last().last() == '\n' {
            let out = rest.push(seq![s.last()]);
            assert(out.drop_last() =~= rest);
            assert(s =~= p + seq![s.last()]);
            assert(well_split(out)) by {
                assert forall|i: int| 0 <= i < out.len() - 1 implies out[i] == rest[i] by {}
            }
        } else {
            let n = rest.len();
            let out = rest.update(n - 1, rest.last().push(s.last()));
            assert(out.drop_last() =~= rest.drop_last());
            assert(concat(rest) == concat(rest.drop_last()) + rest.last());
            assert(s =~= p + seq![s.last()]);
            assert(concat(out) =~= concat(rest) + seq![s.last()]);
            assert(well_split(out)) by {
                assert forall|i: int| 0 <= i < out.len() implies {
                    &&& out[i].len() > 0
                    &&& (i < out.len() - 1 ==> out[i].last() == '\n')
                    &&& forall|k: int| 0 <= k < out[i].len() - 1 ==> out[i][k] != '\n'
                } by {
                    if i == n - 1 {
                        assert forall|k: int| 0 <= k < out[i].len() - 1 implies out[i][k] != '\n' by {
                            if k < rest.last().len() - 1 {
                            } else {
                                assert(k == rest.last().len() - 1);
                            }
                        }
                    }
                }
            }
        }
    }
}

/// The line-inclusive segments of `text`: each line keeps its newline, the
/// last one may lack it, and an empty text has no lines.
pub fn split_lines(text: &str) -> (r: Vec<String>)
    ensures
        str_views(r@) == spec_lines(text@),
        concat(str_views(r@)) == text@,
        well_split(str_views(r@)),
{
    proof {
        lemma_lines_concat(text@);
    }
    let n = text.unicode_len();
    let mut lines: Vec<String> = Vec::new();
    let mut start: usize = 0;
    let mut i: usize = 0;
    while i < n
        invariant
            n == text@.len(),
            start <= i <= n,
            spec_lines(text@.take(i as int)) == str_views(lines@) + (if start < i {
                seq![text@.subrange(start as int, i as int)]
            } else {
                Seq::empty()
            }),
            start < i ==> text@[i - 1] != '\n',
            lines@.len() > 0 ==> lines@.last()@.len() > 0 && lines@.last()@.last() == '\n',
            lines@.len() == 0 ==> start == 0,
        decreases n - i,
    {
        let c = text.get_char(i);
        proof {
            let t = text@.take(i + 1);
            assert(t.drop_last() =~= text@.take(i as int));
            assert(t.last() == c);
            let rest = spec_lines(text@.take(i as int));
            if start < i {
                assert(text@.subrange(start as int, i as int).push(c) =~= text@.subrange(start as int, i + 1));
                assert(rest.last() == text@.subrange(start as int, i as int));
                assert(rest.update(rest.len() - 1, rest.last().push(c)) =~= str_views(lines@) + seq![
                    text@.subrange(start as int, i + 1),
                ]);
            } else {
                assert(seq![c] =~= text@.subrange(start as int, i + 1));
                assert(rest =~= str_views(lines@));
                assert(rest.push(seq![c]) =~= str_views(lines@) + seq![text@.subrange(start as int, i + 1)]);
            }
        }
        if c == '\n' {
            let ghost before = lines@;
            lines.push(String::from_str(text.substring_char(start, i + 1)));
            proof {
                assert(str_views(lines@) =~= str_views(before) + seq![text@.subrange(start as int, i + 1)]);
            }
            start = i + 1;
        }
        i = i + 1;
    }
    if start < n {
        lines.push(String::from_str(text.substring_char(start, n)));
    }
    proof {
        assert(text@.take(n as int) =~= text@);
        assert(str_views(lines@) =~= spec_lines(text@));
    }
    lines
}

/// The text of a list of lines, joined end to end.
pub fn join_lines(lines: &Vec<String>) -> (r: String)
    ensures
        r@ == concat(str_views(lines@)),
{
    let mut r = String::new();
    let mut i: usize = 0;
    while i < lines.len()
        invariant
            i <= lines@.len(),
            r@ == concat(str_views(lines@.take(i as int))),
        decreases lines@.len() - i,
    {
        r.append(lines[i].as_str());
        proof {
            assert(str_views(lines@.take(i + 1)).drop_last() =~= str_views(lines@.take(i as int)));
        }
        i = i + 1;
    }
    proof {
        assert(lines@.take(i as int) =~= lines@);
    }
    r
}

/// The characters with the Unicode White_Space property.
pub open spec fn spec_is_whitespace(c: char) -> bool {
    let u = c as u32;
    (0x9 <= u <= 0xd) || u == 0x20 || u == 0x85 || u == 0xa0 || u == 0x1680
        || (0x2000 <= u <= 0x200a) || u == 0x2028 || u == 0x2029 || u == 0x202f
        || u == 0x205f || u == 0x3000
}

fn is_whitespace(c: char) -> (r: bool)
    ensures
        r == spec_is_whitespace(c),
{
    let u = c as u32;
    (0x9 <= u && u <= 0xd) || u == 0x20 || u == 0x85 || u == 0xa0 || u == 0x1680
        || (0x2000 <= u && u <= 0x200a) || u == 0x2028 || u == 0x2029 || u == 0x202f
        || u == 0x205f || u == 0x3000
}

/// The text without its leading whitespace.
pub open spec fn trim_start(s: Seq<char>) -> Seq<char>
    decreases s.len(),
{
    if s.len() > 0 && spec_is_whitespace(s[0]) {
        trim_start(s.skip(1))
    } else {
        s
    }
}

/// The text without its trailing whitespace.
pub open spec fn trim_end(s: Seq<char>) -> Seq<char>
    decreases s.len(),
{
    if s.len() > 0 && spec_is_whitespace(s.last()) {
        trim_end(s.drop_last())
    } else {
        s
    }
}

/// The text without leading and trailing whitespace.
pub open spec fn spec_trim(s: Seq<char>) -> Seq<char> {
    trim_end(trim_start(s))
}

/// `text` without leading and trailing whitespace.
pub fn trim(text: &str) -> (r: &str)
    ensures
        r@ == spec_trim(text@),
{
    let n = text.unicode_len();
    let mut a: usize = 0;
    assert(text@.skip(0) =~= text@);
    while a < n && is_whitespace(text.get_char(a))
        invariant
            n == text@.len(),
            a <= n,
            trim_start(text@) == trim_start(text@.skip(a as int)),
        decreases n - a,
    {
        assert(text@.skip(a as int).skip(1) =~= text@.skip(a + 1));
        a = a + 1;
    }
    let mut b: usize = n;
    assert(text@.skip(a as int) =~= text@.subrange(a as int, n as int));
    while b > a && is_whitespace(text.get_char(b - 1))
        invariant
            n == text@.len(),
            a <= b <= n,
            trim_start(text@) == text@.subrange(a as int, n as int),
            spec_trim(text@) == trim_end(text@.subrange(a as int, b as int)),
        decreases b - a,
    {
        assert(text@.subrange(a as int, b as int).drop_last() =~= text@.subrange(a as int, b - 1));
        b = b - 1;
    }
    text.substring_char(a, b)
}

} // verus!
