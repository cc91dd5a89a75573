//! Small text utilities shared by the engine: centred padding, blankness,
//! ASCII case folding and line splitting.

use vstd::prelude::*;
use vstd::string::StrSliceExecFns;
use vstd::string::StringExecFns;

verus! {

/// `n` space characters.
pub open spec fn spaces(n: nat) -> Seq<char> {
    Seq::new(n, |i: int| ' ')
}

/// A string centred in a field of `width` characters: when the string is
/// shorter than the field, the missing width is split into a left and a
/// right run of spaces, the left one getting the smaller half.
pub open spec fn spec_pad(s: Seq<char>, width: nat) -> Seq<char> {
    if s.len() >= width {
        s
    } else {
        let left = ((width - s.len()) / 2) as nat;
        let right = (width - s.len() - left) as nat;
        spaces(left) + s + spaces(right)
    }
}

/// Relies on `String::push`: appends exactly the given character.
#[verifier::external_body]
pub(crate) fn push_char(s: &mut String, c: char)
    ensures
        final(s)@ == old(s)@.push(c),
{
    s.push(c)
}

/// Centre `s` in a field `width` characters wide, padding with spaces.
pub fn pad_str(s: &str, width: usize) -> (r: String)
    ensures
        r@ == spec_pad(s@, width as nat),
{
    let n = s.unicode_len();
    let mut r = String::new();
    if n >= width {
        r.append(s);
        assert(r@ =~= spec_pad(s@, width as nat));
        return r;
    }
    let pad = width - n;
    let left = pad / 2;
    let right = pad - left;
    proof {
        reveal_strlit(" ");
        assert(" "@ =~= seq![' ']);
    }
    let mut i: usize = 0;
    while i < left
        invariant
            i <= left,
            r@ =~= spaces(i as nat),
        decreases left - i,
    {
        r.append(" ");
        proof {
            reveal_strlit(" ");
            assert(" "@ =~= seq![' ']);
            assert(r@ =~= spaces((i + 1) as nat));
        }
        i = i + 1;
    }
    r.append(s);
    let mut j: usize = 0;
    while j < right
        invariant
            j <= right,
            r@ =~= spaces(left as nat) + s@ + spaces(j as nat),
        decreases right - j,
    {
        r.append(" ");
        proof {
            reveal_strlit(" ");
            assert(" "@ =~= seq![' ']);
            assert(r@ =~= spaces(left as nat) + s@ + spaces((j + 1) as nat));
        }
        j = j + 1;
    }
    proof {
        assert(r@ =~= spec_pad(s@, width as nat));
    }
    r
}

/// The whitespace characters that blankness is judged by.  The set is
/// the ASCII one — space, tab, carriage return, newline — a deliberate
/// narrowing: command output is judged blank by these four alone, so a
/// string of exotic Unicode whitespace counts as content.
pub open spec fn is_space_char(c: char) -> bool {
    c == ' ' || c == '\t' || c == '\n' || c == '\r'
}

/// A string is blank when every character in it is whitespace.
pub open spec fn is_blank(s: Seq<char>) -> bool {
    forall|i: int| 0 <= i < s.len() ==> is_space_char(s[i])
}

/// Decide whether `s` consists of whitespace alone.
pub fn is_blank_str(s: &str) -> (b: bool)
    ensures
        b == is_blank(s@),
{
    let n = s.unicode_len();
    let mut i: usize = 0;
    while i < n
        invariant
            i <= n == s@.len(),
            forall|k: int| 0 <= k < i ==> is_space_char(s@[k]),
        decreases n - i,
    {
        let c = s.get_char(i);
        if !(c == ' ' || c == '\t' || c == '\n' || c == '\r') {
            return false;
        }
        i = i + 1;
    }
    true
}

/// ASCII case folding of one character: upper-case letters go to their
/// lower-case counterpart, everything else stays as it is.
pub open spec fn lower_char(c: char) -> char {
    match c {
        'A' => 'a',
        'B' => 'b',
        'C' => 'c',
        'D' => 'd',
        'E' => 'e',
        'F' => 'f',
        'G' => 'g',
        'H' => 'h',
        'I' => 'i',
        'J' => 'j',
        'K' => 'k',
        'L' => 'l',
        'M' => 'm',
        'N' => 'n',
        'O' => 'o',
        'P' => 'p',
        'Q' => 'q',
        'R' => 'r',
        'S' => 's',
        'T' => 't',
        'U' => 'u',
        'V' => 'v',
        'W' => 'w',
        'X' => 'x',
        'Y' => 'y',
        'Z' => 'z',
        _ => c,
    }
}

/// ASCII case folding of a whole string.
pub open spec fn lower(s: Seq<char>) -> Seq<char> {
    s.map_values(|c: char| lower_char(c))
}

/// Folding a string twice is the same as folding it once.
pub proof fn lemma_lower_idempotent(s: Seq<char>)
    ensures
        lower(lower(s)) == lower(s),
{
    assert(lower(lower(s)) =~= lower(s));
}

/// ASCII case folding of one character, executably.
pub fn lower_char_exec(c: char) -> (r: char)
    ensures
        r == lower_char(c),
{
    match c {
        'A' => 'a',
        'B' => 'b',
        'C' => 'c',
        'D' => 'd',
        'E' => 'e',
        'F' => 'f',
        'G' => 'g',
        'H' => 'h',
        'I' => 'i',
        'J' => 'j',
        'K' => 'k',
        'L' => 'l',
        'M' => 'm',
        'N' => 'n',
        'O' => 'o',
        'P' => 'p',
        'Q' => 'q',
        'R' => 'r',
        'S' => 's',
        'T' => 't',
        'U' => 'u',
        'V' => 'v',
        'W' => 'w',
        'X' => 'x',
        'Y' => 'y',
        'Z' => 'z',
        _ => c,
    }
}

/// Whether the case-folded form of `s` equals `t` (which callers pass
/// already folded, e.g. a lower-case literal).
pub fn matches_folded(s: &str, t: &str) -> (b: bool)
    ensures
        b == (lower(s@) == t@),
{
    let n = s.unicode_len();
    let m = t.unicode_len();
    if n != m {
        proof {
            assert(lower(s@).len() == s@.len());
        }
        return false;
    }
    let mut i: usize = 0;
    while i < n
        invariant
            i <= n == s@.len() == t@.len(),
            forall|k: int| 0 <= k < i ==> lower_char(s@[k]) == t@[k],
        decreases n - i,
    {
        let c = lower_char_exec(s.get_char(i));
        let d = t.get_char(i);
        if c != d {
            proof {
                assert(lower(s@)[i as int] == lower_char(s@[i as int]));
            }
            return false;
        }
        i = i + 1;
    }
    proof {
        assert(lower(s@) =~= t@);
    }
    true
}

/// A segment with one trailing carriage return removed, so a
/// carriage-return-newline pair ends a line just as a bare newline does.
pub open spec fn strip_cr(l: Seq<char>) -> Seq<char> {
    if l.len() > 0 && l.last() == '\r' {
        l.drop_last()
    } else {
        l
    }
}

/// The lines of a text: segments separated by the newline character, a
/// carriage return directly before a newline belonging to the separator,
/// and a trailing separator ending the last line rather than opening an
/// empty one.  A carriage return anywhere else stays part of its line.
pub open spec fn lines_of(s: Seq<char>) -> Seq<Seq<char>>
    decreases s.len(),
{
    if s.len() == 0 {
        seq![]
    } else if s[0] == '\n' {
        seq![Seq::<char>::empty()] + lines_of(s.drop_first())
    } else if s.len() >= 2 && s[0] == '\r' && s[1] == '\n' {
        seq![Seq::<char>::empty()] + lines_of(s.subrange(2, s.len() as int))
    } else {
        let rest = lines_of(s.drop_first());
        if rest.len() == 0 {
            seq![seq![s[0]]]
        } else {
            seq![seq![s[0]] + rest[0]] + rest.drop_first()
        }
    }
}

/// A newline after a newline-free prefix closes that prefix as one line,
/// less the carriage return the separator may carry.
pub proof fn lemma_lines_of_line_break(l: Seq<char>, rest: Seq<char>)
    requires
        forall|i: int| 0 <= i < l.len() ==> l[i] != '\n',
    ensures
        lines_of(l + seq!['\n'] + rest) == seq![strip_cr(l)] + lines_of(rest),
    decreases l.len(),
{
    let s = l + seq!['\n'] + rest;
    if l.len() == 0 {
        assert(s =~= seq!['\n'] + rest);
        assert(s[0] == '\n');
        assert(strip_cr(l) =~= Seq::<char>::empty());
        assert(s.drop_first() =~= rest);
        assert(lines_of(s) == seq![Seq::<char>::empty()] + lines_of(s.drop_first()));
        assert(lines_of(s) =~~= seq![strip_cr(l)] + lines_of(rest));
    } else if l.len() == 1 && l[0] == '\r' {
        assert(s.len() >= 2 && s[0] == '\r' && s[1] == '\n');
        assert(s.subrange(2, s.len() as int) =~= rest);
        assert(lines_of(s) == seq![Seq::<char>::empty()] + lines_of(s.subrange(2, s.len() as int)));
        assert(strip_cr(l) =~= Seq::<char>::empty());
        assert(lines_of(s) =~~= seq![strip_cr(l)] + lines_of(rest));
    } else {
        assert(l[0] != '\n');
        assert(s[0] == l[0]);
        if s[0] == '\r' {
            assert(l.len() >= 2);
            assert(s[1] == l[1]);
            assert(l[1] != '\n');
        }
        assert(!(s.len() >= 2 && s[0] == '\r' && s[1] == '\n'));
        assert(s.drop_first() =~= l.drop_first() + seq!['\n'] + rest);
        lemma_lines_of_line_break(l.drop_first(), rest);
        let sub = lines_of(s.drop_first());
        assert(sub == seq![strip_cr(l.drop_first())] + lines_of(rest));
        assert(sub.len() > 0);
        assert(sub[0] == strip_cr(l.drop_first()));
        assert(lines_of(s) == seq![seq![s[0]] + sub[0]] + sub.drop_first());
        if l.len() >= 2 && l.last() == '\r' {
            assert(l.drop_first().last() == l.last());
            assert(strip_cr(l.drop_first()) == l.drop_first().drop_last());
            assert(seq![s[0]] + l.drop_first().drop_last() =~= l.drop_last());
            assert(strip_cr(l) == l.drop_last());
        } else {
            if l.len() == 1 {
                assert(l.drop_first().len() == 0);
                assert(strip_cr(l.drop_first()) =~= l.drop_first());
            } else {
                assert(l.drop_first().last() == l.last());
                assert(strip_cr(l.drop_first()) == l.drop_first());
            }
            assert(seq![s[0]] + l.drop_first() =~= l);
            assert(strip_cr(l) == l);
        }
        assert(seq![s[0]] + sub[0] == strip_cr(l));
        assert(sub.drop_first() =~= lines_of(rest));
        assert(lines_of(s) =~~= seq![strip_cr(l)] + lines_of(rest));
    }
}

/// A newline-free text is one single line, or no line at all when empty;
/// without a separator no carriage return is stripped.
pub proof fn lemma_lines_of_no_newline(l: Seq<char>)
    requires
        forall|i: int| 0 <= i < l.len() ==> l[i] != '\n',
    ensures
        lines_of(l) == if l.len() == 0 {
            Seq::<Seq<char>>::empty()
        } else {
            seq![l]
        },
    decreases l.len(),
{
    if l.len() > 0 {
        assert(l[0] != '\n');
        if l.len() >= 2 {
            assert(l[1] != '\n');
        }
        assert(!(l.len() >= 2 && l[0] == '\r' && l[1] == '\n'));
        lemma_lines_of_no_newline(l.drop_first());
        let rest = lines_of(l.drop_first());
        if l.len() == 1 {
            assert(l.drop_first().len() == 0);
            assert(rest.len() == 0);
            assert(lines_of(l) == seq![seq![l[0]]]);
            assert(seq![l[0]] =~= l);
        } else {
            assert(l.drop_first().len() > 0);
            assert(l.drop_first()[0] != '\n');
            assert(rest == seq![l.drop_first()]);
            assert(lines_of(l) == seq![seq![l[0]] + rest[0]] + rest.drop_first());
            assert(seq![l[0]] + l.drop_first() =~= l);
            assert(rest.drop_first() =~= Seq::<Seq<char>>::empty());
            assert(lines_of(l) =~= seq![l]);
        }
    }
}

/// Split `s` into its lines, newline or carriage-return-newline ending\n/// each one.
pub fn split_lines(s: &str) -> (r: Vec<String>)
    ensures
        r@.map_values(|l: String| l@) == lines_of(s@),
{
    let n = s.unicode_len();
    let mut r: Vec<String> = Vec::new();
    let mut start: usize = 0;
    let mut i: usize = 0;
    proof {
        assert(s@.subrange(0, n as int) =~= s@);
        assert(r@.map_values(|l: String| l@) =~= Seq::<Seq<char>>::empty());
        assert(r@.map_values(|l: String| l@) + lines_of(s@) =~= lines_of(s@));
    }
    while i < n
        invariant
            start <= i <= n == s@.len(),
            forall|k: int| start <= k < i ==> s@[k] != '\n',
            lines_of(s@) == r@.map_values(|l: String| l@) + lines_of(
                s@.subrange(start as int, n as int),
            ),
        decreases n - i,
    {
        let c = s.get_char(i);
        if c == '\n' {
            let end = if i > start && s.get_char(i - 1) == '\r' {
                i - 1
            } else {
                i
            };
            let line = String::from_str(s.substring_char(start, end));
            proof {
                let l = s@.subrange(start as int, i as int);
                let tail = s@.subrange(i + 1, n as int);
                if i > start && s@[i - 1] == '\r' {
                    assert(l.len() > 0 && l.last() == '\r');
                    assert(line@ =~= l.drop_last());
                    assert(line@ == strip_cr(l));
                } else {
                    if l.len() > 0 {
                        assert(l.last() == s@[i - 1]);
                    }
                    assert(line@ =~= l);
                    assert(line@ == strip_cr(l));
                }
                assert(s@.subrange(start as int, n as int) =~= l + seq!['\n'] + tail);
                lemma_lines_of_line_break(l, tail);
                assert(r@.push(line).map_values(|x: String| x@) =~= r@.map_values(
                    |x: String| x@,
                ).push(line@));
                assert(r@.map_values(|x: String| x@) + (seq![strip_cr(l)] + lines_of(tail))
                    =~= r@.push(line).map_values(|x: String| x@) + lines_of(tail));
            }
            r.push(line);
            start = i + 1;
        }
        i = i + 1;
    }
    if start < n {
        let line = String::from_str(s.substring_char(start, n));
        proof {
            let l = s@.subrange(start as int, n as int);
            lemma_lines_of_no_newline(l);
            assert(r@.push(line).map_values(|x: String| x@) =~= r@.map_values(
                |x: String| x@,
            ).push(line@));
            assert(r@.map_values(|x: String| x@) + seq![l] =~= r@.push(line).map_values(
                |x: String| x@,
            ));
        }
        r.push(line);
    } else {
        proof {
            let l = s@.subrange(start as int, n as int);
            lemma_lines_of_no_newline(l);
            assert(r@.map_values(|x: String| x@) + lines_of(l) =~= r@.map_values(
                |x: String| x@,
            ));
        }
    }
    r
}

} // verus!
