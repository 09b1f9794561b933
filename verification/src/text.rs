//! Characters and strings as the capture loop and the rule matcher see them.

use vstd::prelude::*;
use vstd::string::*;

verus! {

/// What `char::is_alphanumeric` answers for a character: membership in the
/// Unicode Alphabetic, Nd, Nl or No classes of the toolchain's tables.
pub uninterp spec fn unicode_alphanumeric(c: char) -> bool;

/// What `char::is_whitespace` answers for a character: the Unicode
/// White_Space property of the toolchain's tables.
pub uninterp spec fn unicode_whitespace(c: char) -> bool;

/// `char::is_alphanumeric` is a function of the character alone; its answer
/// is known here only by name.
pub assume_specification[ char::is_alphanumeric ](c: char) -> (r: bool)
    ensures
        r == unicode_alphanumeric(c),
;

/// `char::is_whitespace` is a function of the character alone; its answer is
/// known here only by name.
pub assume_specification[ char::is_whitespace ](c: char) -> (r: bool)
    ensures
        r == unicode_whitespace(c),
;

/// The ASCII control characters: U+0000 to U+001F, and U+007F.
pub open spec fn ascii_control(c: char) -> bool {
    c as u32 <= 0x1F || c as u32 == 0x7F
}

/// The ASCII punctuation characters, in their four ranges.
pub open spec fn ascii_punctuation(c: char) -> bool {
    let n = c as u32;
    ||| 0x21 <= n <= 0x2F
    ||| 0x3A <= n <= 0x40
    ||| 0x5B <= n <= 0x60
    ||| 0x7B <= n <= 0x7E
}

/// Whether `c` is an ASCII control character.
pub fn is_ascii_control(c: char) -> (r: bool)
    ensures
        r == ascii_control(c),
{
    let n: u32 = c as u32;
    n <= 0x1F || n == 0x7F
}

/// Whether `c` is an ASCII punctuation character.
pub fn is_ascii_punctuation(c: char) -> (r: bool)
    ensures
        r == ascii_punctuation(c),
{
    let n: u32 = c as u32;
    (0x21 <= n && n <= 0x2F) || (0x3A <= n && n <= 0x40) || (0x5B <= n && n <= 0x60) || (0x7B <= n
        && n <= 0x7E)
}

/// `needle` occurs in `hay` at offset `at`.
pub open spec fn occurs_at(hay: Seq<char>, needle: Seq<char>, at: int) -> bool {
    &&& 0 <= at
    &&& at + needle.len() <= hay.len()
    &&& hay.subrange(at, at + needle.len()) == needle
}

/// `needle` is a contiguous run of `hay`; the empty sequence is one of every
/// sequence.
pub open spec fn is_substring(hay: Seq<char>, needle: Seq<char>) -> bool {
    exists|at: int| occurs_at(hay, needle, at)
}

/// The characters of a string slice, in order.
pub fn chars_of(s: &str) -> (v: Vec<char>)
    ensures
        v@ == s@,
{
    let n: usize = s.unicode_len();
    let mut v: Vec<char> = Vec::new();
    let mut i: usize = 0;
    while i < n
        invariant
            n == s@.len(),
            i <= n,
            v@ == s@.subrange(0, i as int),
        decreases n - i,
    {
        v.push(s.get_char(i));
        i += 1;
    }
    v
}

/// Whether `needle` matches `hay` at offset `at`.
fn matches_at(hay: &Vec<char>, needle: &Vec<char>, at: usize) -> (r: bool)
    requires
        at + needle@.len() <= hay@.len(),
    ensures
        r == occurs_at(hay@, needle@, at as int),
{
    let m: usize = needle.len();
    let n: usize = hay.len();
    let mut j: usize = 0;
    while j < m
        invariant
            m == needle@.len(),
            n == hay@.len(),
            j <= m,
            at + m <= n,
            forall|k: int| 0 <= k < j ==> hay@[at + k] == needle@[k],
        decreases m - j,
    {
        if hay[at + j] != needle[j] {
            assert(hay@.subrange(at as int, at + m)[j as int] != needle@[j as int]);
            return false;
        }
        j += 1;
    }
    assert(hay@.subrange(at as int, at + m) =~= needle@);
    true
}

/// Substring test on character sequences.
pub fn contains_chars(hay: &Vec<char>, needle: &Vec<char>) -> (r: bool)
    ensures
        r == is_substring(hay@, needle@),
{
    let n: usize = hay.len();
    let m: usize = needle.len();
    if m > n {
        return false;
    }
    let last: usize = n - m;
    let mut i: usize = 0;
    loop
        invariant
            n == hay@.len(),
            m == needle@.len(),
            last == n - m,
            i <= last,
            forall|at: int| 0 <= at < i ==> !occurs_at(hay@, needle@, at),
        decreases last - i,
    {
        if matches_at(hay, needle, i) {
            return true;
        }
        if i == last {
            return false;
        }
        i += 1;
    }
}

/// Whether two strings hold the same characters.
pub fn same_text(a: &str, b: &str) -> (r: bool)
    ensures
        r == (a@ == b@),
{
    let x = chars_of(a);
    let y = chars_of(b);
    if x.len() != y.len() {
        return false;
    }
    let n: usize = x.len();
    let mut i: usize = 0;
    while i < n
        invariant
            x@ == a@,
            y@ == b@,
            n == x@.len(),
            n == y@.len(),
            i <= n,
            forall|k: int| 0 <= k < i ==> x@[k] == y@[k],
        decreases n - i,
    {
        if x[i] != y[i] {
            assert(a@[i as int] != b@[i as int]);
            return false;
        }
        i += 1;
    }
    assert(x@ =~= y@);
    true
}

/// Substring test on strings, by characters.
pub fn contains_str(hay: &str, needle: &str) -> (r: bool)
    ensures
        r == is_substring(hay@, needle@),
{
    let h = chars_of(hay);
    let n = chars_of(needle);
    contains_chars(&h, &n)
}

/// The parts of `s` between the occurrences of `sep`. A text without `sep` is
/// its own single part; a separator at either end, or two in a row, leave an
/// empty part.
pub open spec fn split(s: Seq<char>, sep: char) -> Seq<Seq<char>>
    decreases s.len(),
{
    if s.len() == 0 {
        seq![Seq::empty()]
    } else {
        let parts = split(s.drop_last(), sep);
        if s.last() == sep {
            parts.push(Seq::empty())
        } else {
            parts.update(parts.len() - 1, parts.last().push(s.last()))
        }
    }
}

/// The parts written one after another with `sep` between them.
pub open spec fn joined(parts: Seq<Seq<char>>, sep: Seq<char>) -> Seq<char>
    decreases parts.len(),
{
    if parts.len() == 0 {
        Seq::empty()
    } else if parts.len() == 1 {
        parts[0]
    } else {
        joined(parts.drop_last(), sep) + sep + parts.last()
    }
}

/// Splitting loses nothing: there is at least one part, no part holds the
/// separator, and the parts joined by the separator give the text back.
pub proof fn lemma_split_joins(s: Seq<char>, sep: char)
    ensures
        split(s, sep).len() >= 1,
        forall|i: int| 0 <= i < split(s, sep).len() ==> !(#[trigger] split(s, sep)[i]).contains(sep),
        joined(split(s, sep), seq![sep]) == s,
    decreases s.len(),
{
    let by = seq![sep];
    if s.len() == 0 {
        assert(joined(seq![Seq::<char>::empty()], by) =~= s);
    } else {
        let init = s.drop_last();
        lemma_split_joins(init, sep);
        let parts = split(init, sep);
        if s.last() == sep {
            let grown = parts.push(Seq::empty());
            assert(grown.drop_last() =~= parts);
            assert(joined(grown, by) =~= init + seq![sep]);
            assert(init + seq![sep] =~= s);
        } else {
            let last = parts.last().push(s.last());
            let grown = parts.update(parts.len() - 1, last);
            assert forall|i: int| 0 <= i < grown.len() implies !(#[trigger] grown[i]).contains(
                sep,
            ) by {
                if i < parts.len() - 1 {
                    assert(grown[i] == parts[i]);
                } else {
                    assert(!parts[i].contains(sep));
                    if last.contains(sep) {
                        let at = choose|at: int| 0 <= at < last.len() && last[at] == sep;
                        assert(parts[i][at] == sep);
                    }
                }
            }
            if parts.len() == 1 {
                assert(joined(grown, by) =~= s);
            } else {
                assert(grown.drop_last() =~= parts.drop_last());
                assert(joined(grown, by) =~= joined(parts, by).push(s.last()));
                assert(init.push(s.last()) =~= s);
            }
        }
    }
}

/// An optional string, taken as its characters.
pub open spec fn opt_text(s: Option<String>) -> Option<Seq<char>> {
    match s {
        Some(t) => Some(t@),
        None => None,
    }
}

/// A copy of an optional string.
pub fn copy_opt(s: &Option<String>) -> (r: Option<String>)
    ensures
        opt_text(r) == opt_text(*s),
{
    match s {
        Some(t) => Some(t.clone()),
        None => None,
    }
}

/// The strings of `parts`, each taken as its characters.
pub open spec fn texts(parts: Seq<String>) -> Seq<Seq<char>> {
    parts.map_values(|p: String| p@)
}

/// Splits `s` at every `sep`.
pub fn split_on(s: &str, sep: char) -> (parts: Vec<String>)
    ensures
        texts(parts@) == split(s@, sep),
{
    let n: usize = s.unicode_len();
    let mut parts: Vec<String> = Vec::new();
    let mut start: usize = 0;
    let mut i: usize = 0;
    proof {
        assert(s@.subrange(0, 0) =~= Seq::<char>::empty());
        assert(texts(parts@).push(s@.subrange(0, 0)) =~= seq![Seq::<char>::empty()]);
    }
    while i < n
        invariant
            n == s@.len(),
            start <= i <= n,
            split(s@.subrange(0, i as int), sep) == texts(parts@).push(
                s@.subrange(start as int, i as int),
            ),
        decreases n - i,
    {
        let c: char = s.get_char(i);
        proof {
            let next = s@.subrange(0, i + 1);
            assert(next.drop_last() =~= s@.subrange(0, i as int));
            assert(next.last() == c);
        }
        let ghost before = texts(parts@);
        let ghost current = s@.subrange(start as int, i as int);
        if c == sep {
            parts.push(s.substring_char(start, i).to_owned());
            start = i + 1;
            proof {
                assert(texts(parts@) =~= before.push(current));
                assert(s@.subrange(start as int, i + 1) =~= Seq::<char>::empty());
            }
        } else {
            proof {
                assert(current.push(c) =~= s@.subrange(start as int, i + 1));
                assert(before.push(current).update(before.len() as int, current.push(c))
                    =~= before.push(s@.subrange(start as int, i + 1)));
            }
        }
        i += 1;
    }
    parts.push(s.substring_char(start, n).to_owned());
    proof {
        assert(s@.subrange(0, n as int) =~= s@);
        assert(texts(parts@) =~= split(s@, sep));
    }
    parts
}

/// Writes `parts` one after another with `sep` between them.
pub fn join_with(parts: &Vec<String>, sep: &str) -> (r: String)
    ensures
        r@ == joined(texts(parts@), sep@),
{
    let n: usize = parts.len();
    let mut out = String::new();
    let mut i: usize = 0;
    proof {
        assert(texts(parts@).subrange(0, 0) =~= Seq::<Seq<char>>::empty());
    }
    while i < n
        invariant
            n == parts@.len(),
            i <= n,
            out@ == joined(texts(parts@).subrange(0, i as int), sep@),
        decreases n - i,
    {
        proof {
            let next = texts(parts@).subrange(0, i + 1);
            assert(next.drop_last() =~= texts(parts@).subrange(0, i as int));
            assert(next.last() == parts@[i as int]@);
            if i == 0 {
                assert(out@ + parts@[0]@ =~= parts@[0]@);
                assert(next[0] == parts@[0]@);
            }
        }
        if i > 0 {
            out.append(sep);
        }
        out.append(parts[i].as_str());
        i += 1;
    }
    proof {
        assert(texts(parts@).subrange(0, n as int) =~= texts(parts@));
    }
    out
}

/// The digit for `d` in base sixteen, in upper case. Whatever is not below
/// fifteen reads as the last digit.
pub open spec fn hex_digit(d: int) -> char {
    if d == 0 {
        '0'
    } else if d == 1 {
        '1'
    } else if d == 2 {
        '2'
    } else if d == 3 {
        '3'
    } else if d == 4 {
        '4'
    } else if d == 5 {
        '5'
    } else if d == 6 {
        '6'
    } else if d == 7 {
        '7'
    } else if d == 8 {
        '8'
    } else if d == 9 {
        '9'
    } else if d == 10 {
        'A'
    } else if d == 11 {
        'B'
    } else if d == 12 {
        'C'
    } else if d == 13 {
        'D'
    } else if d == 14 {
        'E'
    } else {
        'F'
    }
}

/// The digit for `d` as a string of one character.
pub fn hex_digit_str(d: u8) -> (r: &'static str)
    ensures
        r@ == seq![hex_digit(d as int)],
{
    proof {
        reveal_strlit("0");
        reveal_strlit("1");
        reveal_strlit("2");
        reveal_strlit("3");
        reveal_strlit("4");
        reveal_strlit("5");
        reveal_strlit("6");
        reveal_strlit("7");
        reveal_strlit("8");
        reveal_strlit("9");
        reveal_strlit("A");
        reveal_strlit("B");
        reveal_strlit("C");
        reveal_strlit("D");
        reveal_strlit("E");
        reveal_strlit("F");
    }
    let r = match d {
        0 => "0",
        1 => "1",
        2 => "2",
        3 => "3",
        4 => "4",
        5 => "5",
        6 => "6",
        7 => "7",
        8 => "8",
        9 => "9",
        10 => "A",
        11 => "B",
        12 => "C",
        13 => "D",
        14 => "E",
        _ => "F",
    };
    assert(r@ =~= seq![hex_digit(d as int)]);
    r
}

/// `n` written in base ten, without leading zeros.
pub open spec fn decimal(n: nat) -> Seq<char>
    decreases n,
{
    if n < 10 {
        seq![hex_digit(n as int)]
    } else {
        decimal(n / 10).push(hex_digit((n % 10) as int))
    }
}

/// Appends `n` in base ten to `out`.
pub fn write_decimal(n: u128, out: &mut String)
    ensures
        final(out)@ == old(out)@ + decimal(n as nat),
    decreases n,
{
    let ghost before = out@;
    if n >= 10 {
        write_decimal(n / 10, out);
    }
    out.append(hex_digit_str((n % 10) as u8));
    assert(out@ =~= before + decimal(n as nat));
}

} // verus!
