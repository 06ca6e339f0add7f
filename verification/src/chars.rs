//! Character-level helpers shared by the text-handling modules: converting
//! between `String` and `Vec<char>`, trimming, and decimal-digit scanning.

use vstd::prelude::*;

verus! {

/// Relies on `String::push`: appends the given character to the end of the
/// string.
#[verifier::external_body]
pub(crate) fn push_char(s: &mut String, c: char)
    ensures
        final(s)@ == old(s)@.push(c),
{
    s.push(c);
}

/// The characters of `s`, in order, as a vector.
pub fn string_chars(s: &str) -> (r: Vec<char>)
    ensures
        r@ == s@,
{
    let n = s.unicode_len();
    let mut v: Vec<char> = Vec::new();
    let mut i: usize = 0;
    while i < n
        invariant
            i <= n,
            n == s@.len(),
            v@ == s@.subrange(0, i as int),
        decreases n - i,
    {
        let c = s.get_char(i);
        v.push(c);
        i += 1;
    }
    proof {
        assert(v@ =~= s@);
    }
    v
}

/// The vector's characters, joined into a string.
pub fn chars_to_string(v: &Vec<char>) -> (r: String)
    ensures
        r@ == v@,
{
    let mut s = String::new();
    let mut i: usize = 0;
    while i < v.len()
        invariant
            i <= v.len(),
            s@ == v@.subrange(0, i as int),
        decreases v.len() - i,
    {
        push_char(&mut s, v[i]);
        proof {
            assert(s@ =~= v@.subrange(0, i + 1 as int));
        }
        i += 1;
    }
    proof {
        assert(s@ =~= v@);
    }
    s
}

/// The copy of `v[from..to]`.
pub fn copy_range(v: &Vec<char>, from: usize, to: usize) -> (r: Vec<char>)
    requires
        from <= to <= v@.len(),
    ensures
        r@ == v@.subrange(from as int, to as int),
{
    let mut r: Vec<char> = Vec::new();
    let mut k = from;
    while k < to
        invariant
            from <= k <= to <= v@.len(),
            r@ == v@.subrange(from as int, k as int),
        decreases to - k,
    {
        r.push(v[k]);
        proof {
            assert(v@.subrange(from as int, k as int).push(v@[k as int]) =~= v@.subrange(
                from as int,
                k + 1 as int,
            ));
        }
        k += 1;
    }
    r
}

/// Whether two strings hold the same characters.
pub fn str_eq(a: &str, b: &str) -> (r: bool)
    ensures
        r == (a@ == b@),
{
    let na = a.unicode_len();
    let nb = b.unicode_len();
    if na != nb {
        return false;
    }
    let mut i: usize = 0;
    while i < na
        invariant
            i <= na,
            na == a@.len(),
            na == b@.len(),
            forall|k: int| 0 <= k < i ==> a@[k] == b@[k],
        decreases na - i,
    {
        if a.get_char(i) != b.get_char(i) {
            return false;
        }
        i += 1;
    }
    proof {
        assert(a@ =~= b@);
    }
    true
}

/// Whitespace for the purposes of trimming a lyric line.
pub open spec fn is_lyric_space(c: char) -> bool {
    c == ' ' || c == '\t' || c == '\r' || c == '\n'
}

/// A decimal digit.
pub open spec fn is_ascii_digit(c: char) -> bool {
    48 <= c as int <= 57
}

/// The numeric value of one decimal digit.
pub open spec fn digit_val(c: char) -> nat {
    (c as nat - 48) as nat
}

pub fn exec_is_ascii_digit(c: char) -> (r: bool)
    ensures
        r == is_ascii_digit(c),
{
    let d = c as u32;
    48 <= d && d <= 57
}

pub fn exec_is_lyric_space(c: char) -> (r: bool)
    ensures
        r == is_lyric_space(c),
{
    c == ' ' || c == '\t' || c == '\r' || c == '\n'
}

/// `s` with leading whitespace removed.
pub open spec fn spec_trim_start(s: Seq<char>) -> Seq<char>
    decreases s.len(),
{
    if s.len() > 0 && is_lyric_space(s[0]) {
        spec_trim_start(s.drop_first())
    } else {
        s
    }
}

/// `s` with trailing whitespace removed.
pub open spec fn spec_trim_end(s: Seq<char>) -> Seq<char>
    decreases s.len(),
{
    if s.len() > 0 && is_lyric_space(s.last()) {
        spec_trim_end(s.drop_last())
    } else {
        s
    }
}

/// `s` with whitespace removed from both ends.
pub open spec fn spec_trim(s: Seq<char>) -> Seq<char> {
    spec_trim_end(spec_trim_start(s))
}

/// The trimmed copy of `v[from..to]`.
pub fn trim_range(v: &Vec<char>, from: usize, to: usize) -> (r: Vec<char>)
    requires
        from <= to <= v@.len(),
    ensures
        r@ == spec_trim(v@.subrange(from as int, to as int)),
{
    let ghost orig = v@.subrange(from as int, to as int);
    let mut i = from;
    while i < to && exec_is_lyric_space(v[i])
        invariant
            from <= i <= to <= v@.len(),
            spec_trim_start(orig) == spec_trim_start(v@.subrange(i as int, to as int)),
        decreases to - i,
    {
        proof {
            assert(v@.subrange(i as int, to as int).drop_first() =~= v@.subrange(
                i + 1 as int,
                to as int,
            ));
        }
        i += 1;
    }
    proof {
        assert(spec_trim_start(orig) == v@.subrange(i as int, to as int));
    }
    let mut j = to;
    while j > i && exec_is_lyric_space(v[j - 1])
        invariant
            from <= i <= j <= to <= v@.len(),
            spec_trim_start(orig) == v@.subrange(i as int, to as int),
            spec_trim_end(v@.subrange(i as int, to as int)) == spec_trim_end(
                v@.subrange(i as int, j as int),
            ),
        decreases j,
    {
        proof {
            assert(v@.subrange(i as int, j as int).drop_last() =~= v@.subrange(
                i as int,
                j - 1 as int,
            ));
        }
        j -= 1;
    }
    proof {
        assert(spec_trim(orig) == v@.subrange(i as int, j as int));
    }
    let mut r: Vec<char> = Vec::new();
    let mut k = i;
    while k < j
        invariant
            i <= k <= j <= v@.len(),
            r@ == v@.subrange(i as int, k as int),
        decreases j - k,
    {
        r.push(v[k]);
        proof {
            assert(v@.subrange(i as int, k as int).push(v@[k as int]) =~= v@.subrange(
                i as int,
                k + 1 as int,
            ));
        }
        k += 1;
    }
    r
}

} // verus!
