//! Small verified text utilities shared by the library: decimal numerals,
//! zero padding, character extraction, string equality and substring search.

use vstd::prelude::*;

verus! {

/// Relies on String::push from std (vstd gives it no specification):
/// appends exactly the given character and nothing else.
#[verifier::external_body]
pub(crate) fn push_char(s: &mut String, c: char)
    ensures
        final(s)@ == old(s)@ + seq![c],
{
    s.push(c);
}

/// The character for one decimal digit value.
pub open spec fn digit_char(d: int) -> char {
    if d == 0 {
        '0'
    } else if d == 1 {
        '1'
    } else if d == 2 {
        '2'
    } else if d == 3 {
        '3'
    } else if d == 4 {
        '4'
    } else if d == 5 {
        '5'
    } else if d == 6 {
        '6'
    } else if d == 7 {
        '7'
    } else if d == 8 {
        '8'
    } else {
        '9'
    }
}

/// The decimal numeral of a non-negative number, most significant digit
/// first, without padding or sign.
pub open spec fn decimal_digits(n: int) -> Seq<char>
    recommends
        0 <= n,
    decreases n,
{
    if n < 10 {
        seq![digit_char(n)]
    } else {
        decimal_digits(n / 10).push(digit_char(n % 10))
    }
}

/// The decimal numeral of a signed number: a leading minus sign when
/// negative.
pub open spec fn signed_decimal(n: int) -> Seq<char> {
    if n >= 0 {
        decimal_digits(n)
    } else {
        seq!['-'] + decimal_digits(-n)
    }
}

/// A run of zero characters; empty when the count is not positive.
pub open spec fn zero_chars(k: int) -> Seq<char>
    decreases k,
{
    if k <= 0 {
        Seq::empty()
    } else {
        zero_chars(k - 1) + seq!['0']
    }
}

/// The decimal numeral of a non-negative number, left-padded with zeros to
/// at least the given width.
pub open spec fn padded_decimal(n: int, width: int) -> Seq<char> {
    zero_chars(width - decimal_digits(n).len()) + decimal_digits(n)
}

/// The character for one decimal digit.
pub(crate) fn digit_char_of(d: u64) -> (c: char)
    requires
        d < 10,
    ensures
        c == digit_char(d as int),
{
    match d {
        0 => '0',
        1 => '1',
        2 => '2',
        3 => '3',
        4 => '4',
        5 => '5',
        6 => '6',
        7 => '7',
        8 => '8',
        _ => '9',
    }
}

/// Appends the decimal numeral of `n` to a string.
pub(crate) fn push_decimal(s: &mut String, n: u64)
    ensures
        final(s)@ == old(s)@ + decimal_digits(n as int),
    decreases n,
{
    if n < 10 {
        push_char(s, digit_char_of(n));
        proof {
            assert(final(s)@ =~= old(s)@ + decimal_digits(n as int));
        }
    } else {
        push_decimal(s, n / 10);
        push_char(s, digit_char_of(n % 10));
        proof {
            assert(final(s)@ =~= old(s)@ + decimal_digits(n as int));
        }
    }
}

/// Appends the decimal numeral of `n` to a character vector.
pub(crate) fn push_decimal_chars(v: &mut Vec<char>, n: u64)
    ensures
        final(v)@ == old(v)@ + decimal_digits(n as int),
    decreases n,
{
    if n < 10 {
        v.push(digit_char_of(n));
        proof {
            assert(final(v)@ =~= old(v)@ + decimal_digits(n as int));
        }
    } else {
        push_decimal_chars(v, n / 10);
        v.push(digit_char_of(n % 10));
        proof {
            assert(final(v)@ =~= old(v)@ + decimal_digits(n as int));
        }
    }
}

/// The decimal numeral of an unsigned number, as a string.
pub fn u64_to_string(n: u64) -> (r: String)
    ensures
        r@ == decimal_digits(n as int),
{
    let mut s = String::new();
    push_decimal(&mut s, n);
    proof {
        assert(s@ =~= decimal_digits(n as int));
    }
    s
}

/// The decimal numeral of a signed number, as a string.
pub fn i32_to_string(n: i32) -> (r: String)
    ensures
        r@ == signed_decimal(n as int),
{
    let mut s = String::new();
    if n >= 0 {
        push_decimal(&mut s, n as u64);
        proof {
            assert(s@ =~= signed_decimal(n as int));
        }
    } else {
        push_char(&mut s, '-');
        let magnitude: u64 = (-(n as i64)) as u64;
        push_decimal(&mut s, magnitude);
        proof {
            assert(s@ =~= signed_decimal(n as int));
        }
    }
    s
}

/// Appends the decimal numeral of `n`, left-padded with zeros to at least
/// `width` characters.
pub(crate) fn push_padded_decimal(s: &mut String, n: u64, width: usize)
    ensures
        final(s)@ == old(s)@ + padded_decimal(n as int, width as int),
{
    let ghost init: Seq<char> = s@;
    let digits = u64_to_string(n);
    let digit_count = digits.as_str().unicode_len();
    let mut i: usize = digit_count;
    proof {
        assert(s@ =~= init + zero_chars(0));
    }
    while i < width
        invariant
            digit_count <= i,
            i <= width || i == digit_count,
            digit_count == decimal_digits(n as int).len(),
            s@ == init + zero_chars(i - digit_count),
        decreases width - i,
    {
        push_char(s, '0');
        proof {
            assert(init + zero_chars(i - digit_count) + seq!['0'] =~= init + zero_chars(
                i + 1 - digit_count,
            ));
        }
        i += 1;
    }
    s.append(digits.as_str());
    proof {
        assert(zero_chars(i - digit_count) == zero_chars(
            width - decimal_digits(n as int).len() as int,
        ));
        assert(final(s)@ =~= init + padded_decimal(n as int, width as int));
    }
}

/// The characters of a string slice, as an indexable vector.
pub fn chars_of(s: &str) -> (v: Vec<char>)
    ensures
        v@ == s@,
{
    let n = s.unicode_len();
    let mut v: Vec<char> = Vec::new();
    let mut i: usize = 0;
    proof {
        assert(v@ =~= s@.subrange(0, 0));
    }
    while i < n
        invariant
            i <= n,
            n == s@.len(),
            v@ == s@.subrange(0, i as int),
        decreases n - i,
    {
        let c = s.get_char(i);
        v.push(c);
        proof {
            assert(v@ =~= s@.subrange(0, i + 1 as int));
        }
        i += 1;
    }
    proof {
        assert(s@.subrange(0, n as int) =~= s@);
    }
    v
}

/// Whether two string slices hold the same characters.
pub fn str_eq(a: &str, b: &str) -> (r: bool)
    ensures
        r == (a@ == b@),
{
    let na = a.unicode_len();
    let nb = b.unicode_len();
    if na != nb {
        return false;
    }
    let mut i: usize = 0;
    while i < na
        invariant
            i <= na,
            na == a@.len(),
            na == b@.len(),
            forall|k: int| 0 <= k < i ==> a@[k] == b@[k],
        decreases na - i,
    {
        if a.get_char(i) != b.get_char(i) {
            return false;
        }
        i += 1;
    }
    proof {
        assert(a@ =~= b@);
    }
    true
}

/// Whether `needle` occurs in `hay` starting at position `i`.
pub open spec fn matches_at(hay: Seq<char>, needle: Seq<char>, i: int) -> bool {
    0 <= i && i + needle.len() <= hay.len() && hay.subrange(i, i + needle.len()) == needle
}

/// Whether `needle` occurs anywhere in `hay`.
pub open spec fn contains_text(hay: Seq<char>, needle: Seq<char>) -> bool {
    exists|i: int| matches_at(hay, needle, i)
}

fn matches_at_exec(hay: &Vec<char>, needle: &Vec<char>, i: usize) -> (r: bool)
    requires
        i + needle@.len() <= hay@.len(),
    ensures
        r == matches_at(hay@, needle@, i as int),
{
    let hay_len = hay.len();
    let needle_len = needle.len();
    let mut j: usize = 0;
    while j < needle_len
        invariant
            j <= needle_len,
            hay_len == hay@.len(),
            needle_len == needle@.len(),
            i + needle_len <= hay_len,
            forall|k: int| 0 <= k < j ==> hay@[i + k] == needle@[k],
        decreases needle_len - j,
    {
        if hay[i + j] != needle[j] {
            proof {
                if matches_at(hay@, needle@, i as int) {
                    assert(hay@.subrange(i as int, i + needle@.len())[j as int] == needle@[
                        j as int
                    ]);
                }
            }
            return false;
        }
        j += 1;
    }
    proof {
        assert(hay@.subrange(i as int, i + needle@.len()) =~= needle@);
    }
    true
}

/// Whether the needle occurs anywhere in the haystack.
pub fn contains_chars(hay: &Vec<char>, needle: &Vec<char>) -> (r: bool)
    ensures
        r == contains_text(hay@, needle@),
{
    if needle.len() > hay.len() {
        return false;
    }
    let last = hay.len() - needle.len();
    let mut i: usize = 0;
    while i <= last
        invariant
            i <= last,
            needle@.len() <= hay@.len(),
            last == hay@.len() - needle@.len(),
            forall|k: int| 0 <= k < i ==> !matches_at(hay@, needle@, k),
        decreases last - i,
    {
        if matches_at_exec(hay, needle, i) {
            return true;
        }
        if i == last {
            proof {
                assert forall|k: int| !matches_at(hay@, needle@, k) by {
                    if matches_at(hay@, needle@, k) {
                        assert(0 <= k <= last);
                    }
                }
            }
            return false;
        }
        i += 1;
    }
    false
}

/// A copy of the characters of `v` between `lo` and `hi`.
pub fn subvec(v: &Vec<char>, lo: usize, hi: usize) -> (r: Vec<char>)
    requires
        lo <= hi <= v@.len(),
    ensures
        r@ == v@.subrange(lo as int, hi as int),
{
    let mut r: Vec<char> = Vec::new();
    let mut i: usize = lo;
    proof {
        assert(r@ =~= v@.subrange(lo as int, lo as int));
    }
    while i < hi
        invariant
            lo <= i <= hi <= v@.len(),
            r@ == v@.subrange(lo as int, i as int),
        decreases hi - i,
    {
        r.push(v[i]);
        proof {
            assert(r@ =~= v@.subrange(lo as int, i + 1 as int));
        }
        i += 1;
    }
    r
}

} // verus!
