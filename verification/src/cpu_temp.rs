//! The CPU temperature report: parsing the millidegree reading found in the
//! thermal filesystem node and formatting it as whole degrees.  Reading the
//! node itself is plain I/O and lives outside the library.

use vstd::prelude::*;
use crate::text::chars_of;
use crate::text::push_decimal;
use crate::text::signed_decimal;

verus! {

/// Whether a character counts as surrounding whitespace to be trimmed: the
/// characters with the Unicode white-space property.
pub open spec fn is_space(c: char) -> bool {
    ('\u{9}' <= c && c <= '\u{d}') || c == ' ' || c == '\u{85}' || c == '\u{a0}' || c == '\u{1680}'
        || ('\u{2000}' <= c && c <= '\u{200a}') || c == '\u{2028}' || c == '\u{2029}'
        || c == '\u{202f}' || c == '\u{205f}' || c == '\u{3000}'
}

/// The text with its leading whitespace removed.
pub open spec fn trim_front(s: Seq<char>) -> Seq<char>
    decreases s.len(),
{
    if s.len() > 0 && is_space(s[0]) {
        trim_front(s.drop_first())
    } else {
        s
    }
}

/// The text with its trailing whitespace removed.
pub open spec fn trim_back(s: Seq<char>) -> Seq<char>
    decreases s.len(),
{
    if s.len() > 0 && is_space(s.last()) {
        trim_back(s.drop_last())
    } else {
        s
    }
}

/// The text with both leading and trailing whitespace removed.
pub open spec fn trimmed(s: Seq<char>) -> Seq<char> {
    trim_back(trim_front(s))
}

/// Whether a character is a decimal digit.
pub open spec fn is_digit(c: char) -> bool {
    '0' as int <= c as int && c as int <= '9' as int
}

/// The value of one digit character.
pub open spec fn digit_value(c: char) -> int {
    c as int - '0' as int
}

/// Whether the text is all decimal digits.
pub open spec fn all_digits(s: Seq<char>) -> bool {
    forall|k: int| 0 <= k < s.len() ==> is_digit(#[trigger] s[k])
}

/// The number written by a run of decimal digits.
pub open spec fn digits_value(s: Seq<char>) -> int
    decreases s.len(),
{
    if s.len() == 0 {
        0
    } else {
        digits_value(s.drop_last()) * 10 + digit_value(s.last())
    }
}

/// The digits of a decimal numeral: what follows the optional sign.
pub open spec fn digits_part(s: Seq<char>) -> Seq<char> {
    if s.len() > 0 && (s[0] == '+' || s[0] == '-') {
        s.drop_first()
    } else {
        s
    }
}

/// The sign of a decimal numeral.
pub open spec fn sign_of(s: Seq<char>) -> int {
    if s.len() > 0 && s[0] == '-' {
        -1
    } else {
        1
    }
}

/// What parsing the text as a 32-bit signed decimal yields: an optional
/// sign, then at least one digit and nothing else, with the value in range;
/// anything else fails.
pub open spec fn parsed_i32(s: Seq<char>) -> Option<int> {
    if digits_part(s).len() > 0 && all_digits(digits_part(s)) && -0x8000_0000 <= sign_of(s)
        * digits_value(digits_part(s)) < 0x8000_0000 {
        Option::Some(sign_of(s) * digits_value(digits_part(s)))
    } else {
        Option::None
    }
}

/// A run of digits is worth no less than any of its prefixes, and no less
/// than zero.
proof fn lemma_digits_value_monotone(s: Seq<char>, m: int)
    requires
        all_digits(s),
        0 <= m <= s.len(),
    ensures
        0 <= digits_value(s.subrange(0, m)) <= digits_value(s),
    decreases s.len(),
{
    if s.len() == 0 {
        assert(s.subrange(0, m) =~= s);
    } else if m == s.len() {
        assert(s.subrange(0, m) =~= s);
        lemma_digits_value_monotone(s.drop_last(), s.len() - 1);
        assert(s.drop_last().subrange(0, s.len() - 1) =~= s.drop_last());
    } else {
        assert(s.drop_last().subrange(0, m) =~= s.subrange(0, m));
        lemma_digits_value_monotone(s.drop_last(), m);
    }
}

fn is_space_exec(c: char) -> (r: bool)
    ensures
        r == is_space(c),
{
    ('\u{9}' <= c && c <= '\u{d}') || c == ' ' || c == '\u{85}' || c == '\u{a0}' || c == '\u{1680}'
        || ('\u{2000}' <= c && c <= '\u{200a}') || c == '\u{2028}' || c == '\u{2029}'
        || c == '\u{202f}' || c == '\u{205f}' || c == '\u{3000}'
}

/// Parses the text as a 32-bit signed decimal, ignoring surrounding
/// whitespace, failing exactly where the grammar or the range does.
pub fn parse_i32(s: &str) -> (r: Option<i32>)
    ensures
        (r is Some) <==> (parsed_i32(trimmed(s@)) is Some),
        r is Some ==> r->Some_0 as int == parsed_i32(trimmed(s@))->Some_0,
{
    let v = chars_of(s);
    let n = v.len();
    let mut lo: usize = 0;
    proof {
        assert(v@.subrange(0, n as int) =~= v@);
    }
    while lo < n && is_space_exec(v[lo])
        invariant
            lo <= n,
            n == v@.len(),
            trim_front(v@) == trim_front(v@.subrange(lo as int, n as int)),
        decreases n - lo,
    {
        proof {
            assert(v@.subrange(lo as int, n as int).drop_first() =~= v@.subrange(
                lo + 1 as int,
                n as int,
            ));
        }
        lo += 1;
    }
    proof {
        assert(trim_front(v@) =~= v@.subrange(lo as int, n as int));
    }
    let mut hi: usize = n;
    while hi > lo && is_space_exec(v[hi - 1])
        invariant
            lo <= hi <= n,
            n == v@.len(),
            trim_front(v@) == v@.subrange(lo as int, n as int),
            trim_back(v@.subrange(lo as int, n as int)) == trim_back(
                v@.subrange(lo as int, hi as int),
            ),
        decreases hi,
    {
        proof {
            assert(v@.subrange(lo as int, hi as int).drop_last() =~= v@.subrange(
                lo as int,
                hi - 1 as int,
            ));
        }
        hi -= 1;
    }
    let ghost t = v@.subrange(lo as int, hi as int);
    proof {
        assert(trim_back(v@.subrange(lo as int, hi as int)) =~= v@.subrange(lo as int, hi as int));
        assert(trimmed(s@) == t);
    }
    if lo == hi {
        return Option::None;
    }
    let first = v[lo];
    let negative = first == '-';
    let p: usize = if first == '-' || first == '+' {
        lo + 1
    } else {
        lo
    };
    let ghost ds = v@.subrange(p as int, hi as int);
    proof {
        if p > lo {
            assert(t.drop_first() =~= ds);
        }
    }
    if p == hi {
        return Option::None;
    }
    proof {
        assert(ds == digits_part(t));
        assert(negative == (sign_of(t) == -1));
    }
    let mut acc: i64 = 0;
    let mut k: usize = p;
    while k < hi
        invariant
            p <= k <= hi <= n,
            p < hi,
            n == v@.len(),
            trimmed(s@) == t,
            ds == digits_part(t),
            negative == (sign_of(t) == -1),
            ds == v@.subrange(p as int, hi as int),
            all_digits(v@.subrange(p as int, k as int)),
            acc == digits_value(v@.subrange(p as int, k as int)),
            0 <= acc <= 0x8000_0000,
        decreases hi - k,
    {
        let c = v[k];
        if c < '0' || c > '9' {
            proof {
                assert(!is_digit(ds[k - p]));
            }
            return Option::None;
        }
        let d: i64 = (c as u32) as i64 - ('0' as u32) as i64;
        let next: i64 = acc * 10 + d;
        proof {
            assert(v@.subrange(p as int, k + 1 as int).drop_last() =~= v@.subrange(
                p as int,
                k as int,
            ));
            assert(v@.subrange(p as int, k + 1 as int).last() == v@[k as int]);
        }
        if next > 0x8000_0000 {
            proof {
                if all_digits(ds) {
                    lemma_digits_value_monotone(ds, k + 1 - p);
                    assert(ds.subrange(0, k + 1 - p) =~= v@.subrange(p as int, k + 1 as int));
                    assert(digits_value(ds) >= next);
                    assert(sign_of(t) == 1 || sign_of(t) == -1);
                    assert(parsed_i32(t) is None);
                }
            }
            return Option::None;
        }
        acc = next;
        k += 1;
    }
    proof {
        assert(v@.subrange(p as int, k as int) =~= ds);
        assert(acc == digits_value(ds));
        assert(all_digits(ds));
        assert(ds.len() > 0);
    }
    if negative {
        proof {
            assert(sign_of(t) == -1);
            assert(sign_of(t) * digits_value(ds) == -digits_value(ds)) by (nonlinear_arith)
                requires
                    sign_of(t) == -1,
            ;
            assert(parsed_i32(t) == Option::Some(-digits_value(ds)));
        }
        Option::Some((-acc) as i32)
    } else {
        proof {
            assert(sign_of(t) == 1);
            assert(sign_of(t) * digits_value(ds) == digits_value(ds)) by (nonlinear_arith)
                requires
                    sign_of(t) == 1,
            ;
        }
        if acc > 0x7FFF_FFFF {
            proof {
                assert(parsed_i32(t) is None);
            }
            return Option::None;
        }
        proof {
            assert(parsed_i32(t) == Option::Some(digits_value(ds)));
        }
        Option::Some(acc as i32)
    }
}

/// Degrees from millidegrees: division by one thousand, truncated toward
/// zero.
pub open spec fn degrees_of_millidegrees(v: int) -> int {
    if v >= 0 {
        v / 1000
    } else {
        -((-v) / 1000)
    }
}

/// The body of the CPU temperature report for the raw text of the thermal
/// node: the whole degrees when the text parses, a parse-error message
/// otherwise.
pub open spec fn cpu_temp_body(raw: Seq<char>) -> Seq<char> {
    match parsed_i32(trimmed(raw)) {
        Option::Some(v) => signed_decimal(degrees_of_millidegrees(v)),
        Option::None => "ERROR: failed to parse cpu temperature"@,
    }
}

/// Formats the raw text of the thermal node, which reports millidegrees, as
/// whole degrees; a text that does not parse yields the parse-error message.
pub fn cpu_temp_message(raw: &str) -> (r: String)
    ensures
        r@ == cpu_temp_body(raw@),
{
    match parse_i32(raw) {
        Option::Some(v) => {
            let magnitude: i64 = if v >= 0 {
                v as i64
            } else {
                -(v as i64)
            };
            let q: i64 = magnitude / 1000;
            let mut s = String::new();
            if v < 0 && q > 0 {
                crate::text::push_char(&mut s, '-');
            }
            push_decimal(&mut s, q as u64);
            proof {
                assert(s@ =~= signed_decimal(degrees_of_millidegrees(v as int)));
            }
            s
        },
        Option::None => {
            let s = String::from_str("ERROR: failed to parse cpu temperature");
            s
        },
    }
}

} // verus!
