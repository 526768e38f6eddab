//! The connectivity prober's core: deciding from the text of the OS
//! connection table whether a remote client holds an established connection
//! to the streaming port.  Querying the table (and the lighter "is anything
//! listening" TCP probe) is plain I/O and lives outside the library.

use vstd::prelude::*;
use crate::text::chars_of;
use crate::text::contains_chars;
use crate::text::contains_text;
use crate::text::decimal_digits;
use crate::text::matches_at;
use crate::text::push_decimal_chars;
use crate::text::subvec;

verus! {

/// The connection state the scan looks for.
pub open spec fn established_marker() -> Seq<char> {
    seq!['E', 'S', 'T', 'A', 'B', 'L', 'I', 'S', 'H', 'E', 'D']
}

/// The text that identifies the port in a connection-table line: a colon,
/// the decimal port, and a trailing space.
pub open spec fn port_marker(port: u16) -> Seq<char> {
    seq![':'] + decimal_digits(port as int) + seq![' ']
}

/// Whether a stretch of text is free of line breaks.
pub open spec fn newline_free(s: Seq<char>) -> bool {
    forall|k: int| 0 <= k < s.len() ==> s[k] != '\n'
}

/// Whether the stretch `[i, j)` of the table is one piece of a line that
/// shows the client: free of line breaks and holding the remote address,
/// the port marker and the established state together.
pub open spec fn is_client_segment(
    table: Seq<char>,
    remote_address: Seq<char>,
    port: u16,
    i: int,
    j: int,
) -> bool {
    &&& 0 <= i <= j <= table.len()
    &&& newline_free(table.subrange(i, j))
    &&& contains_text(table.subrange(i, j), remote_address)
    &&& contains_text(table.subrange(i, j), port_marker(port))
    &&& contains_text(table.subrange(i, j), established_marker())
}

/// Whether some line of the connection table shows an established
/// connection from the remote address to the port.
pub open spec fn table_shows_client(table: Seq<char>, remote_address: Seq<char>, port: u16) -> bool {
    exists|i: int, j: int| is_client_segment(table, remote_address, port, i, j)
}

fn established_needle() -> (r: Vec<char>)
    ensures
        r@ == established_marker(),
{
    let mut r: Vec<char> = Vec::new();
    r.push('E');
    r.push('S');
    r.push('T');
    r.push('A');
    r.push('B');
    r.push('L');
    r.push('I');
    r.push('S');
    r.push('H');
    r.push('E');
    r.push('D');
    proof {
        assert(r@ =~= established_marker());
    }
    r
}

fn port_needle(port: u16) -> (r: Vec<char>)
    ensures
        r@ == port_marker(port),
{
    let mut r: Vec<char> = Vec::new();
    r.push(':');
    push_decimal_chars(&mut r, port as u64);
    r.push(' ');
    proof {
        assert(r@ =~= port_marker(port));
    }
    r
}

/// A text found inside an inner stretch is found inside any enclosing one.
proof fn lemma_contains_in_enclosing(s: Seq<char>, lo: int, hi: int, i: int, j: int, needle: Seq<
    char,
>)
    requires
        0 <= lo <= i <= j <= hi <= s.len(),
        contains_text(s.subrange(i, j), needle),
    ensures
        contains_text(s.subrange(lo, hi), needle),
{
    let k = choose|k: int| matches_at(s.subrange(i, j), needle, k);
    assert(s.subrange(lo, hi).subrange(k + i - lo, k + i - lo + needle.len()) =~= s.subrange(
        i,
        j,
    ).subrange(k, k + needle.len()));
    assert(matches_at(s.subrange(lo, hi), needle, k + i - lo));
}

/// Whether the connection table shows a remote client with an established
/// connection to the given port: some line of the table holds the remote
/// address, the ":port " marker and the ESTABLISHED state together.
pub fn is_client_connected(table: &str, remote_address: &str, port: u16) -> (r: bool)
    ensures
        r == table_shows_client(table@, remote_address@, port),
{
    let chars = chars_of(table);
    let address_needle = chars_of(remote_address);
    let pn = port_needle(port);
    let en = established_needle();
    let n = chars.len();
    let mut start: usize = 0;
    let mut k: usize = 0;
    loop
        invariant
            start <= k <= n,
            n == chars@.len(),
            chars@ == table@,
            address_needle@ == remote_address@,
            pn@ == port_marker(port),
            en@ == established_marker(),
            forall|m: int| start <= m < k ==> chars@[m] != '\n',
            forall|i: int, j: int|
                i < start ==> !is_client_segment(table@, remote_address@, port, i, j),
        decreases n - k,
    {
        if k == n || chars[k] == '\n' {
            let seg = subvec(&chars, start, k);
            let has_address = contains_chars(&seg, &address_needle);
            let has_port = contains_chars(&seg, &pn);
            let has_established = contains_chars(&seg, &en);
            if has_address && has_port && has_established {
                proof {
                    assert forall|m: int| 0 <= m < seg@.len() implies seg@[m] != '\n' by {
                        assert(seg@[m] == chars@[start + m]);
                    }
                    assert(is_client_segment(
                        table@,
                        remote_address@,
                        port,
                        start as int,
                        k as int,
                    ));
                }
                return true;
            }
            proof {
                assert forall|i: int, j: int|
                    i < k + 1 implies !is_client_segment(
                    table@,
                    remote_address@,
                    port,
                    i,
                    j,
                ) by {
                    if is_client_segment(table@, remote_address@, port, i, j) && start <= i {
                        if j <= k {
                            lemma_contains_in_enclosing(
                                table@,
                                start as int,
                                k as int,
                                i,
                                j,
                                remote_address@,
                            );
                            lemma_contains_in_enclosing(
                                table@,
                                start as int,
                                k as int,
                                i,
                                j,
                                port_marker(port),
                            );
                            lemma_contains_in_enclosing(
                                table@,
                                start as int,
                                k as int,
                                i,
                                j,
                                established_marker(),
                            );
                        } else {
                            // the stretch would straddle the line break at k
                            assert(k < n);
                            assert(table@.subrange(i, j)[k - i] == '\n');
                        }
                    }
                }
            }
            if k == n {
                return false;
            }
            start = k + 1;
        }
        k += 1;
    }
}

/// The address the TCP liveness probe connects to: the local host at the
/// given port.  The probe itself (opening the connection) is plain I/O and
/// lives outside the library.
pub fn local_probe_address(port: u16) -> (r: String)
    ensures
        r@ == "localhost:"@ + decimal_digits(port as int),
{
    let mut s = String::new();
    s.append("localhost:");
    crate::text::push_decimal(&mut s, port as u64);
    proof {
        assert(s@ =~= "localhost:"@ + decimal_digits(port as int));
    }
    s
}

} // verus!
