//! Recorded-video bookkeeping: sorting the local recordings by
//! last-modified time, formatting timestamps, and rendering the listing the
//! HTTP surface returns.  Reading the directory itself is plain I/O and
//! lives outside the library.

use vstd::prelude::*;
use vstd::multiset::Multiset;
use crate::text::chars_of;
use crate::text::digit_char;
use crate::text::padded_decimal;
use crate::text::push_char;
use crate::text::push_padded_decimal;

verus! {

/// One recorded video: its absolute path and its last-modified time, as
/// whole seconds since the Unix epoch.
pub struct VideoEntry {
    pub path: String,
    pub modified_seconds: u64,
}

/// Whether a listing is ordered by ascending last-modified time.
pub open spec fn sorted_by_time(s: Seq<VideoEntry>) -> bool {
    forall|i: int, j: int|
        0 <= i < j < s.len() ==> #[trigger] s[i].modified_seconds <= #[trigger] s[j].modified_seconds
}

fn insert_by_time(sorted: &mut Vec<VideoEntry>, e: VideoEntry)
    requires
        sorted_by_time(old(sorted)@),
    ensures
        sorted_by_time(final(sorted)@),
        final(sorted)@.to_multiset() == old(sorted)@.to_multiset().insert(e),
{
    broadcast use vstd::seq_lib::group_to_multiset_ensures;

    let mut pos: usize = 0;
    while pos < sorted.len() && sorted[pos].modified_seconds <= e.modified_seconds
        invariant
            pos <= sorted@.len(),
            sorted@ == old(sorted)@,
            forall|k: int| 0 <= k < pos ==> #[trigger] sorted@[k].modified_seconds
                <= e.modified_seconds,
        decreases sorted@.len() - pos,
    {
        pos += 1;
    }
    let ghost before = sorted@;
    let ghost p = pos as int;
    sorted.insert(pos, e);
    proof {
        assert(forall|k: int| 0 <= k < p ==> sorted@[k] == before[k]);
        assert(sorted@[p] == e);
        assert(forall|k: int| p < k < sorted@.len() ==> sorted@[k] == before[k - 1]);
        assert forall|i: int, j: int| 0 <= i < j < sorted@.len() implies sorted@[i].modified_seconds
            <= sorted@[j].modified_seconds by {
            if j == p {
                assert(sorted@[i] == before[i]);
            } else if i == p {
                assert(sorted@[j] == before[j - 1]);
                assert(p < before.len() ==> e.modified_seconds < before[p].modified_seconds);
            }
        }
    }
}

/// Sorts the recorded videos by ascending last-modified time.  The result
/// holds exactly the given entries, reordered.
pub fn files_sorted_by_date(entries: Vec<VideoEntry>) -> (r: Vec<VideoEntry>)
    ensures
        sorted_by_time(r@),
        r@.to_multiset() == entries@.to_multiset(),
{
    broadcast use vstd::seq_lib::group_to_multiset_ensures;
    broadcast use vstd::multiset::group_multiset_axioms;

    let mut remaining = entries;
    let mut r: Vec<VideoEntry> = Vec::new();
    proof {
        assert(r@.to_multiset().add(remaining@.to_multiset()) =~= remaining@.to_multiset());
    }
    while remaining.len() > 0
        invariant
            sorted_by_time(r@),
            r@.to_multiset().add(remaining@.to_multiset()) == entries@.to_multiset(),
        decreases remaining@.len(),
    {
        let ghost rem_before = remaining@;
        let ghost r_before = r@;
        let e = remaining.pop().unwrap();
        insert_by_time(&mut r, e);
        proof {
            assert(remaining@.push(e) =~= rem_before);
            vstd::seq_lib::to_multiset_build::<VideoEntry>(remaining@, e);
            assert(remaining@.to_multiset().insert(e) == rem_before.to_multiset());
            assert(r@.to_multiset() == r_before.to_multiset().insert(e));
            assert(r@.to_multiset().add(remaining@.to_multiset()) =~= r_before.to_multiset().add(
                remaining@.to_multiset().insert(e),
            ));
        }
    }
    proof {
        assert(remaining@.to_multiset() =~= Multiset::<VideoEntry>::empty());
        assert(r@.to_multiset().add(Multiset::<VideoEntry>::empty()) =~= r@.to_multiset());
    }
    r
}

/// In a listing sorted by last-modified time, an entry with the earlier of
/// two distinct times precedes the entry with the later one.
pub proof fn lemma_earlier_modified_precedes(s: Seq<VideoEntry>, i: int, j: int)
    requires
        sorted_by_time(s),
        0 <= i < s.len(),
        0 <= j < s.len(),
        s[i].modified_seconds < s[j].modified_seconds,
    ensures
        i < j,
{
    if j <= i {
        assert(s[j].modified_seconds <= s[i].modified_seconds);
    }
}

/// The timestamp text `YYYY-MM-DDTHH:MM:SS` for a time in seconds since
/// the Unix epoch, in the device's simplified calendar: years of 365 days
/// and months of 30 days.
pub open spec fn timestamp_text(secs: int) -> Seq<char> {
    padded_decimal(1970 + secs / 31536000, 4) + seq!['-'] + padded_decimal(
        1 + (secs / 2592000) % 12,
        2,
    ) + seq!['-'] + padded_decimal(1 + (secs / 86400) % 30, 2) + seq!['T'] + padded_decimal(
        (secs / 3600) % 24,
        2,
    ) + seq![':'] + padded_decimal((secs / 60) % 60, 2) + seq![':'] + padded_decimal(secs % 60, 2)
}

/// Formats a last-modified time, given as whole seconds since the Unix
/// epoch, as `YYYY-MM-DDTHH:MM:SS` in the simplified calendar.
pub fn format_system_time_to_string(secs_since_epoch: u64) -> (r: String)
    ensures
        r@ == timestamp_text(secs_since_epoch as int),
{
    let secs = secs_since_epoch;
    let mut s = String::new();
    push_padded_decimal(&mut s, 1970 + secs / 31536000, 4);
    push_char(&mut s, '-');
    push_padded_decimal(&mut s, 1 + (secs / 2592000) % 12, 2);
    push_char(&mut s, '-');
    push_padded_decimal(&mut s, 1 + (secs / 86400) % 30, 2);
    push_char(&mut s, 'T');
    push_padded_decimal(&mut s, (secs / 3600) % 24, 2);
    push_char(&mut s, ':');
    push_padded_decimal(&mut s, (secs / 60) % 60, 2);
    push_char(&mut s, ':');
    push_padded_decimal(&mut s, secs % 60, 2);
    proof {
        assert(s@ =~= timestamp_text(secs_since_epoch as int));
    }
    s
}

/// The hexadecimal digit character for one value below sixteen.
pub open spec fn hex_char(d: int) -> char {
    if d < 10 {
        digit_char(d)
    } else if d == 10 {
        'a'
    } else if d == 11 {
        'b'
    } else if d == 12 {
        'c'
    } else if d == 13 {
        'd'
    } else if d == 14 {
        'e'
    } else {
        'f'
    }
}

/// How one character appears inside a JSON string: quote and backslash are
/// escaped, control characters become a `\u00XX` escape, everything else
/// stands as itself.
pub open spec fn escaped_char(c: char) -> Seq<char> {
    if c == '"' {
        seq!['\\', '"']
    } else if c == '\\' {
        seq!['\\', '\\']
    } else if (c as u32) < 32 {
        seq!['\\', 'u', '0', '0', hex_char(((c as u32) / 16) as int), hex_char(
            ((c as u32) % 16) as int,
        )]
    } else {
        seq![c]
    }
}

/// The body of a JSON string holding the given text.
pub open spec fn json_escaped(s: Seq<char>) -> Seq<char>
    decreases s.len(),
{
    if s.len() == 0 {
        Seq::empty()
    } else {
        json_escaped(s.drop_last()) + escaped_char(s.last())
    }
}

fn hex_char_of(d: u32) -> (c: char)
    requires
        d < 16,
    ensures
        c == hex_char(d as int),
{
    match d {
        0 => '0',
        1 => '1',
        2 => '2',
        3 => '3',
        4 => '4',
        5 => '5',
        6 => '6',
        7 => '7',
        8 => '8',
        9 => '9',
        10 => 'a',
        11 => 'b',
        12 => 'c',
        13 => 'd',
        14 => 'e',
        _ => 'f',
    }
}

fn push_json_escaped(out: &mut String, s: &Vec<char>)
    ensures
        final(out)@ == old(out)@ + json_escaped(s@),
{
    let ghost init: Seq<char> = out@;
    let n = s.len();
    let mut i: usize = 0;
    proof {
        assert(out@ =~= init + json_escaped(s@.subrange(0, 0)));
    }
    while i < n
        invariant
            i <= n,
            n == s@.len(),
            out@ == init + json_escaped(s@.subrange(0, i as int)),
        decreases n - i,
    {
        let ghost prefix = s@.subrange(0, i as int);
        let c = s[i];
        if c == '"' {
            push_char(out, '\\');
            push_char(out, '"');
            proof {
                assert(escaped_char(c) =~= seq!['\\', '"']);
                assert(out@ =~= init + json_escaped(prefix) + escaped_char(c));
            }
        } else if c == '\\' {
            push_char(out, '\\');
            push_char(out, '\\');
            proof {
                assert(escaped_char(c) =~= seq!['\\', '\\']);
                assert(out@ =~= init + json_escaped(prefix) + escaped_char(c));
            }
        } else if (c as u32) < 32 {
            push_char(out, '\\');
            push_char(out, 'u');
            push_char(out, '0');
            push_char(out, '0');
            push_char(out, hex_char_of((c as u32) / 16));
            push_char(out, hex_char_of((c as u32) % 16));
            proof {
                assert(escaped_char(c) =~= seq![
                    '\\',
                    'u',
                    '0',
                    '0',
                    hex_char(((c as u32) / 16) as int),
                    hex_char(((c as u32) % 16) as int),
                ]);
                assert(out@ =~= init + json_escaped(prefix) + escaped_char(c));
            }
        } else {
            push_char(out, c);
            proof {
                assert(escaped_char(c) =~= seq![c]);
                assert(out@ =~= init + json_escaped(prefix) + escaped_char(c));
            }
        }
        proof {
            assert(s@.subrange(0, i + 1 as int).drop_last() =~= prefix);
            assert(s@.subrange(0, i + 1 as int).last() == s@[i as int]);
            assert(json_escaped(s@.subrange(0, i + 1 as int)) == json_escaped(prefix)
                + escaped_char(s@[i as int]));
            assert(out@ =~= init + json_escaped(s@.subrange(0, i + 1 as int)));
        }
        i += 1;
    }
    proof {
        assert(s@.subrange(0, n as int) =~= s@);
    }
}

/// The opening of a listing entry, up to the path value.
pub open spec fn path_key_text() -> Seq<char> {
    seq!['{', '"', 'p', 'a', 't', 'h', '"', ':', '"']
}

/// The middle of a listing entry, between the path and the date values.
pub open spec fn date_key_text() -> Seq<char> {
    seq!['"', ',', '"', 'd', 'a', 't', 'e', '_', 'u', 'p', 'd', 'a', 't', 'e', 'd', '"', ':', '"']
}

/// One entry of the listing: a JSON object with the escaped path and the
/// formatted last-modified time.
pub open spec fn video_object_text(e: VideoEntry) -> Seq<char> {
    path_key_text() + json_escaped(e.path@) + date_key_text() + timestamp_text(
        e.modified_seconds as int,
    ) + seq!['"', '}']
}

/// The comma-separated entries of the listing, in order.
pub open spec fn video_items_text(entries: Seq<VideoEntry>) -> Seq<char>
    decreases entries.len(),
{
    if entries.len() == 0 {
        Seq::empty()
    } else if entries.len() == 1 {
        video_object_text(entries[0])
    } else {
        video_items_text(entries.drop_last()) + seq![','] + video_object_text(entries.last())
    }
}

/// The whole listing: a JSON array of the entries, in the given order.
pub open spec fn video_list_text(entries: Seq<VideoEntry>) -> Seq<char> {
    seq!['['] + video_items_text(entries) + seq![']']
}

fn push_video_object(out: &mut String, e: &VideoEntry)
    ensures
        final(out)@ == old(out)@ + video_object_text(*e),
{
    let ghost init: Seq<char> = out@;
    out.append("{\"path\":\"");
    proof {
        reveal_strlit("{\"path\":\"");
        assert("{\"path\":\""@ =~= path_key_text());
    }
    let path_chars = chars_of(e.path.as_str());
    push_json_escaped(out, &path_chars);
    out.append("\",\"date_updated\":\"");
    proof {
        reveal_strlit("\",\"date_updated\":\"");
        assert("\",\"date_updated\":\""@ =~= date_key_text());
    }
    let date = format_system_time_to_string(e.modified_seconds);
    out.append(date.as_str());
    out.append("\"}");
    proof {
        reveal_strlit("\"}");
        assert("\"}"@ =~= seq!['"', '}']);
        assert(final(out)@ =~= init + video_object_text(*e));
    }
}

/// Renders the listing of recorded videos, in the given order, as the JSON
/// array of `{path, date_updated}` objects the HTTP surface returns.
pub fn list_local_videos_json(entries: &Vec<VideoEntry>) -> (r: String)
    ensures
        r@ == video_list_text(entries@),
{
    let mut s = String::new();
    push_char(&mut s, '[');
    let n = entries.len();
    let mut i: usize = 0;
    proof {
        assert(s@ =~= seq!['['] + video_items_text(entries@.subrange(0, 0)));
    }
    while i < n
        invariant
            i <= n,
            n == entries@.len(),
            s@ == seq!['['] + video_items_text(entries@.subrange(0, i as int)),
        decreases n - i,
    {
        if i > 0 {
            push_char(&mut s, ',');
        }
        push_video_object(&mut s, &entries[i]);
        proof {
            assert(entries@.subrange(0, i + 1 as int).drop_last() =~= entries@.subrange(
                0,
                i as int,
            ));
            assert(entries@.subrange(0, i + 1 as int).last() == entries@[i as int]);
            assert(s@ =~= seq!['['] + video_items_text(entries@.subrange(0, i + 1 as int)));
        }
        i += 1;
    }
    push_char(&mut s, ']');
    proof {
        assert(entries@.subrange(0, n as int) =~= entries@);
        assert(s@ =~= video_list_text(entries@));
    }
    s
}

} // verus!
