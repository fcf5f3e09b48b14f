//! File names of session records.

use crate::clock::{compact_utc_stamp, utc_stamp_of, MAX_UNIX};
use crate::logs::{find_log, log_of};
use crate::types::LogFile;
use vstd::prelude::*;

verus! {

/// Whether a character is alphabetic or numeric in Unicode's sense.
pub uninterp spec fn alphanumeric(c: char) -> bool;

/// Relies on `char::is_alphanumeric`, which depends on the character alone.
#[verifier::external_body]
fn is_alphanumeric(c: char) -> (r: bool)
    ensures
        r == alphanumeric(c),
{
    c.is_alphanumeric()
}

/// Relies on `String::push`: appends the character to the end.
#[verifier::external_body]
fn push_char(s: &mut String, c: char)
    ensures
        final(s)@ == old(s)@.push(c),
{
    s.push(c)
}

/// Characters that pass into a file name unchanged.
pub open spec fn kept(c: char) -> bool {
    alphanumeric(c) || c == '-' || c == '_' || c == '.'
}

/// `s` with every character that is not kept replaced by `_`.
pub open spec fn sanitized(s: Seq<char>) -> Seq<char> {
    s.map_values(|c: char| if kept(c) { c } else { '_' })
}

pub open spec fn json_ext() -> Seq<char> {
    seq!['.', 'j', 's', 'o', 'n']
}

/// The stem of a record's file name: the sanitized note, or the compact
/// UTC stamp of the start when there is no note or it is empty.
pub open spec fn base_name(note: Option<String>, start_unix: i64) -> Seq<char> {
    match note {
        Some(n) => if n@.len() > 0 {
            sanitized(n@)
        } else {
            utc_stamp_of(start_unix)
        },
        None => utc_stamp_of(start_unix),
    }
}

/// The file name of a new session's record: `<base>.json`, or
/// `<base>-<stamp>.json` when a record already has the first name.
pub open spec fn resolved_name(logs: Seq<LogFile>, note: Option<String>, start_unix: i64) -> Seq<
    char,
> {
    let first = base_name(note, start_unix) + json_ext();
    if log_of(logs, first) is Some {
        base_name(note, start_unix) + seq!['-'] + utc_stamp_of(start_unix) + json_ext()
    } else {
        first
    }
}

/// Replaces each character that is not alphanumeric, `-`, `_` or `.` by `_`.
pub fn sanitize_filename(s: &str) -> (r: String)
    ensures
        r@ == sanitized(s@),
{
    let n = s.unicode_len();
    let mut out = String::new();
    let mut i: usize = 0;
    while i < n
        invariant
            n == s@.len(),
            i <= n,
            out@ == sanitized(s@).take(i as int),
        decreases n - i,
    {
        let c = s.get_char(i);
        let keep = is_alphanumeric(c) || c == '-' || c == '_' || c == '.';
        if keep {
            push_char(&mut out, c);
        } else {
            push_char(&mut out, '_');
        }
        assert(sanitized(s@).take(i + 1) =~= sanitized(s@).take(i as int).push(sanitized(s@)[i as int]));
        i = i + 1;
    }
    assert(sanitized(s@).take(n as int) =~= sanitized(s@));
    out
}

/// Chooses the file name of the record of a session that starts at
/// `start_unix`, so that it does not take the plain name of an earlier
/// record.
pub fn resolve_session_log_path(logs: &Vec<LogFile>, note: &Option<String>, start_unix: i64) -> (r:
    String)
    requires
        0 <= start_unix <= MAX_UNIX,
    ensures
        r@ == resolved_name(logs@, *note, start_unix),
{
    let stamp = compact_utc_stamp(start_unix);
    let base = match note {
        Some(n) => {
            if n.as_str().unicode_len() > 0 {
                sanitize_filename(n.as_str())
            } else {
                stamp.clone()
            }
        },
        None => stamp.clone(),
    };
    proof {
        reveal_strlit(".json");
        reveal_strlit("-");
    }
    let first = base.clone().concat(".json");
    assert(first@ =~= base_name(*note, start_unix) + json_ext());
    if find_log(logs, &first).is_some() {
        let r = base.concat("-").concat(stamp.as_str()).concat(".json");
        assert(r@ =~= base_name(*note, start_unix) + seq!['-'] + utc_stamp_of(start_unix)
            + json_ext());
        r
    } else {
        first
    }
}

} // verus!
