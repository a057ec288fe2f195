use vstd::prelude::*;
use vstd::string::StrSliceExecFns;
use vstd::string::StringExecFns;

verus! {

/// What `chrono::NaiveDateTime::parse_from_str` makes of `text` under
/// `format`: nothing where it reports an error, else the date and time it
/// read, as whole seconds since 1970-01-01 00:00:00 and the nanoseconds
/// beyond them. Two results compare as the date-times
/// do: by the seconds, then by the nanoseconds.
pub uninterp spec fn naive_instant(text: Seq<char>, format: Seq<char>) -> Option<(i64, u32)>;

/// Calls `chrono::NaiveDateTime::parse_from_str(text, format)`. The contract
/// claims only that the outcome is a function of the two strings: a parse
/// error gives `None`; a date-time is handed back as the pair of
/// `and_utc().timestamp()` and `and_utc().timestamp_subsec_nanos()`.
#[verifier::external_body]
fn parse_naive(text: &str, format: &str) -> (instant: Option<(i64, u32)>)
    ensures
        instant == naive_instant(text@, format@),
{
    match chrono::NaiveDateTime::parse_from_str(text, format) {
        Ok(at) => Some((at.and_utc().timestamp(), at.and_utc().timestamp_subsec_nanos())),
        Err(_) => None,
    }
}

/// The end of the piece of `s` that starts at `from`: the position of the
/// first `T` at or after `from`, or the length of `s` where there is none.
pub open spec fn piece_end(s: Seq<char>, from: int) -> int
    decreases s.len() - from,
{
    if from >= s.len() || s[from] == 'T' {
        from
    } else {
        piece_end(s, from + 1)
    }
}

/// `s` without its `Z`s.
pub open spec fn without_z(s: Seq<char>) -> Seq<char>
    decreases s.len(),
{
    if s.len() == 0 {
        s
    } else if s.last() == 'Z' {
        without_z(s.drop_last())
    } else {
        without_z(s.drop_last()).push(s.last())
    }
}

/// The text handed to the date-time parser for a wire timestamp such as
/// `2024-06-01T00:00:00Z`: the piece before the first `T`, a space, and the
/// piece after it (up to a further `T`, if any) with every `Z` removed.
/// A timestamp without a `T` has no such text.
pub open spec fn normalised(s: Seq<char>) -> Option<Seq<char>> {
    let date_end = piece_end(s, 0);
    if date_end >= s.len() {
        None
    } else {
        let time_end = piece_end(s, date_end + 1);
        Some(s.subrange(0, date_end) + seq![' '] + without_z(s.subrange(date_end + 1, time_end)))
    }
}

/// The instant that a wire timestamp stands for, where it has one.
pub open spec fn spec_parse_timestamp(s: Seq<char>) -> Option<(i64, u32)> {
    match normalised(s) {
        None => None,
        Some(text) => naive_instant(text, "%Y-%m-%d %H:%M:%S"@),
    }
}

fn find_piece_end(s: &str, from: usize) -> (end: usize)
    requires
        from <= s@.len(),
    ensures
        end == piece_end(s@, from as int),
        from <= end <= s@.len(),
{
    let len: usize = s.unicode_len();
    let mut at: usize = from;
    while at < len && s.get_char(at) != 'T'
        invariant
            from <= at <= len,
            len == s@.len(),
            piece_end(s@, from as int) == piece_end(s@, at as int),
        decreases len - at,
    {
        at += 1;
    }
    at
}

/// Rewrites a wire timestamp into the text that the date-time parser reads.
pub fn normalise(timestamp: &str) -> (text: Option<String>)
    ensures
        match text {
            Some(t) => normalised(timestamp@) == Some(t@),
            None => normalised(timestamp@) is None,
        },
{
    let len: usize = timestamp.unicode_len();
    let date_end: usize = find_piece_end(timestamp, 0);
    if date_end >= len {
        return None;
    }
    let time_end: usize = find_piece_end(timestamp, date_end + 1);
    let mut text = String::from_str(timestamp.substring_char(0, date_end));
    text.append(" ");
    proof {
        reveal_strlit(" ");
        assert(" "@ =~= seq![' ']);
    }
    let ghost head = text@;
    let ghost time = timestamp@.subrange(date_end + 1, time_end as int);
    let mut at: usize = date_end + 1;
    assert(time.subrange(0, 0) =~= Seq::<char>::empty());
    while at < time_end
        invariant
            date_end + 1 <= at <= time_end <= len,
            len == timestamp@.len(),
            time == timestamp@.subrange(date_end + 1, time_end as int),
            text@ == head + without_z(time.subrange(0, at - (date_end + 1))),
        decreases time_end - at,
    {
        let ghost seen = time.subrange(0, at - (date_end + 1));
        let ghost next = time.subrange(0, at + 1 - (date_end + 1));
        assert(next.drop_last() =~= seen);
        assert(next.last() == timestamp@[at as int]);
        if timestamp.get_char(at) != 'Z' {
            let piece = timestamp.substring_char(at, at + 1);
            assert(piece@ =~= seq![timestamp@[at as int]]);
            text.append(piece);
            assert(text@ =~= head + without_z(seen).push(next.last()));
        }
        at += 1;
    }
    assert(time.subrange(0, time_end - (date_end + 1)) =~= time);
    Some(text)
}

/// Reads a wire timestamp of the form `YYYY-MM-DDTHH:MM:SSZ`.
pub fn parse_timestamp(timestamp: &str) -> (instant: Option<(i64, u32)>)
    ensures
        instant == spec_parse_timestamp(timestamp@),
{
    match normalise(timestamp) {
        None => None,
        Some(text) => parse_naive(text.as_str(), "%Y-%m-%d %H:%M:%S"),
    }
}

} // verus!
