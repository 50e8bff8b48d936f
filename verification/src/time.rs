//! Points in time, kept as the RFC 3339 text of a UTC date and time.

use vstd::prelude::*;

verus! {

/// The RFC 3339 text (as `DateTime::<Utc>::to_rfc3339` writes it) of the
/// instant that `chrono::DateTime::parse_from_rfc3339` reads from `text`,
/// or `None` when that parser refuses `text`.
pub uninterp spec fn utc_rfc3339_of(text: Seq<char>) -> Option<Seq<char>>;

/// RFC 3339 text written at the UTC offset: it ends with `+00:00`.
pub open spec fn is_written_in_utc(s: Seq<char>) -> bool {
    s.len() >= 6 && s.subrange(s.len() - 6, s.len() as int) == "+00:00"@
}

/// The text starts with a digit: `to_rfc3339` wrote its year, which lies in
/// 0..=9999, as four plain digits (other years get a sign).
pub open spec fn has_plain_year(s: Seq<char>) -> bool {
    s.len() > 0 && '0' <= s[0] <= '9'
}

/// Text as `DateTime::<Utc>::to_rfc3339` writes it: at the UTC offset, and,
/// when its year is written as four plain digits, read back by
/// `utc_rfc3339_of` as itself.
pub open spec fn is_normal_utc_text(s: Seq<char>) -> bool {
    &&& is_written_in_utc(s)
    &&& (has_plain_year(s) ==> utc_rfc3339_of(s) == Some(s))
}

/// Parses `text` with `chrono::DateTime::parse_from_rfc3339`, moves the
/// result to UTC with `with_timezone(&Utc)` and writes it back with
/// `to_rfc3339`. The contract claims that the outcome is the named function
/// `utc_rfc3339_of` of the text, and that a written text is in normal UTC
/// form: `to_rfc3339` writes the offset of a `DateTime<Utc>` as `+00:00`,
/// and a text with a four-digit year is exactly what `parse_from_rfc3339`
/// reads (`YYYY-MM-DDTHH:MM:SS[.fraction]+00:00`, second 60 for a leap
/// second) back to the same instant, which `to_rfc3339` writes the same way
/// again.
#[verifier::external_body]
fn parse_rfc3339_in_utc(text: &str) -> (r: Option<String>)
    ensures
        match r {
            Some(s) => utc_rfc3339_of(text@) == Some(s@) && is_normal_utc_text(s@),
            None => utc_rfc3339_of(text@) is None,
        },
{
    match chrono::DateTime::parse_from_rfc3339(text) {
        Ok(dt) => Some(dt.with_timezone(&chrono::Utc).to_rfc3339()),
        Err(_) => None,
    }
}

/// The current time from `chrono::Utc::now`, written with `to_rfc3339`.
/// The instant depends on the clock and is not claimed; the contract claims
/// only that the text is in normal UTC form: `to_rfc3339` writes the offset
/// of every `DateTime<Utc>` as `+00:00` (offset zero, colon-separated
/// minutes, no `Z`), and a text with a four-digit year reads back as itself
/// (see `parse_rfc3339_in_utc`).
#[verifier::external_body]
fn current_time_rfc3339() -> (s: String)
    ensures
        is_normal_utc_text(s@),
{
    chrono::Utc::now().to_rfc3339()
}

/// Where a point in time was obtained.
#[derive(Debug, Clone, Copy, PartialEq, Eq, Structural)]
pub enum TimeSource {
    /// Read from the system clock at the moment it was taken.
    Clock,
    /// Read from RFC 3339 text.
    Text,
}

/// A UTC point in time, held as its RFC 3339 text, together with where it
/// was obtained: from the clock, or from text.
#[derive(Debug)]
pub struct Timestamp {
    text: String,
    source: TimeSource,
}

impl View for Timestamp {
    type V = Seq<char>;

    /// The RFC 3339 text of the point in time.
    closed spec fn view(&self) -> Seq<char> {
        self.text@
    }
}

impl Clone for Timestamp {
    fn clone(&self) -> (r: Self)
        ensures
            r == *self,
    {
        Timestamp { text: self.text.clone(), source: self.source }
    }
}

impl Timestamp {
    /// The point in time is a reading of the system clock (taken by
    /// [`Timestamp::now`]), not one read from text.
    pub closed spec fn is_clock_reading(self) -> bool {
        self.source == TimeSource::Clock
    }

    /// The current time, written in UTC: a reading of the clock; which
    /// instant it is depends on the clock.
    pub fn now() -> (t: Timestamp)
        ensures
            is_normal_utc_text(t@),
            t.is_clock_reading(),
    {
        Timestamp { text: current_time_rfc3339(), source: TimeSource::Clock }
    }

    /// Whether the point in time is a reading of the clock.
    pub fn is_from_clock(&self) -> (b: bool)
        ensures
            b == self.is_clock_reading(),
    {
        self.source == TimeSource::Clock
    }

    /// Reads an RFC 3339 date and time, in any offset, as a UTC point in
    /// time; `None` when the text is not RFC 3339.
    pub fn parse_rfc3339(text: &str) -> (r: Option<Timestamp>)
        ensures
            match r {
                Some(t) => utc_rfc3339_of(text@) == Some(t@) && is_normal_utc_text(t@)
                    && !t.is_clock_reading(),
                None => utc_rfc3339_of(text@) is None,
            },
    {
        match parse_rfc3339_in_utc(text) {
            Some(s) => Some(Timestamp { text: s, source: TimeSource::Text }),
            None => None,
        }
    }

    /// Reads an RFC 3339 date and time; when the text is not RFC 3339,
    /// `fallback` is taken instead.
    pub fn parse_or(text: &str, fallback: Timestamp) -> (t: Timestamp)
        ensures
            match utc_rfc3339_of(text@) {
                Some(s) => t@ == s && !t.is_clock_reading(),
                None => t == fallback,
            },
    {
        match Timestamp::parse_rfc3339(text) {
            Some(t) => t,
            None => fallback,
        }
    }

    /// A reading of the clock is never a point in time read from text: a
    /// time stamped by [`Timestamp::now`] cannot be one that was parsed, even
    /// when both have the same text.
    pub proof fn lemma_clock_reading_is_not_parsed(a: Timestamp, b: Timestamp)
        requires
            a.is_clock_reading(),
            !b.is_clock_reading(),
        ensures
            a != b,
    {
    }

    /// The RFC 3339 text of the point in time.
    pub fn as_str(&self) -> (r: &str)
        ensures
            r@ == self@,
    {
        self.text.as_str()
    }

    /// The RFC 3339 text of the point in time, as an owned string.
    pub fn to_rfc3339(&self) -> (r: String)
        ensures
            r@ == self@,
    {
        self.text.clone()
    }
}

} // verus!
