//! Dates as they come from the feed: read leniently, stored as milliseconds since
//! the Unix epoch, written back as RFC 3339 text.

use vstd::prelude::*;

verus! {

/// The instant that stands for a date that could not be read: the Unix epoch.
pub const EPOCH_MILLIS: i64 = 0;

/// The text that stands for an instant that cannot be written as RFC 3339.
pub const UNWRITABLE_DATE: &'static str = "1970-01-01T09:00:00+09:00";

/// The instant, in milliseconds since the Unix epoch, that `chrono` reads from `text`
/// when it parses it as a `DateTime<Utc>`; `None` where `chrono` rejects the text.
pub uninterp spec fn parsed_utc_millis(text: Seq<char>) -> Option<i64>;

/// The RFC 3339 text that `bson` writes for the instant `millis` milliseconds after
/// the Unix epoch; `None` where it reports that the instant cannot be formatted.
pub uninterp spec fn rfc3339_text(millis: i64) -> Option<Seq<char>>;

/// What was read of a date, or the epoch where nothing was.
pub open spec fn or_epoch(parsed: Option<i64>) -> i64 {
    match parsed {
        Some(millis) => millis,
        None => EPOCH_MILLIS,
    }
}

/// What was written of an instant, or `UNWRITABLE_DATE` where nothing was.
pub open spec fn or_unwritable(written: Option<Seq<char>>) -> Seq<char> {
    match written {
        Some(text) => text,
        None => UNWRITABLE_DATE@,
    }
}

/// The instant a feed date stands for: what `chrono` reads from it, or the epoch.
pub open spec fn millis_or_epoch(text: Seq<char>) -> i64 {
    or_epoch(parsed_utc_millis(text))
}

/// The RFC 3339 form of a feed date: what `bson` writes for the instant it stands
/// for, or `UNWRITABLE_DATE`.
pub open spec fn rfc3339_or_default(text: Seq<char>) -> Seq<char> {
    or_unwritable(rfc3339_text(millis_or_epoch(text)))
}

/// Calls `chrono`'s `FromStr` for `DateTime<Utc>` (a relaxed RFC 3339 parser) and
/// takes the result's `timestamp_millis()`. Trusted: the result is the named value
/// `parsed_utc_millis` of the text, that is, the parser is a function of its input.
#[verifier::external_body]
fn parse_utc_millis(text: &str) -> (millis: Option<i64>)
    ensures
        millis == parsed_utc_millis(text@),
{
    match text.parse::<chrono::DateTime<chrono::Utc>>() {
        Ok(date) => Some(date.timestamp_millis()),
        Err(_) => None,
    }
}

/// Calls `bson::DateTime::try_to_rfc3339_string` on `DateTime::from_millis(millis)`.
/// Trusted: the text is the named value `rfc3339_text` of the instant, and an error
/// is returned exactly where that value is `None`.
#[verifier::external_body]
fn write_rfc3339(millis: i64) -> (text: Option<String>)
    ensures
        match text {
            Some(written) => rfc3339_text(millis) == Some(written@),
            None => rfc3339_text(millis) is None,
        },
{
    match bson::DateTime::from_millis(millis).try_to_rfc3339_string() {
        Ok(written) => Some(written),
        Err(_) => None,
    }
}

/// The characters of a text, one by one.
pub(crate) fn chars_of(text: &str) -> (chars: Vec<char>)
    ensures
        chars@ == text@,
{
    broadcast use vstd::string::group_string_axioms;

    let mut chars: Vec<char> = Vec::new();
    for c in it: text.chars()
        invariant
            it.seq() == text@,
            chars@ == text@.take(it.index()),
    {
        chars.push(c);
    }
    chars
}

/// A point in time in UTC, to the millisecond.
#[derive(Clone, Copy, Debug)]
pub struct UtcDateTime {
    millis: i64,
}

impl UtcDateTime {
    /// The instant `millis` milliseconds after the Unix epoch.
    pub fn from_millis(millis: i64) -> (date: UtcDateTime)
        ensures
            date.millis() == millis,
    {
        UtcDateTime { millis }
    }

    /// Milliseconds since the Unix epoch.
    pub closed spec fn millis(self) -> i64 {
        self.millis
    }

    /// Milliseconds since the Unix epoch.
    pub fn timestamp_millis(&self) -> (millis: i64)
        ensures
            millis == self.millis(),
    {
        self.millis
    }

    /// Whole seconds since the Unix epoch, rounded towards the past.
    pub fn timestamp(&self) -> (seconds: i64)
        ensures
            seconds == self.millis() / 1000,
    {
        match self.millis.checked_div_euclid(1000) {
            Some(seconds) => seconds,
            None => 0,
        }
    }
}

/// The instant that a reading of a date gave, or the epoch where it gave none.
pub fn instant_or_epoch(parsed: Option<i64>) -> (date: UtcDateTime)
    ensures
        date.millis() == or_epoch(parsed),
{
    match parsed {
        Some(millis) => UtcDateTime { millis },
        None => UtcDateTime { millis: EPOCH_MILLIS },
    }
}

/// The text that writing an instant gave, or `UNWRITABLE_DATE` where it gave none.
pub fn text_or_unwritable(written: Option<String>) -> (text: String)
    ensures
        text@ == or_unwritable(
            match written {
                Some(written) => Some(written@),
                None => None,
            },
        ),
{
    match written {
        Some(written) => written,
        None => UNWRITABLE_DATE.to_owned(),
    }
}

/// Reads a feed date. A text that cannot be read gives the epoch, not an error.
pub fn get_chrono_dt_from_string(date_string: String) -> (date: UtcDateTime)
    ensures
        date.millis() == millis_or_epoch(date_string@),
{
    instant_or_epoch(parse_utc_millis(date_string.as_str()))
}

/// Turns a feed date into RFC 3339 text in UTC. A text that cannot be read is
/// written as the epoch; an instant that cannot be written gives `UNWRITABLE_DATE`.
pub fn convert_to_rfc3999_string(date_string: String) -> (text: String)
    ensures
        text@ == rfc3339_or_default(date_string@),
{
    let date = get_chrono_dt_from_string(date_string);
    text_or_unwritable(write_rfc3339(date.timestamp_millis()))
}

/// A date that cannot be read stands for the epoch, whatever the text: any two
/// such texts give the same instant and are written as the same text.
pub proof fn lemma_unreadable_dates_agree(first: Seq<char>, second: Seq<char>)
    requires
        parsed_utc_millis(first) is None,
        parsed_utc_millis(second) is None,
    ensures
        millis_or_epoch(first) == EPOCH_MILLIS,
        millis_or_epoch(first) == millis_or_epoch(second),
        rfc3339_or_default(first) == rfc3339_or_default(second),
{
}

} // verus!
