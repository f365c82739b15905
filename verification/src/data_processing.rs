//! Normalisation of raw event records: trims text fields and applies the
//! date-defaulting policy (today's date for a blank start date, a fixed
//! placeholder for a blank end date).

use vstd::prelude::*;
use crate::html_parser::Event;
use crate::text::{trim_seq, trim_str};

verus! {

/// A processed event: text fields are trimmed and both dates are non-blank.
#[derive(Debug, Clone, PartialEq)]
pub struct ProcessedEvent {
    pub name: String,
    pub start_date: String,
    pub end_date: String,
    pub location: String,
    pub url: String,
}

/// The normalised form of a date field: the trimmed text when it is
/// non-blank; otherwise `today` for a start date and `"N/A"` for an end
/// date.
pub open spec fn date_or_default(s: Seq<char>, is_start_date: bool, today: Seq<char>) -> Seq<
    char,
> {
    if trim_seq(s).len() == 0 {
        if is_start_date {
            today
        } else {
            "N/A"@
        }
    } else {
        trim_seq(s)
    }
}

/// How one processed event is derived from one raw event, given the day
/// string `today` substituted for blank start dates.
pub open spec fn processed_from(e: Event, p: ProcessedEvent, today: Seq<char>) -> bool {
    &&& p.name@ == trim_seq(e.name@)
    &&& p.location@ == trim_seq(e.location@)
    &&& p.url@ == e.url@
    &&& p.start_date@ == date_or_default(e.start_date@, true, today)
    &&& p.end_date@ == date_or_default(e.end_date@, false, today)
}

/// How a whole processed sequence is derived from a raw one: same length,
/// order-preserving, one-to-one, with the same day string `today`
/// substituted throughout.
pub open spec fn all_processed_from(
    es: Seq<Event>,
    ps: Seq<ProcessedEvent>,
    today: Seq<char>,
) -> bool {
    &&& ps.len() == es.len()
    &&& forall|i: int| 0 <= i < es.len() ==> processed_from(es[i], #[trigger] ps[i], today)
}

/// Law: normalisation trims the name and location fields and passes the URL
/// through unchanged.
pub proof fn lemma_processed_text_fields(e: Event, p: ProcessedEvent, today: Seq<char>)
    requires
        processed_from(e, p, today),
    ensures
        p.name@ == trim_seq(e.name@),
        p.location@ == trim_seq(e.location@),
        p.url@ == e.url@,
{
}

/// Law: a start date that trims to nothing is replaced by the supplied day
/// string.
pub proof fn lemma_blank_start_date_defaults_to_today(s: Seq<char>, today: Seq<char>)
    requires
        trim_seq(s).len() == 0,
    ensures
        date_or_default(s, true, today) == today,
{
}

/// Law: a date that trims to something is kept verbatim in trimmed form,
/// with no reformatting.
pub proof fn lemma_nonblank_date_kept(s: Seq<char>, is_start_date: bool, today: Seq<char>)
    requires
        trim_seq(s).len() != 0,
    ensures
        date_or_default(s, is_start_date, today) == trim_seq(s),
{
}

/// Law: an end date that trims to nothing is replaced by the fixed
/// placeholder.
pub proof fn lemma_blank_end_date_is_placeholder(s: Seq<char>, today: Seq<char>)
    requires
        trim_seq(s).len() == 0,
    ensures
        date_or_default(s, false, today) == "N/A"@,
{
}

/// Law: a normalised date field is never blank, as long as the substituted
/// day string is not.
pub proof fn lemma_normalized_dates_nonblank(s: Seq<char>, is_start_date: bool, today: Seq<char>)
    requires
        today.len() > 0,
    ensures
        date_or_default(s, is_start_date, today).len() > 0,
{
    reveal_strlit("N/A");
}

/// Relies on chrono's `Local::now` and `DateTime::format` with the pattern
/// `"%B%e"`: the current local date as the full month name immediately
/// followed by the space-padded day of the month. The pattern always
/// writes a month name, so the result is never empty; beyond that it
/// depends on the clock and nothing is assumed of it.
#[verifier::external_body]
fn today_date() -> (r: String)
    ensures
        r@.len() > 0,
{
    chrono::Local::now().format("%B%e").to_string()
}

/// Returns `text` with leading and trailing whitespace removed.
pub fn clean_text(text: &str) -> (r: String)
    ensures
        r@ == trim_seq(text@),
{
    trim_str(text)
}

/// Normalises one date field against an explicitly supplied day string, so
/// that the substitution made for a blank start date is pinned down.
pub fn parse_date_with_today(date_str: &str, is_start_date: bool, today: &str) -> (r: String)
    ensures
        r@ == date_or_default(date_str@, is_start_date, today@),
{
    let trimmed = trim_str(date_str);
    if trimmed.as_str().is_empty() {
        if is_start_date {
            today.to_owned()
        } else {
            "N/A".to_owned()
        }
    } else {
        trimmed
    }
}

/// Normalises one date field, reading today's date from the clock when a
/// start date is blank.
pub fn parse_date(date_str: &str, is_start_date: bool) -> (r: String)
    ensures
        trim_seq(date_str@).len() != 0 ==> r@ == trim_seq(date_str@),
        trim_seq(date_str@).len() == 0 && !is_start_date ==> r@ == "N/A"@,
        r@.len() > 0,
{
    let today = today_date();
    let r = parse_date_with_today(date_str, is_start_date, today.as_str());
    proof {
        lemma_normalized_dates_nonblank(date_str@, is_start_date, today@);
    }
    r
}

/// Normalises raw events into processed events, order-preserving and
/// one-to-one: text fields are trimmed, blank start dates become the day
/// string read once from the clock, and blank end dates become `"N/A"`.
pub fn process_data(events: Vec<Event>) -> (r: Vec<ProcessedEvent>)
    ensures
        r@.len() == events@.len(),
        exists|d: Seq<char>| #[trigger] all_processed_from(events@, r@, d),
        forall|i: int| 0 <= i < r@.len() ==> #[trigger] r@[i].start_date@.len() > 0,
        forall|i: int| 0 <= i < r@.len() ==> #[trigger] r@[i].end_date@.len() > 0,
{
    let today = today_date();
    let ghost d = today@;
    let mut r: Vec<ProcessedEvent> = Vec::new();
    let mut idx: usize = 0;
    while idx < events.len()
        invariant
            0 <= idx <= events@.len(),
            r@.len() == idx,
            d == today@,
            d.len() > 0,
            forall|i: int| 0 <= i < idx ==> processed_from(events@[i], #[trigger] r@[i], d),
            forall|i: int| 0 <= i < idx ==> #[trigger] r@[i].start_date@.len() > 0,
            forall|i: int| 0 <= i < idx ==> #[trigger] r@[i].end_date@.len() > 0,
        decreases events@.len() - idx,
    {
        let e = &events[idx];
        let p = ProcessedEvent {
            name: clean_text(e.name.as_str()),
            start_date: parse_date_with_today(e.start_date.as_str(), true, today.as_str()),
            end_date: parse_date_with_today(e.end_date.as_str(), false, today.as_str()),
            location: clean_text(e.location.as_str()),
            url: e.url.clone(),
        };
        proof {
            lemma_normalized_dates_nonblank(e.start_date@, true, d);
            lemma_normalized_dates_nonblank(e.end_date@, false, d);
        }
        r.push(p);
        idx = idx + 1;
    }
    proof {
        assert(all_processed_from(events@, r@, d));
    }
    r
}

} // verus!
