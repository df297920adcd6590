//! The stored form of a day: a JSON object that maps the moment of each entry
//! to its text. The form itself is the work of `serde_json` and `chrono`; this
//! module hands them the entries and decides what a stored form stands for.

use vstd::prelude::*;
use chrono::Datelike;
use chrono::Timelike;
use crate::date::Date;
use crate::date::Timestamp;
use crate::entries::ascending;
use crate::entries::collected;
use crate::entries::views;
use crate::entries::DayEntries;
use crate::entries::Entry;
use crate::entries::EntryView;

verus! {

/// The entries that `serde_json` reads from `bytes` as a map from
/// `chrono::NaiveDateTime` to `String`, in the order of the map and each moment
/// cut to the second; `None` where it reads no such map from them.
pub uninterp spec fn decoded(bytes: Seq<u8>) -> Option<Seq<EntryView>>;

/// The bytes that `serde_json` writes, pretty-printed, for the map from
/// `chrono::NaiveDateTime` to `String` that holds `entries`; `None` where
/// `chrono` knows no such moment as one of theirs, or `serde_json` fails.
pub uninterp spec fn encoded(entries: Seq<EntryView>) -> Option<Seq<u8>>;

/// What a day holds that was decoded to `list`: the entries of the list, put in
/// one after another; nothing where nothing was decoded.
pub open spec fn recovered(list: Option<Seq<EntryView>>) -> Seq<EntryView> {
    match list {
        Some(entries) => collected(entries),
        None => Seq::empty(),
    }
}

/// What a day holds whose file has the content `stored`: nothing where there
/// is no file or the content is not the stored form of a day.
pub open spec fn stored_entries(stored: Option<Seq<u8>>) -> Seq<EntryView> {
    match stored {
        Some(bytes) => recovered(decoded(bytes)),
        None => Seq::empty(),
    }
}

/// The bytes of a file's content, where there is a file.
pub open spec fn content(stored: Option<&[u8]>) -> Option<Seq<u8>> {
    match stored {
        Some(bytes) => Some(bytes@),
        None => None,
    }
}

/// Calls `serde_json::from_slice` for a `BTreeMap<chrono::NaiveDateTime,
/// String>` and hands out the map's items in the map's order, each moment by
/// its year, month, day, hour, minute and second. The contract gives the
/// result its name and claims nothing else of it.
#[verifier::external_body]
fn decode(bytes: &[u8]) -> (list: Option<Vec<Entry>>)
    ensures
        match list {
            Some(entries) => decoded(bytes@) == Some(views(entries@)),
            None => decoded(bytes@) is None,
        },
{
    let stored: std::collections::BTreeMap<chrono::NaiveDateTime, String> =
        serde_json::from_slice(bytes).ok()?;
    let entry = |(at, text): (chrono::NaiveDateTime, String)| Entry {
        stamp: Timestamp {
            date: Date { year: at.year(), month: at.month(), day: at.day() },
            hour: at.hour(),
            minute: at.minute(),
            second: at.second(),
        },
        text,
    };
    Some(stored.into_iter().map(entry).collect())
}

/// Makes a `BTreeMap<chrono::NaiveDateTime, String>` of the entries, each
/// moment by `chrono::NaiveDate::from_ymd_opt` and `and_hms_opt`, and calls
/// `serde_json::to_vec_pretty` on it. The result is `None` where either of the
/// two refuses. The contract gives the result its name and claims nothing else
/// of it.
#[verifier::external_body]
fn encode(entries: &Vec<Entry>) -> (bytes: Option<Vec<u8>>)
    requires
        ascending(views(entries@)),
    ensures
        match bytes {
            Some(written) => encoded(views(entries@)) == Some(written@),
            None => encoded(views(entries@)) is None,
        },
{
    let mut stored = std::collections::BTreeMap::new();
    for entry in entries.iter() {
        let date = entry.stamp.date;
        let day = chrono::NaiveDate::from_ymd_opt(date.year, date.month, date.day)?;
        let at = day.and_hms_opt(entry.stamp.hour, entry.stamp.minute, entry.stamp.second)?;
        stored.insert(at, entry.text.clone());
    }
    serde_json::to_vec_pretty(&stored).ok()
}

/// The day that a decoded list of entries stands for. The list may be in any
/// order and may name a moment more than once; without a list the day is
/// empty.
pub fn recover(list: Option<Vec<Entry>>) -> (day: DayEntries)
    ensures
        day@ == recovered(
            match list {
                Some(entries) => Some(views(entries@)),
                None => None,
            },
        ),
        ascending(day@),
{
    match list {
        Some(entries) => DayEntries::collect(entries),
        None => DayEntries::new(),
    }
}

/// The day that the content of a file stands for. A missing file and a content
/// that is not the stored form of a day both stand for a day without entries.
pub fn restore(stored: Option<&[u8]>) -> (day: DayEntries)
    ensures
        day@ == stored_entries(content(stored)),
        ascending(day@),
{
    match stored {
        Some(bytes) => recover(decode(bytes)),
        None => DayEntries::new(),
    }
}

/// The stored form of a day, or `None` where the day has none.
pub fn render(day: &DayEntries) -> (bytes: Option<Vec<u8>>)
    ensures
        match bytes {
            Some(written) => encoded(day@) == Some(written@),
            None => encoded(day@) is None,
        },
{
    encode(day.entries())
}

/// A file whose content is not the stored form of a day stands for a day
/// without entries, as a missing file does.
pub proof fn lemma_corrupt_file_is_empty(bytes: Seq<u8>)
    requires
        decoded(bytes) is None,
    ensures
        stored_entries(Some(bytes)) == Seq::<EntryView>::empty(),
        stored_entries(Some(bytes)) == stored_entries(None),
{
}

} // verus!
