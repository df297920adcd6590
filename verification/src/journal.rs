//! The journal of one user for one day, from the moment it is opened to the
//! moment it is closed.

use vstd::prelude::*;
use crate::codec::content;
use crate::codec::decoded;
use crate::codec::encoded;
use crate::codec::render;
use crate::codec::restore;
use crate::codec::stored_entries;
use crate::date::current_moment;
use crate::date::naive_now;
use crate::date::Date;
use crate::date::Timestamp;
use crate::entries::ascending;
use crate::entries::inserted;
use crate::entries::lemma_collected_of_ascending;
use crate::entries::omitted_count;
use crate::entries::removed_count;
use crate::entries::shown_count;
use crate::entries::views;
use crate::entries::DayEntries;
use crate::entries::Entry;
use crate::entries::EntryView;

verus! {

/// `std::io::Error`, with which `hostname::get` fails. Nothing is known of
/// what such an error holds.
#[verifier::external_type_specification]
#[verifier::external_body]
pub struct ExIoError(std::io::Error);

/// Why a journal could not be opened.
#[derive(Debug, PartialEq, Eq, Structural)]
pub enum JournalError {
    /// No user was named and the machine did not give its name.
    Identity,
}

/// A journal as the contracts see it.
pub struct JournalView {
    pub user: Seq<char>,
    pub date: Date,
    pub entries: Seq<EntryView>,
}

/// What the caller is told after an entry was added.
#[derive(Debug, PartialEq, Eq)]
pub struct Receipt {
    /// The number of entries that the day holds now.
    pub count: usize,
    pub date: Date,
    pub user: String,
}

/// The oldest entries that the file of one day holds for a user, and the
/// number of later ones that a limit left out.
#[derive(Debug, PartialEq, Eq)]
pub struct Listing {
    pub user: String,
    pub date: Date,
    pub shown: Vec<Entry>,
    pub omitted: Option<usize>,
}

/// What became of an entry that was to be added.
#[derive(Debug, PartialEq, Eq)]
pub enum AddOutcome {
    /// The moment is of another day than the journal: nothing was added.
    Skipped,
    /// The entry is in the journal, and the directory of its file is to be
    /// created where it does not exist.
    Added(Receipt),
}

/// What is to be done with the file of a journal that is closed.
#[derive(Debug, PartialEq, Eq)]
pub enum CloseAction {
    /// The journal is empty: its file goes, and so does every directory above
    /// it that is left empty.
    Delete,
    /// The file is to hold these bytes and nothing else.
    Save(Vec<u8>),
    /// The entries have no stored form: the file stays as it is.
    Unsaved,
}

/// A closing action as the contracts see it.
pub enum CloseActionView {
    Delete,
    Save(Seq<u8>),
    Unsaved,
}

impl View for CloseAction {
    type V = CloseActionView;

    open spec fn view(&self) -> CloseActionView {
        match self {
            CloseAction::Delete => CloseActionView::Delete,
            CloseAction::Save(bytes) => CloseActionView::Save(bytes@),
            CloseAction::Unsaved => CloseActionView::Unsaved,
        }
    }
}

/// The journal after an entry with the text `text` was to be added at the
/// moment `now`: the entry is put in where `now` falls on the day of the
/// journal, and nothing changes where it falls on another day.
pub open spec fn added(journal: JournalView, now: Timestamp, text: Seq<char>) -> JournalView {
    if now.date == journal.date {
        JournalView { entries: inserted(journal.entries, EntryView { stamp: now, text }), ..journal }
    } else {
        journal
    }
}

/// The journal after its `limit` most recent entries were removed: the oldest
/// stay, in their order.
pub open spec fn removed(journal: JournalView, limit: usize) -> JournalView {
    let left = journal.entries.len() - removed_count(journal.entries.len(), limit);
    JournalView { entries: journal.entries.take(left), ..journal }
}

/// What is to be done with the file of a journal that is closed, where
/// `rendered` is the stored form of its entries, if they have one.
pub open spec fn closing(journal: JournalView, rendered: Option<Seq<u8>>) -> CloseActionView {
    if journal.entries.len() == 0 {
        CloseActionView::Delete
    } else {
        match rendered {
            Some(bytes) => CloseActionView::Save(bytes),
            None => CloseActionView::Unsaved,
        }
    }
}

/// The name of the machine, as `hostname::get` has it from the system, with
/// what is not Unicode in it replaced. Nothing is claimed of the name, nor of
/// when there is one.
#[verifier::external_body]
fn host_name() -> (name: Result<String, std::io::Error>) {
    hostname::get().map(|name| name.to_string_lossy().into_owned())
}

/// The user of a journal: the one named, or else the machine by its name,
/// where `host` is what the lookup of that name gave.
pub fn identity_from(user: Option<&str>, host: Result<String, std::io::Error>) -> (found: Result<
    String,
    JournalError,
>)
    ensures
        match user {
            Some(name) => found matches Ok(id) && id@ == name@,
            None => match host {
                Ok(name) => found matches Ok(id) && id@ == name@,
                Err(_) => found == Err::<String, JournalError>(JournalError::Identity),
            },
        },
{
    match user {
        Some(name) => Ok(name.to_owned()),
        None => match host {
            Ok(name) => Ok(name),
            Err(_) => Err(JournalError::Identity),
        },
    }
}

/// The user of a journal: the one named, or else the machine by its name. The
/// machine is asked only where no user is named, and only then can this fail.
pub fn identity(user: Option<&str>) -> (found: Result<String, JournalError>)
    ensures
        user matches Some(name) ==> found matches Ok(id) && id@ == name@,
        found matches Err(error) ==> error == JournalError::Identity,
{
    match user {
        Some(name) => Ok(name.to_owned()),
        None => identity_from(None, host_name()),
    }
}

/// One user's entries of one day.
pub struct Journal {
    user: String,
    date: Date,
    entries: DayEntries,
}

impl Journal {
    /// The journal as the contracts see it.
    pub closed spec fn state(&self) -> JournalView {
        JournalView { user: self.user@, date: self.date, entries: self.entries@ }
    }

    /// Opens the journal of `user` for the day `date`, where `stored` is the
    /// content of its file, if there is one. Where no user is named the journal
    /// is that of the machine, by its name. A file that does not hold the
    /// stored form of a day counts as no file: the journal starts empty.
    pub fn open(user: Option<&str>, date: Date, stored: Option<&[u8]>) -> (opened: Result<
        Journal,
        JournalError,
    >)
        ensures
            user matches Some(name) ==> opened matches Ok(journal) && journal.state().user
                == name@,
            opened matches Ok(journal) ==> journal.state().date == date
                && journal.state().entries == stored_entries(content(stored)) && ascending(
                journal.state().entries,
            ),
            stored matches Some(bytes) && decoded(bytes@) is None ==> (opened matches Ok(journal)
                ==> journal.state().entries.len() == 0),
            opened matches Err(error) ==> error == JournalError::Identity,
    {
        match identity(user) {
            Ok(name) => Ok(Journal { user: name, date, entries: restore(stored) }),
            Err(error) => Err(error),
        }
    }

    /// The user whose journal this is.
    pub fn user(&self) -> (name: &str)
        ensures
            name@ == self.state().user,
    {
        self.user.as_str()
    }

    /// The day that the journal is for.
    pub fn date(&self) -> (date: Date)
        ensures
            date == self.state().date,
    {
        self.date
    }

    /// The entries of the journal, oldest first.
    pub fn entries(&self) -> (items: &Vec<Entry>)
        ensures
            views(items@) == self.state().entries,
            ascending(self.state().entries),
    {
        self.entries.entries()
    }

    /// The number of entries in the journal.
    pub fn len(&self) -> (count: usize)
        ensures
            count == self.state().entries.len(),
    {
        self.entries.len()
    }

    /// Adds an entry with the text `entry` at the moment `now`, if `now` falls
    /// on the day of the journal; else nothing changes. An entry already held
    /// for that moment is replaced.
    pub fn add_entry_at(&mut self, now: Timestamp, entry: &str) -> (outcome: AddOutcome)
        ensures
            final(self).state() == added(old(self).state(), now, entry@),
            now.date != old(self).state().date ==> final(self).state() == old(self).state(),
            ascending(final(self).state().entries),
            match outcome {
                AddOutcome::Skipped => now.date != old(self).state().date,
                AddOutcome::Added(receipt) => now.date == old(self).state().date && receipt.count
                    == final(self).state().entries.len() && receipt.date == now.date
                    && receipt.user@ == old(self).state().user,
            },
    {
        if self.date != now.date {
            proof {
                use_type_invariant(&self.entries);
                self.entries.lemma_in_order();
            }
            return AddOutcome::Skipped;
        }
        self.entries.insert(now, entry.to_owned());
        AddOutcome::Added(
            Receipt { count: self.entries.len(), date: self.date, user: self.user.clone() },
        )
    }

    /// Adds an entry with the text `entry` at the present moment, which the
    /// machine's clock gives anew at every call, if that moment falls on the day
    /// of the journal; else nothing changes.
    pub fn add_entry(&mut self, entry: &str) -> (outcome: AddOutcome)
        ensures
            ascending(final(self).state().entries),
            match outcome {
                AddOutcome::Skipped => final(self).state() == old(self).state(),
                AddOutcome::Added(receipt) => receipt.count == final(self).state().entries.len()
                    && receipt.date == old(self).state().date && receipt.user@ == old(
                    self,
                ).state().user && exists|now: Timestamp|
                    now.date == old(self).state().date && final(self).state() == added(
                        old(self).state(),
                        now,
                        entry@,
                    ),
            },
    {
        let moment = current_moment();
        self.add_entry_at(moment, entry)
    }

    /// The oldest entries of the user's day `date`, where `stored` is the
    /// content of the file of that day, if there is one: all of them, or the
    /// first `limit` where there are more, with the number of those left out.
    /// What the journal itself holds has no part in it and stays as it is.
    pub fn view(&self, date: Date, stored: Option<&[u8]>, limit: Option<usize>) -> (listing:
        Listing)
        ensures
            listing.user@ == self.state().user,
            listing.date == date,
            views(listing.shown@) == stored_entries(content(stored)).take(
                shown_count(stored_entries(content(stored)).len(), limit) as int,
            ),
            ascending(views(listing.shown@)),
            match listing.omitted {
                Some(count) => omitted_count(stored_entries(content(stored)).len(), limit) == Some(
                    count as nat,
                ),
                None => omitted_count(stored_entries(content(stored)).len(), limit) is None,
            },
    {
        let excerpt = restore(stored).oldest(limit);
        Listing { user: self.user.clone(), date, shown: excerpt.shown, omitted: excerpt.omitted }
    }

    /// Removes the `limit` most recent entries, or all of them where there are
    /// no more than `limit`, and returns how many were removed.
    pub fn remove(&mut self, limit: usize) -> (count: usize)
        ensures
            count == removed_count(old(self).state().entries.len(), limit),
            final(self).state() == removed(old(self).state(), limit),
            ascending(final(self).state().entries),
    {
        self.entries.remove_latest(limit)
    }

    /// Closes the journal, where `rendered` is the stored form of its entries,
    /// if they have one, and says what is to be done with its file.
    pub fn close_with(self, rendered: Option<Vec<u8>>) -> (action: CloseAction)
        ensures
            action@ == closing(
                self.state(),
                match rendered {
                    Some(bytes) => Some(bytes@),
                    None => None,
                },
            ),
    {
        if self.entries.is_empty() {
            CloseAction::Delete
        } else {
            match rendered {
                Some(bytes) => CloseAction::Save(bytes),
                None => CloseAction::Unsaved,
            }
        }
    }

    /// Closes the journal and says what is to be done with its file: an empty
    /// journal has its file deleted, any other has it written anew.
    pub fn close(self) -> (action: CloseAction)
        ensures
            action@ == closing(self.state(), encoded(self.state().entries)),
    {
        let rendered = if self.entries.is_empty() {
            None
        } else {
            render(&self.entries)
        };
        self.close_with(rendered)
    }
}

impl Default for Journal {
    /// An empty journal of nobody, for the present day.
    fn default() -> (journal: Journal)
        ensures
            journal.state().user == Seq::<char>::empty(),
            journal.state().entries == Seq::<EntryView>::empty(),
    {
        Journal { user: String::new(), date: naive_now(), entries: DayEntries::new() }
    }
}

/// A journal from which as many entries were removed as it held, or more, is
/// deleted when it is closed, whatever stored form there may be.
pub proof fn lemma_emptied_journal_is_deleted(
    journal: JournalView,
    limit: usize,
    rendered: Option<Seq<u8>>,
)
    requires
        limit >= journal.entries.len(),
    ensures
        closing(removed(journal, limit), rendered) == CloseActionView::Delete,
{
}

/// A journal that holds entries when it is closed has their stored form
/// written to its file; and wherever that form decodes to the entries that
/// were written, the journal opened on the file again holds exactly those
/// entries, in the same ascending order. That the stored form does decode so is
/// not shown here: it is the work of `serde_json` and `chrono`.
pub proof fn lemma_reopened_as_written(journal: JournalView, bytes: Seq<u8>)
    requires
        ascending(journal.entries),
        journal.entries.len() > 0,
        encoded(journal.entries) == Some(bytes),
        decoded(bytes) == Some(journal.entries),
    ensures
        closing(journal, encoded(journal.entries)) == CloseActionView::Save(bytes),
        stored_entries(Some(bytes)) == journal.entries,
{
    lemma_collected_of_ascending(journal.entries);
}

/// The file of a journal is deleted at its closing exactly when the journal
/// holds no entry then: no closing deletes a journal with entries, and none
/// writes an empty one.
pub proof fn lemma_file_iff_entries(journal: JournalView, rendered: Option<Seq<u8>>)
    ensures
        closing(journal, rendered) == CloseActionView::Delete <==> journal.entries.len() == 0,
{
}

/// Adding at a moment of another day than that of the journal leaves the
/// journal as it was.
pub proof fn lemma_add_on_another_day(journal: JournalView, now: Timestamp, text: Seq<char>)
    requires
        now.date != journal.date,
    ensures
        added(journal, now, text) == journal,
{
}

} // verus!
