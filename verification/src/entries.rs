//! The entries of one day: an ordered mapping from the moment an entry was
//! recorded to its text.

use vstd::prelude::*;
use crate::date::Timestamp;

verus! {

/// One journal message with the moment it was recorded.
#[derive(Debug, PartialEq, Eq)]
pub struct Entry {
    pub stamp: Timestamp,
    pub text: String,
}

/// An entry as the contracts see it: the moment and the characters of the text.
pub struct EntryView {
    pub stamp: Timestamp,
    pub text: Seq<char>,
}

impl View for Entry {
    type V = EntryView;

    open spec fn view(&self) -> EntryView {
        EntryView { stamp: self.stamp, text: self.text@ }
    }
}

impl Clone for Entry {
    fn clone(&self) -> (copy: Entry)
        ensures
            copy@ == self@,
    {
        Entry { stamp: self.stamp, text: self.text.clone() }
    }
}

/// The entries of a list, each as the contracts see it.
pub open spec fn views(items: Seq<Entry>) -> Seq<EntryView> {
    items.map_values(|entry: Entry| entry@)
}

/// Whether every entry of `s` was recorded before the one that follows it. In
/// such a sequence no moment occurs twice.
pub open spec fn ascending(s: Seq<EntryView>) -> bool {
    forall|i: int, j: int|
        0 <= i < j < s.len() ==> (#[trigger] s[i]).stamp.precedes((#[trigger] s[j]).stamp)
}

/// The entries of `s` that were recorded before the moment `at`.
pub open spec fn earlier(s: Seq<EntryView>, at: Timestamp) -> Seq<EntryView> {
    s.filter(|entry: EntryView| entry.stamp.precedes(at))
}

/// The entries of `s` that were recorded after the moment `at`.
pub open spec fn later(s: Seq<EntryView>, at: Timestamp) -> Seq<EntryView> {
    s.filter(|entry: EntryView| at.precedes(entry.stamp))
}

/// The entries of `s` with `entry` put in at its place: those recorded before
/// it, then `entry`, then those recorded after it. An entry that `s` held for
/// the same moment is not among them: the new one has taken its place.
pub open spec fn inserted(s: Seq<EntryView>, entry: EntryView) -> Seq<EntryView> {
    earlier(s, entry.stamp) + seq![entry] + later(s, entry.stamp)
}

/// What a day holds after the entries of `list` were put in one after another,
/// starting from an empty day. Where `list` names a moment more than once, the
/// last entry for it is the one that stays.
pub open spec fn collected(list: Seq<EntryView>) -> Seq<EntryView>
    decreases list.len(),
{
    if list.len() == 0 {
        Seq::empty()
    } else {
        inserted(collected(list.drop_last()), list.last())
    }
}

/// How many entries go when the `limit` most recent of `count` are removed.
pub open spec fn removed_count(count: nat, limit: usize) -> nat {
    if limit <= count {
        limit as nat
    } else {
        count
    }
}

/// How many of `total` entries a listing with the given limit shows.
pub open spec fn shown_count(total: nat, limit: Option<usize>) -> nat {
    match limit {
        Some(most) => if most < total { most as nat } else { total },
        None => total,
    }
}

/// How many of `total` entries a listing with the given limit leaves out, where
/// it leaves any out.
pub open spec fn omitted_count(total: nat, limit: Option<usize>) -> Option<nat> {
    match limit {
        Some(most) => if most < total { Some((total - most) as nat) } else { None },
        None => None,
    }
}

/// The oldest entries of a day, and the number of later ones that a limit
/// left out.
#[derive(Debug, PartialEq, Eq)]
pub struct Excerpt {
    pub shown: Vec<Entry>,
    pub omitted: Option<usize>,
}

/// The entries of one day, oldest first, at most one for each moment.
pub struct DayEntries {
    items: Vec<Entry>,
}

impl View for DayEntries {
    type V = Seq<EntryView>;

    closed spec fn view(&self) -> Seq<EntryView> {
        views(self.items@)
    }
}

impl DayEntries {
    /// What every day keeps to: its entries stand in ascending order.
    #[verifier::type_invariant]
    pub(crate) closed spec fn in_order(self) -> bool {
        ascending(views(self.items@))
    }

    /// A day that keeps to its order has its entries in ascending order.
    pub(crate) proof fn lemma_in_order(self)
        requires
            self.in_order(),
        ensures
            ascending(self@),
    {
    }

    /// A day without entries.
    pub fn new() -> (day: DayEntries)
        ensures
            day@ == Seq::<EntryView>::empty(),
    {
        DayEntries { items: Vec::new() }
    }

    /// The number of entries.
    pub fn len(&self) -> (count: usize)
        ensures
            count == self@.len(),
    {
        self.items.len()
    }

    /// Whether the day has no entry.
    pub fn is_empty(&self) -> (empty: bool)
        ensures
            empty == (self@.len() == 0),
    {
        self.items.len() == 0
    }

    /// The entries, oldest first.
    pub fn entries(&self) -> (items: &Vec<Entry>)
        ensures
            views(items@) == self@,
            ascending(self@),
    {
        proof {
            use_type_invariant(self);
        }
        &self.items
    }

    /// Puts an entry in at its place in time. An entry already held for the
    /// same moment is replaced.
    pub fn insert(&mut self, stamp: Timestamp, text: String)
        ensures
            final(self)@ == inserted(old(self)@, EntryView { stamp, text: text@ }),
            ascending(final(self)@),
    {
        proof {
            use_type_invariant(&*self);
        }
        let mut items = Vec::new();
        std::mem::swap(&mut items, &mut self.items);
        let ghost before = views(items@);
        let ghost entry = EntryView { stamp, text: text@ };
        let mut at = items.len();
        while at > 0 && !items[at - 1].stamp.is_before(&stamp)
            invariant
                at <= items.len(),
                before == views(items@),
                forall|i: int| at <= i < before.len() ==> !(#[trigger] before[i]).stamp.precedes(stamp),
            decreases at,
        {
            at -= 1;
        }
        assert forall|i: int| 0 <= i < at implies (#[trigger] before[i]).stamp.precedes(stamp) by {
            assert(before[at - 1].stamp.precedes(stamp));
        }
        let replace = at < items.len() && items[at].stamp == stamp;
        let ghost resume = if replace { at + 1 } else { at as int };
        proof {
            lemma_filter_head(before, |e: EntryView| e.stamp.precedes(stamp), at as int);
            assert forall|i: int| resume <= i < before.len() implies stamp.precedes(
                (#[trigger] before[i]).stamp,
            ) by {
                if i > at {
                    assert(before[at as int].stamp.precedes(before[i].stamp));
                }
            }
            lemma_filter_tail(before, |e: EntryView| stamp.precedes(e.stamp), resume);
        }
        if replace {
            items.set(at, Entry { stamp, text });
        } else {
            items.insert(at, Entry { stamp, text });
        }
        assert(views(items@) == before.take(at as int) + seq![entry] + before.skip(resume));
        self.items = items;
        proof {
            lemma_inserted_is_ascending(before, entry);
        }
    }

    /// A day made of the entries of `list`, put in one after another. The list
    /// may be in any order and may name a moment more than once.
    pub fn collect(list: Vec<Entry>) -> (day: DayEntries)
        ensures
            day@ == collected(views(list@)),
            ascending(day@),
    {
        let mut day = DayEntries::new();
        let ghost all = views(list@);
        for entry in iter: list
            invariant
                all == views(iter.seq()),
                day@ == collected(all.take(iter.index() as int)),
        {
            proof {
                let n = iter.index() as int;
                assert(all.take(n + 1).drop_last() == all.take(n));
            }
            day.insert(entry.stamp, entry.text);
        }
        proof {
            assert(all.take(all.len() as int) == all);
            lemma_collected_is_ascending(all);
        }
        day
    }

    /// Removes the `limit` most recent entries, or all of them where there are
    /// no more than `limit`, and returns how many were removed.
    pub fn remove_latest(&mut self, limit: usize) -> (removed: usize)
        ensures
            removed == removed_count(old(self)@.len(), limit),
            final(self)@ == old(self)@.take(old(self)@.len() - removed),
            ascending(final(self)@),
    {
        proof {
            use_type_invariant(&*self);
        }
        let mut items = Vec::new();
        std::mem::swap(&mut items, &mut self.items);
        let total = items.len();
        let removed = if limit <= total { limit } else { total };
        items.truncate(total - removed);
        assert(views(items@) == views(old(self).items@).take(total - removed));
        self.items = items;
        removed
    }

    /// The first `limit` entries, or all of them where `limit` is `None` or
    /// there are no more than `limit`; and, where entries were left out, how
    /// many.
    pub fn oldest(self, limit: Option<usize>) -> (excerpt: Excerpt)
        ensures
            views(excerpt.shown@) == self@.take(shown_count(self@.len(), limit) as int),
            ascending(views(excerpt.shown@)),
            match excerpt.omitted {
                Some(count) => omitted_count(self@.len(), limit) == Some(count as nat),
                None => omitted_count(self@.len(), limit) is None,
            },
    {
        proof {
            use_type_invariant(&self);
        }
        let mut items = self.items;
        let total = items.len();
        match limit {
            Some(most) => {
                if most < total {
                    items.truncate(most);
                    assert(views(items@) == views(self.items@).take(most as int));
                    Excerpt { shown: items, omitted: Some(total - most) }
                } else {
                    Excerpt { shown: items, omitted: None }
                }
            },
            None => Excerpt { shown: items, omitted: None },
        }
    }
}

/// In an ascending sequence the entries recorded before a moment are a
/// leading part, those recorded after it a trailing part, and between the two
/// stands at most one entry: the one recorded at that moment. The result gives
/// where the leading part ends and where the trailing part begins.
proof fn lemma_place(s: Seq<EntryView>, at: Timestamp) -> (place: (int, int))
    requires
        ascending(s),
    ensures
        0 <= place.0 <= place.1 <= s.len(),
        place.1 <= place.0 + 1,
        earlier(s, at) == s.take(place.0),
        later(s, at) == s.skip(place.1),
        forall|i: int| 0 <= i < place.0 ==> (#[trigger] s[i]).stamp.precedes(at),
        forall|i: int| place.1 <= i < s.len() ==> at.precedes((#[trigger] s[i]).stamp),
        place.0 < place.1 ==> s[place.0].stamp == at,
    decreases s.len(),
{
    let place = if s.len() == 0 {
        (0int, 0int)
    } else if s.last().stamp.precedes(at) {
        (s.len() as int, s.len() as int)
    } else if s.last().stamp == at {
        (s.len() - 1, s.len() as int)
    } else {
        lemma_place(s.drop_last(), at)
    };
    assert forall|i: int| 0 <= i < place.0 implies (#[trigger] s[i]).stamp.precedes(at) by {
        if at.precedes(s.last().stamp) {
            assert(s[i] == s.drop_last()[i]);
        }
    }
    assert forall|i: int| place.1 <= i < s.len() implies at.precedes((#[trigger] s[i]).stamp) by {
        if i < s.len() - 1 {
            assert(s[i] == s.drop_last()[i]);
        }
    }
    lemma_filter_head(s, |entry: EntryView| entry.stamp.precedes(at), place.0);
    lemma_filter_tail(s, |entry: EntryView| at.precedes(entry.stamp), place.1);
    place
}

/// Putting an entry into an ascending sequence leaves the sequence ascending.
pub proof fn lemma_inserted_is_ascending(s: Seq<EntryView>, entry: EntryView)
    requires
        ascending(s),
    ensures
        ascending(inserted(s, entry)),
{
    lemma_place(s, entry.stamp);
}

/// After an entry is put into a day, the day holds that entry and, beside it,
/// exactly the entries that it held before for other moments. So putting in is
/// what insertion is to a mapping from moments to texts: the text at the
/// entry's moment is set, and every other moment keeps what it had.
pub proof fn lemma_inserted_contents(s: Seq<EntryView>, entry: EntryView, other: EntryView)
    requires
        ascending(s),
    ensures
        inserted(s, entry).contains(other) <==> other == entry || (s.contains(other)
            && other.stamp != entry.stamp),
{
    let place = lemma_place(s, entry.stamp);
    let r = inserted(s, entry);
    if other == entry {
        assert(r[place.0] == other);
    }
    if s.contains(other) && other.stamp != entry.stamp {
        let i = choose|i: int| 0 <= i < s.len() && s[i] == other;
        if i < place.0 {
            assert(r[i] == other);
        } else {
            assert(r[i - place.1 + place.0 + 1] == other);
        }
    }
}

/// Whatever list of entries a day is collected from, its entries are in
/// ascending order.
pub proof fn lemma_collected_is_ascending(list: Seq<EntryView>)
    ensures
        ascending(collected(list)),
    decreases list.len(),
{
    if list.len() > 0 {
        lemma_collected_is_ascending(list.drop_last());
        lemma_inserted_is_ascending(collected(list.drop_last()), list.last());
    }
}

/// A day collected from the entries of a day is that day again: an ascending
/// list of entries comes back as it is, with every entry, every text and the
/// same order.
pub proof fn lemma_collected_of_ascending(s: Seq<EntryView>)
    requires
        ascending(s),
    ensures
        collected(s) == s,
    decreases s.len(),
{
    if s.len() > 0 {
        let front = s.drop_last();
        let at = s.last().stamp;
        lemma_collected_of_ascending(front);
        lemma_filter_head(front, |entry: EntryView| entry.stamp.precedes(at), front.len() as int);
        lemma_filter_tail(front, |entry: EntryView| at.precedes(entry.stamp), front.len() as int);
    }
}

/// Filtering keeps a leading part: where the first `k` items of `s` satisfy
/// `keep` and no other item does, the items kept are the first `k`.
proof fn lemma_filter_head<A>(s: Seq<A>, keep: spec_fn(A) -> bool, k: int)
    requires
        0 <= k <= s.len(),
        forall|i: int| 0 <= i < k ==> keep(#[trigger] s[i]),
        forall|i: int| k <= i < s.len() ==> !keep(#[trigger] s[i]),
    ensures
        s.filter(keep) == s.take(k),
    decreases s.len(),
{
    reveal(Seq::filter);
    if s.len() > 0 {
        lemma_filter_head(s.drop_last(), keep, if k == s.len() { k - 1 } else { k });
    }
}

/// Filtering keeps a trailing part: where the items of `s` from the `k`-th on
/// satisfy `keep` and no earlier item does, the items kept are those from the
/// `k`-th on.
proof fn lemma_filter_tail<A>(s: Seq<A>, keep: spec_fn(A) -> bool, k: int)
    requires
        0 <= k <= s.len(),
        forall|i: int| 0 <= i < k ==> !keep(#[trigger] s[i]),
        forall|i: int| k <= i < s.len() ==> keep(#[trigger] s[i]),
    ensures
        s.filter(keep) == s.skip(k),
    decreases s.len(),
{
    reveal(Seq::filter);
    if s.len() > 0 {
        lemma_filter_tail(s.drop_last(), keep, if k == s.len() { k - 1 } else { k });
    }
}

} // verus!
