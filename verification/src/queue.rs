//! Ordered playback queue with a cursor marking the current entry.
//!
//! The queue owns no I/O. Its invariant: the cursor is absent exactly when
//! the queue is empty, and otherwise always indexes an existing entry.

use vstd::prelude::*;

use crate::metadata::StreamMetadata;
use crate::models::DiscoveryItem;

verus! {

/// A single entry in the playback queue.
#[derive(Debug, Clone)]
pub struct QueueItem {
    pub item: DiscoveryItem,
    pub url: String,
    pub stream_metadata: Option<StreamMetadata>,
}

/// Ordered playback queue with a cursor pointing at the current entry.
pub struct Queue {
    items: Vec<QueueItem>,
    current_index: Option<usize>,
}

/// True iff `item` is the live-channel variant carrying channel number `channel`.
pub open spec fn is_live_channel(item: DiscoveryItem, channel: u8) -> bool {
    match item {
        DiscoveryItem::NtsLiveChannel { channel: c, .. } => c == channel,
        _ => false,
    }
}

impl Queue {
    /// Structural invariant of every queue value handed out by this module.
    pub closed spec fn wf(&self) -> bool {
        &&& (self.current_index is None <==> self.items@.len() == 0)
        &&& (match self.current_index {
            Some(i) => (i as int) < self.items@.len(),
            None => true,
        })
    }

    /// The entries, oldest first.
    pub closed spec fn entries(&self) -> Seq<QueueItem> {
        self.items@
    }

    /// The cursor.
    pub closed spec fn cursor(&self) -> Option<usize> {
        self.current_index
    }

    pub fn new() -> (q: Queue)
        ensures
            q.wf(),
            q.entries().len() == 0,
            q.cursor() is None,
    {
        Queue { items: Vec::new(), current_index: None }
    }

    /// Append to the end. The first entry added to an empty queue becomes
    /// current; adding to a non-empty queue never moves the cursor.
    pub fn add(&mut self, item: QueueItem)
        requires
            old(self).wf(),
        ensures
            final(self).wf(),
            final(self).entries() == old(self).entries().push(item),
            final(self).cursor() == (if old(self).entries().len() == 0 {
                Some(0usize)
            } else {
                old(self).cursor()
            }),
            (final(self).entries(), final(self).cursor()) == add_spec(
                old(self).entries(),
                old(self).cursor(),
                item,
            ),
    {
        self.items.push(item);
        if self.current_index.is_none() {
            self.current_index = Some(0);
        }
    }

    /// Insert right after the current position (at position 0 if the queue is
    /// empty). On an empty queue this behaves exactly like `add`.
    pub fn add_next(&mut self, item: QueueItem)
        requires
            old(self).wf(),
        ensures
            final(self).wf(),
            final(self).entries() == (match old(self).cursor() {
                Some(i) => old(self).entries().insert(i + 1, item),
                None => old(self).entries().push(item),
            }),
            final(self).cursor() == (if old(self).entries().len() == 0 {
                Some(0usize)
            } else {
                old(self).cursor()
            }),
            old(self).entries().len() == 0 ==> final(self).entries() == old(self).entries().push(item),
            (final(self).entries(), final(self).cursor()) == add_next_spec(
                old(self).entries(),
                old(self).cursor(),
                item,
            ),
    {
        let n = self.items.len();
        let pos: usize = match self.current_index {
            Some(i) => i + 1,
            None => 0,
        };
        proof {
            assert(old(self).entries().insert(old(self).entries().len() as int, item)
                =~= old(self).entries().push(item));
        }
        self.items.insert(pos, item);
        if self.current_index.is_none() {
            self.current_index = Some(0);
        }
    }

    /// Remove the entry at `index`; out-of-range indices are ignored. When the
    /// removed entry sits at or before a nonzero cursor, the cursor moves down
    /// by one so that it keeps pointing at the same surviving entry where
    /// possible; removing the last remaining entry clears the cursor.
    pub fn remove(&mut self, index: usize)
        requires
            old(self).wf(),
        ensures
            final(self).wf(),
            (index as int) >= old(self).entries().len() ==> *final(self) == *old(self),
            (index as int) < old(self).entries().len() ==> {
                &&& final(self).entries() == old(self).entries().remove(index as int)
                &&& final(self).cursor() == (if old(self).entries().len() == 1 {
                    None::<usize>
                } else {
                    match old(self).cursor() {
                        Some(curr) => (if index <= curr && curr > 0 {
                            Some((curr - 1) as usize)
                        } else {
                            Some(curr)
                        }),
                        None => None::<usize>,
                    }
                })
            },
    {
        if index < self.items.len() {
            self.items.remove(index);
            if self.items.is_empty() {
                self.current_index = None;
            } else if let Some(curr) = self.current_index {
                if index <= curr && curr > 0 {
                    self.current_index = Some(curr - 1);
                }
            }
        }
    }

    /// Empty the queue and clear the cursor.
    pub fn clear(&mut self)
        ensures
            final(self).wf(),
            final(self).entries().len() == 0,
            final(self).cursor() is None,
    {
        self.items.clear();
        self.current_index = None;
    }

    /// The entry under the cursor, or nothing if the queue is empty.
    pub fn current(&self) -> (r: Option<&QueueItem>)
        requires
            self.wf(),
        ensures
            (match self.cursor() {
                Some(i) => r matches Some(it) && *it == self.entries()[i as int],
                None => r is None,
            }),
    {
        match self.current_index {
            Some(i) => Some(&self.items[i]),
            None => None,
        }
    }

    /// Move the cursor forward by one and return the newly current entry, or
    /// return nothing (cursor untouched) when already at the end.
    pub fn advance(&mut self) -> (r: Option<&QueueItem>)
        requires
            old(self).wf(),
        ensures
            final(self).wf(),
            final(self).entries() == old(self).entries(),
            (match old(self).cursor() {
                Some(i) => (if (i as int) + 1 < old(self).entries().len() {
                    &&& final(self).cursor() == Some((i + 1) as usize)
                    &&& r matches Some(it) && *it == old(self).entries()[i as int + 1]
                } else {
                    &&& final(self).cursor() == old(self).cursor()
                    &&& r is None
                }),
                None => final(self).cursor() is None && r is None,
            }),
    {
        let n = self.items.len();
        if let Some(i) = self.current_index {
            if i + 1 < n {
                self.current_index = Some(i + 1);
                return Some(&self.items[i + 1]);
            }
        }
        None
    }

    /// Move the cursor back by one and return the newly current entry, or
    /// return nothing (cursor untouched) when already at the start.
    pub fn prev(&mut self) -> (r: Option<&QueueItem>)
        requires
            old(self).wf(),
        ensures
            final(self).wf(),
            final(self).entries() == old(self).entries(),
            (match old(self).cursor() {
                Some(i) => (if i > 0 {
                    &&& final(self).cursor() == Some((i - 1) as usize)
                    &&& r matches Some(it) && *it == old(self).entries()[i as int - 1]
                } else {
                    &&& final(self).cursor() == old(self).cursor()
                    &&& r is None
                }),
                None => final(self).cursor() is None && r is None,
            }),
    {
        if let Some(i) = self.current_index {
            if i > 0 {
                self.current_index = Some(i - 1);
                return Some(&self.items[i - 1]);
            }
        }
        None
    }

    /// All entries, oldest first.
    pub fn items(&self) -> (r: &[QueueItem])
        ensures
            r@ == self.entries(),
    {
        self.items.as_slice()
    }

    pub fn is_empty(&self) -> (r: bool)
        ensures
            r == (self.entries().len() == 0),
    {
        self.items.is_empty()
    }

    pub fn len(&self) -> (r: usize)
        ensures
            r == self.entries().len(),
    {
        self.items.len()
    }

    pub fn current_index(&self) -> (r: Option<usize>)
        ensures
            r == self.cursor(),
    {
        self.current_index
    }

    /// Jump the cursor to `index` and return that entry; out-of-range indices
    /// change nothing and return nothing.
    pub fn play_at(&mut self, index: usize) -> (r: Option<&QueueItem>)
        requires
            old(self).wf(),
        ensures
            final(self).wf(),
            final(self).entries() == old(self).entries(),
            (index as int) < old(self).entries().len() ==> {
                &&& final(self).cursor() == Some(index)
                &&& r matches Some(it) && *it == old(self).entries()[index as int]
            },
            (index as int) >= old(self).entries().len() ==> *final(self) == *old(self) && r is None,
    {
        if index < self.items.len() {
            self.current_index = Some(index);
            Some(&self.items[index])
        } else {
            None
        }
    }

    /// Index of the first entry holding the live channel numbered `channel`,
    /// or nothing if no entry does. Callers use this to keep at most one
    /// entry per live channel in the queue.
    pub fn find_live_channel(&self, channel: u8) -> (r: Option<usize>)
        ensures
            (match r {
                Some(i) => {
                    &&& (i as int) < self.entries().len()
                    &&& is_live_channel(self.entries()[i as int].item, channel)
                    &&& forall|j: int|
                        0 <= j < i ==> !is_live_channel(self.entries()[j].item, channel)
                },
                None => forall|j: int|
                    0 <= j < self.entries().len() ==> !is_live_channel(
                        self.entries()[j].item,
                        channel,
                    ),
            }),
    {
        let n = self.items.len();
        let mut k: usize = 0;
        while k < n
            invariant
                n == self.entries().len(),
                k <= n,
                forall|j: int| 0 <= j < k ==> !is_live_channel(self.entries()[j].item, channel),
            decreases n - k,
        {
            match &self.items[k].item {
                DiscoveryItem::NtsLiveChannel { channel: c, .. } => {
                    if *c == channel {
                        return Some(k);
                    }
                },
                _ => {},
            }
            k += 1;
        }
        None
    }

    /// Replace the metadata attached to the entry under the cursor; no-op on
    /// an empty queue.
    pub fn set_current_stream_metadata(&mut self, metadata: StreamMetadata)
        requires
            old(self).wf(),
        ensures
            final(self).wf(),
            final(self).cursor() == old(self).cursor(),
            (match old(self).cursor() {
                Some(i) => final(self).entries() == old(self).entries().update(
                    i as int,
                    (QueueItem { stream_metadata: Some(metadata), ..old(self).entries()[i as int] }),
                ),
                None => final(self).entries() == old(self).entries(),
            }),
    {
        if let Some(i) = self.current_index {
            let entry = &mut self.items[i];
            entry.stream_metadata = Some(metadata);
        }
    }
}

impl Default for Queue {
    /// An empty queue, exactly as `new` builds it.
    fn default() -> (q: Queue)
        ensures
            q.wf(),
            q.entries().len() == 0,
            q.cursor() is None,
    {
        Queue { items: Vec::new(), current_index: None }
    }
}

/// Show name of a live-channel item (empty for any other variant).
pub open spec fn live_show_name(item: DiscoveryItem) -> Seq<char> {
    match item {
        DiscoveryItem::NtsLiveChannel { show_name, .. } => show_name@,
        _ => Seq::empty(),
    }
}

/// Genre list of a live-channel item (empty for any other variant).
pub open spec fn live_genres(item: DiscoveryItem) -> Seq<Seq<char>> {
    match item {
        DiscoveryItem::NtsLiveChannel { genres, .. } => genres.deep_view(),
        _ => Seq::empty(),
    }
}

/// One step of the refresh pass over a queue entry's display fields: a fresh
/// live-channel record with the matching channel number and different fields
/// overwrites them; anything else leaves the state alone. The state is
/// (show name, genre list, whether anything was overwritten yet).
pub open spec fn live_fold_step(
    st: (Seq<char>, Seq<Seq<char>>, bool),
    fresh: DiscoveryItem,
    c: u8,
) -> (Seq<char>, Seq<Seq<char>>, bool) {
    match fresh {
        DiscoveryItem::NtsLiveChannel { channel, show_name, genres, .. } => {
            if channel == c && !(show_name@ == st.0 && genres.deep_view() == st.1) {
                (show_name@, genres.deep_view(), true)
            } else {
                st
            }
        },
        _ => st,
    }
}

/// The refresh pass folded over a whole list of fresh records, front to back.
pub open spec fn live_fold(
    st: (Seq<char>, Seq<Seq<char>>, bool),
    live: Seq<DiscoveryItem>,
    c: u8,
) -> (Seq<char>, Seq<Seq<char>>, bool)
    decreases live.len(),
{
    if live.len() == 0 {
        st
    } else {
        live_fold(live_fold_step(st, live[0], c), live.drop_first(), c)
    }
}

/// Peeling the last fresh record off the fold.
pub proof fn lemma_live_fold_snoc(
    st: (Seq<char>, Seq<Seq<char>>, bool),
    live: Seq<DiscoveryItem>,
    x: DiscoveryItem,
    c: u8,
)
    ensures
        live_fold(st, live.push(x), c) == live_fold_step(live_fold(st, live, c), x, c),
    decreases live.len(),
{
    if live.len() == 0 {
        assert(live.push(x)[0] == x);
        assert(live.push(x).drop_first() =~= Seq::<DiscoveryItem>::empty());
        assert(live_fold(live_fold_step(st, x, c), Seq::<DiscoveryItem>::empty(), c)
            == live_fold_step(st, x, c));
        assert(live_fold(st, live, c) == st);
    } else {
        assert(live.push(x)[0] == live[0]);
        assert(live.push(x).drop_first() =~= live.drop_first().push(x));
        lemma_live_fold_snoc(live_fold_step(st, live[0], c), live.drop_first(), x, c);
    }
}

/// The fold never clears the changed flag.
pub proof fn lemma_live_fold_keeps_flag(
    st: (Seq<char>, Seq<Seq<char>>, bool),
    live: Seq<DiscoveryItem>,
    c: u8,
)
    requires
        st.2,
    ensures
        live_fold(st, live, c).2,
    decreases live.len(),
{
    if live.len() > 0 {
        lemma_live_fold_keeps_flag(live_fold_step(st, live[0], c), live.drop_first(), c);
    }
}

/// A fold that reports no change leaves the state exactly as it found it.
pub proof fn lemma_live_fold_false_id(
    st: (Seq<char>, Seq<Seq<char>>, bool),
    live: Seq<DiscoveryItem>,
    c: u8,
)
    requires
        !live_fold(st, live, c).2,
    ensures
        live_fold(st, live, c) == st,
    decreases live.len(),
{
    if live.len() > 0 {
        let st1 = live_fold_step(st, live[0], c);
        if st1 != st {
            assert(st1.2);
            lemma_live_fold_keeps_flag(st1, live.drop_first(), c);
            assert(false);
        }
        lemma_live_fold_false_id(st1, live.drop_first(), c);
    }
}

/// What the refresh pass does to the display fields of one queue entry.
pub open spec fn entry_refresh(old_qi: QueueItem, live: Seq<DiscoveryItem>) -> (
    Seq<char>,
    Seq<Seq<char>>,
    bool,
) {
    match old_qi.item {
        DiscoveryItem::NtsLiveChannel { channel, show_name, genres, .. } => live_fold(
            (show_name@, genres.deep_view(), false),
            live,
            channel,
        ),
        _ => (Seq::empty(), Seq::empty(), false),
    }
}

/// True iff the refresh pass rewrites this entry at all.
pub open spec fn entry_stale(old_qi: QueueItem, live: Seq<DiscoveryItem>) -> bool {
    match old_qi.item {
        DiscoveryItem::NtsLiveChannel { .. } => entry_refresh(old_qi, live).2,
        _ => false,
    }
}

/// How a queue entry after the refresh pass relates to the entry before it:
/// a live-channel entry keeps its channel, broadcast title, timestamps, url
/// and attached metadata, and carries the folded show name and genres; any
/// other entry is untouched.
pub open spec fn entry_updated(
    old_qi: QueueItem,
    new_qi: QueueItem,
    live: Seq<DiscoveryItem>,
) -> bool {
    match old_qi.item {
        DiscoveryItem::NtsLiveChannel { channel, show_name, broadcast_title, genres, start, end } => {
            let f = live_fold((show_name@, genres.deep_view(), false), live, channel);
            match new_qi.item {
                DiscoveryItem::NtsLiveChannel {
                    channel: c2,
                    show_name: n2,
                    broadcast_title: b2,
                    genres: g2,
                    start: s2,
                    end: e2,
                } => {
                    &&& c2 == channel
                    &&& b2 == broadcast_title
                    &&& s2 == start
                    &&& e2 == end
                    &&& n2@ == f.0
                    &&& g2.deep_view() == f.1
                    &&& new_qi.url == old_qi.url
                    &&& new_qi.stream_metadata == old_qi.stream_metadata
                },
                _ => false,
            }
        },
        _ => new_qi == old_qi,
    }
}


/// The entries and cursor after one `add`: the item is appended, and the
/// cursor moves to the front only when the queue was empty.
pub open spec fn add_spec(
    entries: Seq<QueueItem>,
    cursor: Option<usize>,
    item: QueueItem,
) -> (Seq<QueueItem>, Option<usize>) {
    (entries.push(item), if entries.len() == 0 {
        Some(0usize)
    } else {
        cursor
    })
}

/// The entries and cursor after one `add_next`: the item goes right after
/// the cursor (to the front of an empty queue), which itself moves only
/// when the queue was empty.
pub open spec fn add_next_spec(
    entries: Seq<QueueItem>,
    cursor: Option<usize>,
    item: QueueItem,
) -> (Seq<QueueItem>, Option<usize>) {
    (
        match cursor {
            Some(i) => entries.insert(i + 1, item),
            None => entries.push(item),
        },
        if entries.len() == 0 {
            Some(0usize)
        } else {
            cursor
        },
    )
}

/// The entries and cursor after a whole sequence of `add` calls, front to
/// back.
pub open spec fn add_all_spec(
    entries: Seq<QueueItem>,
    cursor: Option<usize>,
    items: Seq<QueueItem>,
) -> (Seq<QueueItem>, Option<usize>)
    decreases items.len(),
{
    if items.len() == 0 {
        (entries, cursor)
    } else {
        let next = add_spec(entries, cursor, items[0]);
        add_all_spec(next.0, next.1, items.drop_first())
    }
}

/// Appends into a non-empty queue only append: the cursor never moves.
pub proof fn lemma_adds_keep_cursor(
    entries: Seq<QueueItem>,
    cursor: Option<usize>,
    items: Seq<QueueItem>,
)
    requires
        entries.len() > 0,
    ensures
        add_all_spec(entries, cursor, items) == (entries + items, cursor),
    decreases items.len(),
{
    if items.len() == 0 {
        assert(entries + items =~= entries);
    } else {
        lemma_adds_keep_cursor(entries.push(items[0]), cursor, items.drop_first());
        assert(entries.push(items[0]) + items.drop_first() =~= entries + items);
    }
}

/// Law: over any sequence of `add` calls on an initially empty queue, the
/// first `add` sets the cursor to the first entry and every later `add`
/// leaves it there, so the queue ends holding exactly the added items with
/// the cursor still on the first.
pub proof fn lemma_adds_on_empty_pin_cursor(items: Seq<QueueItem>)
    requires
        items.len() > 0,
    ensures
        add_all_spec(Seq::empty(), None::<usize>, items) == (items, Some(0usize)),
{
    assert(Seq::<QueueItem>::empty().push(items[0]) =~= seq![items[0]]);
    lemma_adds_keep_cursor(seq![items[0]], Some(0usize), items.drop_first());
    assert(seq![items[0]] + items.drop_first() =~= items);
}

/// Law: on an empty queue, `add_next` performs exactly the transition that
/// `add` performs.
pub proof fn lemma_add_next_empty_is_add(
    entries: Seq<QueueItem>,
    cursor: Option<usize>,
    item: QueueItem,
)
    requires
        entries.len() == 0,
        cursor is None,
    ensures
        add_next_spec(entries, cursor, item) == add_spec(entries, cursor, item),
{
}

impl Queue {
    /// Overwrite the display fields (show name, genre tags) of every
    /// live-channel entry from the matching record of the freshly fetched
    /// list, matched by channel number; everything else is untouched. Returns
    /// whether anything was actually changed.
    pub fn update_live_channels(&mut self, live: &Vec<DiscoveryItem>) -> (changed: bool)
        requires
            old(self).wf(),
        ensures
            final(self).wf(),
            final(self).cursor() == old(self).cursor(),
            final(self).entries().len() == old(self).entries().len(),
            forall|i: int|
                0 <= i < old(self).entries().len() ==> entry_updated(
                    old(self).entries()[i],
                    #[trigger] final(self).entries()[i],
                    live@,
                ),
            forall|i: int|
                0 <= i < old(self).entries().len() && !entry_stale(
                    #[trigger] old(self).entries()[i],
                    live@,
                ) ==> final(self).entries()[i] == old(self).entries()[i],
            changed == (exists|i: int|
                0 <= i < old(self).entries().len() && entry_stale(
                    #[trigger] old(self).entries()[i],
                    live@,
                )),
    {
        let mut changed = false;
        let n = self.items.len();
        let m = live.len();
        let mut k: usize = 0;
        while k < n
            invariant
                k <= n,
                m == live@.len(),
                n == old(self).entries().len(),
                self.items@.len() == n,
                self.current_index == old(self).cursor(),
                forall|i: int| k <= i < n ==> self.items@[i] == old(self).entries()[i],
                forall|i: int|
                    0 <= i < k ==> entry_updated(
                        old(self).entries()[i],
                        #[trigger] self.items@[i],
                        live@,
                    ),
                forall|i: int|
                    0 <= i < k && !entry_stale(#[trigger] old(self).entries()[i], live@)
                        ==> self.items@[i] == old(self).entries()[i],
                changed == (exists|i: int|
                    0 <= i < k && entry_stale(#[trigger] old(self).entries()[i], live@)),
            decreases n - k,
        {
            let (is_live, c, mut cur_name, mut cur_genres) = match &self.items[k].item {
                DiscoveryItem::NtsLiveChannel { channel, show_name, genres, .. } => (
                    true,
                    *channel,
                    show_name.clone(),
                    crate::text::clone_strings(genres),
                ),
                _ => (false, 0u8, String::new(), Vec::new()),
            };
            if is_live {
                let ghost base_n = cur_name@;
                let ghost base_g = cur_genres.deep_view();
                proof {
                    assert(base_g =~= live_genres(old(self).entries()[k as int].item));
                }
                let mut item_changed = false;
                let mut j: usize = 0;
                while j < m
                    invariant
                        j <= m,
                        m == live@.len(),
                        (cur_name@, cur_genres.deep_view(), item_changed) == live_fold(
                            (base_n, base_g, false),
                            live@.take(j as int),
                            c,
                        ),
                    decreases m - j,
                {
                    proof {
                        assert(live@.take(j as int + 1) =~= live@.take(j as int).push(
                            live@[j as int],
                        ));
                        lemma_live_fold_snoc((base_n, base_g, false), live@.take(j as int),
                            live@[j as int], c);
                    }
                    match &live[j] {
                        DiscoveryItem::NtsLiveChannel { channel: ch, show_name: nn, genres: gg, .. } => {
                            if *ch == c {
                                let same = cur_name.eq(nn) && crate::text::string_vec_eq(
                                    &cur_genres,
                                    gg,
                                );
                                if !same {
                                    cur_name = nn.clone();
                                    cur_genres = crate::text::clone_strings(gg);
                                    item_changed = true;
                                    proof {
                                        assert(cur_genres.deep_view() =~= gg.deep_view());
                                    }
                                }
                            }
                        },
                        _ => {},
                    }
                    j += 1;
                }
                proof {
                    assert(live@.take(m as int) =~= live@);
                    if !item_changed {
                        lemma_live_fold_false_id((base_n, base_g, false), live@, c);
                    }
                }
                if item_changed {
                    let qi = &mut self.items[k];
                    match &mut qi.item {
                        DiscoveryItem::NtsLiveChannel { show_name, genres, .. } => {
                            *show_name = cur_name;
                            *genres = cur_genres;
                        },
                        _ => {
                            proof {
                                assert(false);
                            }
                        },
                    }
                    changed = true;
                }
            }
            k += 1;
        }
        changed
    }
}

impl Queue {
    /// Overwrite the display fields of the single entry at `index` from one
    /// fresh record, exactly as `update_live_channels` would with a one-entry
    /// list; out-of-range indices change nothing.
    pub fn update_live_channel_at(&mut self, index: usize, fresh: &DiscoveryItem)
        requires
            old(self).wf(),
        ensures
            final(self).wf(),
            final(self).cursor() == old(self).cursor(),
            final(self).entries().len() == old(self).entries().len(),
            forall|i: int|
                0 <= i < old(self).entries().len() && i != index ==> final(self).entries()[i]
                    == old(self).entries()[i],
            (index as int) < old(self).entries().len() ==> entry_updated(
                old(self).entries()[index as int],
                final(self).entries()[index as int],
                seq![*fresh],
            ),
            (index as int) >= old(self).entries().len() ==> *final(self) == *old(self),
    {
        proof {
            assert(seq![*fresh].drop_first() =~= Seq::<DiscoveryItem>::empty());
            assert(seq![*fresh][0] == *fresh);
            assert(live_fold(
                live_fold_step((live_show_name(old(self).entries()[index as int].item),
                    live_genres(old(self).entries()[index as int].item), false), *fresh,
                    0u8),
                Seq::<DiscoveryItem>::empty(), 0u8)
                == live_fold_step((live_show_name(old(self).entries()[index as int].item),
                    live_genres(old(self).entries()[index as int].item), false), *fresh,
                    0u8));
        }
        let n = self.items.len();
        if index >= n {
            return ;
        }
        let (is_live, c, differs) = match &self.items[index].item {
            DiscoveryItem::NtsLiveChannel { channel, show_name, genres, .. } => {
                match fresh {
                    DiscoveryItem::NtsLiveChannel {
                        channel: cf,
                        show_name: nf,
                        genres: gf,
                        ..
                    } => {
                        if *cf == *channel {
                            (
                                true,
                                *channel,
                                !(show_name.eq(nf) && crate::text::string_vec_eq(genres, gf)),
                            )
                        } else {
                            (true, *channel, false)
                        }
                    },
                    _ => (true, *channel, false),
                }
            },
            _ => (false, 0u8, false),
        };
        proof {
            let st0 = (live_show_name(old(self).entries()[index as int].item), live_genres(
                old(self).entries()[index as int].item,
            ), false);
            assert(live_fold(live_fold_step(st0, *fresh, c), Seq::<DiscoveryItem>::empty(), c)
                == live_fold_step(st0, *fresh, c));
        }
        if !is_live {
            return ;
        }
        if differs {
            let (new_name, new_genres) = match fresh {
                DiscoveryItem::NtsLiveChannel { show_name: nf, genres: gf, .. } => (
                    nf.clone(),
                    crate::text::clone_strings(gf),
                ),
                _ => (String::new(), Vec::new()),
            };
            proof {
                assert(new_genres.deep_view() =~= live_genres(*fresh));
            }
            let qi = &mut self.items[index];
            match &mut qi.item {
                DiscoveryItem::NtsLiveChannel { show_name, genres, .. } => {
                    *show_name = new_name;
                    *genres = new_genres;
                },
                _ => {
                    proof {
                        assert(false);
                    }
                },
            }
        }
    }
}

/// Law: under the deduplication invariant that the callers keep through
/// `find_live_channel` — at most one queue entry per live channel number —
/// the first matching index is the index of every matching entry, so
/// `find_live_channel` reports the unique index of that channel's entry.
pub proof fn lemma_find_live_channel_unique(entries: Seq<QueueItem>, channel: u8, i: int, j: int)
    requires
        0 <= i < entries.len(),
        is_live_channel(entries[i].item, channel),
        forall|l: int| 0 <= l < i ==> !is_live_channel(#[trigger] entries[l].item, channel),
        0 <= j < entries.len(),
        is_live_channel(entries[j].item, channel),
        forall|a: int, b: int|
            0 <= a < b < entries.len() && is_live_channel(#[trigger] entries[a].item, channel)
                ==> !is_live_channel(#[trigger] entries[b].item, channel),
    ensures
        i == j,
{
    if j < i {
        assert(!is_live_channel(entries[j].item, channel));
    }
    if i < j {
        assert(!is_live_channel(entries[j].item, channel));
    }
}

/// Law: a fresh list holding no record for this channel number leaves the
/// display fields of the entry alone.
pub proof fn lemma_live_fold_no_match(
    st: (Seq<char>, Seq<Seq<char>>, bool),
    live: Seq<DiscoveryItem>,
    c: u8,
)
    requires
        forall|l: int| 0 <= l < live.len() ==> !is_live_channel(#[trigger] live[l], c),
    ensures
        live_fold(st, live, c) == st,
    decreases live.len(),
{
    if live.len() > 0 {
        assert(!is_live_channel(live[0], c));
        assert(live_fold_step(st, live[0], c) == st);
        assert(forall|l: int|
            0 <= l < live.drop_first().len() ==> !is_live_channel(
                #[trigger] live.drop_first()[l],
                c,
            ));
        lemma_live_fold_no_match(st, live.drop_first(), c);
    }
}

/// Law: with exactly one fresh record for this channel number, the refresh
/// fold rewrites the entry's show name and genres to that record's fields
/// when they differ, and reports a change exactly then; when they are equal
/// it leaves the entry untouched and reports no change.
pub proof fn lemma_live_fold_unique_match(
    st: (Seq<char>, Seq<Seq<char>>, bool),
    live: Seq<DiscoveryItem>,
    c: u8,
    j: int,
)
    requires
        !st.2,
        0 <= j < live.len(),
        is_live_channel(live[j], c),
        forall|l: int|
            0 <= l < live.len() && l != j ==> !is_live_channel(#[trigger] live[l], c),
    ensures
        live_show_name(live[j]) == st.0 && live_genres(live[j]) == st.1 ==> live_fold(
            st,
            live,
            c,
        ) == st,
        !(live_show_name(live[j]) == st.0 && live_genres(live[j]) == st.1) ==> live_fold(
            st,
            live,
            c,
        ) == (live_show_name(live[j]), live_genres(live[j]), true),
    decreases live.len(),
{
    if j == 0 {
        let st1 = live_fold_step(st, live[0], c);
        assert(forall|l: int|
            0 <= l < live.drop_first().len() ==> !is_live_channel(
                #[trigger] live.drop_first()[l],
                c,
            ));
        lemma_live_fold_no_match(st1, live.drop_first(), c);
    } else {
        assert(!is_live_channel(live[0], c));
        assert(live_fold_step(st, live[0], c) == st);
        assert(live.drop_first()[j - 1] == live[j]);
        assert(forall|l: int|
            0 <= l < live.drop_first().len() && l != j - 1 ==> !is_live_channel(
                #[trigger] live.drop_first()[l],
                c,
            ));
        lemma_live_fold_unique_match(st, live.drop_first(), c, j - 1);
    }
}

/// Law: a live-channel entry whose channel has exactly one record in the
/// fresh list takes that record's show name and genres when they differ
/// from its own and keeps its own when they are equal; and the refresh
/// counts it as changed exactly in the first case.
pub proof fn lemma_refresh_with_unique_match(
    old_qi: QueueItem,
    new_qi: QueueItem,
    live: Seq<DiscoveryItem>,
    c: u8,
    j: int,
)
    requires
        is_live_channel(old_qi.item, c),
        entry_updated(old_qi, new_qi, live),
        0 <= j < live.len(),
        is_live_channel(live[j], c),
        forall|l: int| 0 <= l < live.len() && l != j ==> !is_live_channel(#[trigger] live[l], c),
    ensures
        live_show_name(live[j]) == live_show_name(old_qi.item) && live_genres(live[j])
            == live_genres(old_qi.item) ==> {
            &&& live_show_name(new_qi.item) == live_show_name(old_qi.item)
            &&& live_genres(new_qi.item) == live_genres(old_qi.item)
            &&& !entry_stale(old_qi, live)
        },
        !(live_show_name(live[j]) == live_show_name(old_qi.item) && live_genres(live[j])
            == live_genres(old_qi.item)) ==> {
            &&& live_show_name(new_qi.item) == live_show_name(live[j])
            &&& live_genres(new_qi.item) == live_genres(live[j])
            &&& entry_stale(old_qi, live)
        },
{
    match old_qi.item {
        DiscoveryItem::NtsLiveChannel { channel, show_name, genres, .. } => {
            lemma_live_fold_unique_match((show_name@, genres.deep_view(), false), live, c, j);
        },
        _ => {},
    }
}

/// Law: a live-channel entry whose channel has no record in the fresh list
/// is not counted as changed, so the refresh pass leaves it untouched.
pub proof fn lemma_refresh_without_match(old_qi: QueueItem, live: Seq<DiscoveryItem>, c: u8)
    requires
        is_live_channel(old_qi.item, c),
        forall|l: int| 0 <= l < live.len() ==> !is_live_channel(#[trigger] live[l], c),
    ensures
        !entry_stale(old_qi, live),
{
    match old_qi.item {
        DiscoveryItem::NtsLiveChannel { channel, show_name, genres, .. } => {
            lemma_live_fold_no_match((show_name@, genres.deep_view(), false), live, c);
        },
        _ => {},
    }
}

} // verus!
