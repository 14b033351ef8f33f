use vstd::prelude::*;

use crate::notification::{record_of, Notification, ParsedCall};

verus! {

/// Most entries the history holds; appending beyond it evicts the oldest.
pub const CAPACITY: usize = 100;

/// Ids of `h` strictly increase from oldest to newest.
pub open spec fn ids_increasing(h: Seq<Notification>) -> bool {
    forall|i: int, j: int| 0 <= i < j < h.len() ==> h[i].id < h[j].id
}

/// Every id of `h` lies below `bound`.
pub open spec fn ids_below(h: Seq<Notification>, bound: int) -> bool {
    forall|i: int| 0 <= i < h.len() ==> h[i].id < bound
}

/// The largest id in `h`, or 0 when `h` is empty.
pub open spec fn max_id(h: Seq<Notification>) -> u64
    decreases h.len(),
{
    if h.len() == 0 {
        0
    } else {
        let rest = max_id(h.drop_last());
        if h.last().id > rest {
            h.last().id
        } else {
            rest
        }
    }
}

/// A decoded snapshot that can serve as a history: within capacity, ids
/// strictly increasing, and room left above its largest id for a next one.
pub open spec fn valid_snapshot(h: Seq<Notification>) -> bool {
    &&& h.len() <= CAPACITY
    &&& ids_increasing(h)
    &&& ids_below(h, u64::MAX as int)
}

/// Holds of the entries whose id is not `id`.
pub open spec fn id_differs(id: u64) -> spec_fn(Notification) -> bool {
    |n: Notification| n.id != id
}

/// What a store holds: its history, oldest first, and the id the next append gets.
pub struct StoreState {
    pub history: Seq<Notification>,
    pub next_id: int,
}

impl StoreState {
    /// The history is bounded and its ids increase, all below the next id to assign.
    pub open spec fn wf(self) -> bool {
        &&& self.history.len() <= CAPACITY
        &&& ids_increasing(self.history)
        &&& ids_below(self.history, self.next_id)
        &&& 1 <= self.next_id <= u64::MAX
    }

    /// Appending `call` observed at `timestamp`: the record gets the next id, and
    /// the oldest entry leaves when the history would exceed its capacity.
    pub open spec fn append(self, call: ParsedCall, timestamp: String) -> StoreState {
        self.append_record(record_of(call, timestamp, self.next_id as u64))
    }

    /// Appending the record `n`, which carries the next id.
    pub open spec fn append_record(self, n: Notification) -> StoreState {
        let grown = self.history.push(n);
        StoreState {
            history: if grown.len() > CAPACITY {
                grown.drop_first()
            } else {
                grown
            },
            next_id: self.next_id + 1,
        }
    }

    /// Removing every entry whose id is `id`.
    pub open spec fn remove(self, id: u64) -> StoreState {
        StoreState { history: self.history.filter(id_differs(id)), ..self }
    }

    /// Emptying the history; the id counter goes on.
    pub open spec fn clear(self) -> StoreState {
        StoreState { history: Seq::empty(), ..self }
    }
}

/// Filtering keeps entries in order, so increasing ids stay increasing.
proof fn lemma_filter_keeps_order(h: Seq<Notification>, pred: spec_fn(Notification) -> bool)
    requires
        ids_increasing(h),
    ensures
        ids_increasing(h.filter(pred)),
        forall|b: int| ids_below(h, b) ==> ids_below(h.filter(pred), b),
        h.filter(pred).len() <= h.len(),
    decreases h.len(),
{
    reveal(Seq::filter);
    if h.len() > 0 {
        lemma_filter_keeps_order(h.drop_last(), pred);
        let rest = h.drop_last().filter(pred);
        assert forall|i: int| 0 <= i < rest.len() implies rest[i].id < h.last().id by {
            assert(ids_below(h.drop_last(), h.last().id as int));
        }
    }
}

/// A filter that every entry passes leaves the sequence as it is.
proof fn lemma_filter_all(h: Seq<Notification>, pred: spec_fn(Notification) -> bool)
    requires
        forall|i: int| 0 <= i < h.len() ==> pred(h[i]),
    ensures
        h.filter(pred) == h,
    decreases h.len(),
{
    reveal(Seq::filter);
    if h.len() > 0 {
        lemma_filter_all(h.drop_last(), pred);
        assert(h.drop_last().push(h.last()) =~= h);
    }
}

/// In a history with increasing ids the largest id is the newest one.
proof fn lemma_max_id_is_last(h: Seq<Notification>)
    requires
        ids_increasing(h),
    ensures
        h.len() > 0 ==> max_id(h) == h.last().id,
        ids_below(h, max_id(h) + 1),
    decreases h.len(),
{
    if h.len() > 0 {
        lemma_max_id_is_last(h.drop_last());
    }
}

/// Restores a decoded snapshot: the history it holds and its largest id when it is
/// valid, and an empty history with 0 otherwise, as on a first run.
pub fn restore_snapshot(decoded: Option<Vec<Notification>>) -> (r: (Vec<Notification>, u64))
    ensures
        decoded is Some && valid_snapshot(decoded->0@) ==> r.0@ == decoded->0@,
        !(decoded is Some && valid_snapshot(decoded->0@)) ==> r.0@.len() == 0,
        r.1 == max_id(r.0@),
        valid_snapshot(r.0@),
{
    match decoded {
        Some(h) => {
            if is_valid_snapshot(&h) {
                let max = largest_id(&h);
                (h, max)
            } else {
                (Vec::new(), 0)
            }
        },
        None => (Vec::new(), 0),
    }
}

/// Whether `h` can serve as a history.
pub fn is_valid_snapshot(h: &Vec<Notification>) -> (r: bool)
    ensures
        r == valid_snapshot(h@),
{
    if h.len() > CAPACITY {
        return false;
    }
    let mut i: usize = 0;
    while i < h.len()
        invariant
            i <= h@.len() <= CAPACITY,
            ids_increasing(h@.subrange(0, i as int)),
            ids_below(h@.subrange(0, i as int), u64::MAX as int),
        decreases h@.len() - i,
    {
        if h[i].id == u64::MAX {
            assert(h@.subrange(0, h@.len() as int)[i as int] == h@[i as int]);
            assert(!ids_below(h@, u64::MAX as int));
            return false;
        }
        if i > 0 && h[i - 1].id >= h[i].id {
            assert(!ids_increasing(h@));
            return false;
        }
        i = i + 1;
        assert(ids_increasing(h@.subrange(0, i as int))) by {
            let p = h@.subrange(0, i as int);
            assert forall|a: int, b: int| 0 <= a < b < p.len() implies p[a].id < p[b].id by {
                if b < i - 1 {
                    assert(h@.subrange(0, i - 1)[a] == p[a]);
                    assert(h@.subrange(0, i - 1)[b] == p[b]);
                } else if a < i - 2 {
                    assert(h@.subrange(0, i - 1)[a] == p[a]);
                    assert(h@.subrange(0, i - 1)[i - 2] == p[i - 2]);
                }
            }
        }
        assert(ids_below(h@.subrange(0, i as int), u64::MAX as int)) by {
            let p = h@.subrange(0, i as int);
            assert forall|a: int| 0 <= a < p.len() implies p[a].id < u64::MAX by {
                if a < i - 1 {
                    assert(h@.subrange(0, i - 1)[a] == p[a]);
                }
            }
        }
    }
    assert(h@.subrange(0, h@.len() as int) =~= h@);
    true
}

/// The largest id in `h`, or 0 when `h` is empty.
pub fn largest_id(h: &Vec<Notification>) -> (r: u64)
    ensures
        r == max_id(h@),
{
    let mut max: u64 = 0;
    let mut i: usize = 0;
    while i < h.len()
        invariant
            i <= h@.len(),
            max == max_id(h@.subrange(0, i as int)),
        decreases h@.len() - i,
    {
        assert(h@.subrange(0, i + 1).drop_last() =~= h@.subrange(0, i as int));
        if h[i].id > max {
            max = h[i].id;
        }
        i = i + 1;
    }
    assert(h@.subrange(0, h@.len() as int) =~= h@);
    max
}

/// The bounded, ID-addressed notification history.
pub struct NotificationsListener {
    notifications: Vec<Notification>,
    next_id: u64,
}

impl View for NotificationsListener {
    type V = StoreState;

    closed spec fn view(&self) -> StoreState {
        StoreState { history: self.notifications@, next_id: self.next_id as int }
    }
}

impl NotificationsListener {
    /// Appends `call` observed at `timestamp` under the next id, evicting the
    /// oldest entry when the history is full, and returns the id it assigned.
    pub fn append(&mut self, call: ParsedCall, timestamp: String) -> (r: u64)
        requires
            old(self)@.wf(),
            old(self)@.next_id < u64::MAX,
        ensures
            r == old(self)@.next_id,
            final(self)@ == old(self)@.append(call, timestamp),
            final(self)@.wf(),
    {
        let id = self.next_id;
        let record = Notification {
            app_name: call.app_name,
            summary: call.summary,
            body: call.body,
            timestamp,
            id,
        };
        let ghost before = self.notifications@;
        self.notifications.push(record);
        if self.notifications.len() > CAPACITY {
            self.notifications.remove(0);
            assert(self.notifications@ =~= before.push(record).drop_first());
        }
        self.next_id = id + 1;
        id
    }

    /// Builds the store from the snapshot decoded at startup: `None` when no
    /// snapshot could be read or decoded. A snapshot that is not a valid history
    /// counts as corrupt and the store starts empty. The next id is one past the
    /// largest restored id.
    pub fn new(decoded: Option<Vec<Notification>>) -> (r: Self)
        ensures
            r@.wf(),
            decoded is Some && valid_snapshot(decoded->0@) ==> r@.history == decoded->0@,
            !(decoded is Some && valid_snapshot(decoded->0@)) ==> r@.history.len() == 0,
            r@.next_id == max_id(r@.history) + 1,
    {
        let (notifications, max) = restore_snapshot(decoded);
        proof {
            lemma_max_id_is_last(notifications@);
        }
        NotificationsListener { notifications, next_id: max + 1 }
    }

    /// The id that the next append assigns.
    pub fn next_id(&self) -> (r: u64)
        ensures
            r == self@.next_id,
    {
        self.next_id
    }

    /// A point-in-time copy of the history, oldest first.
    pub fn get_notifications(&self) -> (r: Vec<Notification>)
        ensures
            r@ == self@.history,
    {
        self.notifications.clone()
    }

    /// Number of entries in the history.
    pub fn get_count(&self) -> (r: usize)
        ensures
            r == self@.history.len(),
    {
        self.notifications.len()
    }

    /// Deletes the entry with id `id`; without such an entry nothing changes.
    pub fn remove_notification(&mut self, id: u64)
        requires
            old(self)@.wf(),
        ensures
            final(self)@ == old(self)@.remove(id),
            final(self)@.wf(),
            (forall|i: int| 0 <= i < old(self)@.history.len() ==> old(self)@.history[i].id != id)
                ==> final(self)@ == old(self)@,
    {
        let ghost h = self.notifications@;
        let mut kept: Vec<Notification> = Vec::new();
        let mut i: usize = 0;
        while i < self.notifications.len()
            invariant
                i <= h.len(),
                self.notifications@ == h,
                kept@ == h.subrange(0, i as int).filter(id_differs(id)),
            decreases h.len() - i,
        {
            proof {
                reveal(Seq::filter);
                let next = h.subrange(0, i + 1);
                assert(next.drop_last() =~= h.subrange(0, i as int));
                assert(next.last() == h[i as int]);
                assert(id_differs(id)(h[i as int]) == (h[i as int].id != id));
            }
            if self.notifications[i].id != id {
                kept.push(self.notifications[i].clone());
            }
            i = i + 1;
        }
        proof {
            assert(h.subrange(0, h.len() as int) =~= h);
            lemma_filter_keeps_order(h, id_differs(id));
            if forall|i: int| 0 <= i < h.len() ==> h[i].id != id {
                lemma_filter_all(h, id_differs(id));
            }
        }
        self.notifications = kept;
    }

    /// Empties the history; ids already assigned are not reused.
    pub fn clear_all(&mut self)
        requires
            old(self)@.wf(),
        ensures
            final(self)@ == old(self)@.clear(),
            final(self)@.wf(),
    {
        self.notifications = Vec::new();
        assert(self@.history =~= Seq::empty());
    }
}

} // verus!

verus! {

/// The state after appending each `(call, timestamp)` of `items` in order.
pub open spec fn append_all(s: StoreState, items: Seq<(ParsedCall, String)>) -> StoreState
    decreases items.len(),
{
    if items.len() == 0 {
        s
    } else {
        append_all(s, items.drop_last()).append(items.last().0, items.last().1)
    }
}

/// The records that appending `items` to `s` creates, in order, each under the
/// id it is assigned.
pub open spec fn new_records(s: StoreState, items: Seq<(ParsedCall, String)>) -> Seq<Notification> {
    Seq::new(items.len(), |k: int| record_of(items[k].0, items[k].1, (s.next_id + k) as u64))
}

/// The newest `CAPACITY` entries of `all`, or all of them when there are fewer.
pub open spec fn newest(all: Seq<Notification>) -> Seq<Notification> {
    if all.len() > CAPACITY {
        all.subrange(all.len() - CAPACITY, all.len() as int)
    } else {
        all
    }
}

/// Appending a sequence keeps the newest `CAPACITY` of the old entries followed
/// by the new records, and advances the id counter once per append.
pub proof fn lemma_append_all(s: StoreState, items: Seq<(ParsedCall, String)>)
    requires
        s.history.len() <= CAPACITY,
    ensures
        append_all(s, items).history == newest(s.history + new_records(s, items)),
        append_all(s, items).next_id == s.next_id + items.len(),
    decreases items.len(),
{
    if items.len() > 0 {
        let front = items.drop_last();
        lemma_append_all(s, front);
        let all = s.history + new_records(s, items);
        let all_front = s.history + new_records(s, front);
        assert(all_front =~= all.drop_last());
        let n = record_of(items.last().0, items.last().1, (s.next_id + front.len()) as u64);
        assert(all.last() == n);
        let before = append_all(s, front).history;
        if all_front.len() >= CAPACITY {
            assert(before.push(n).drop_first() =~= newest(all));
        } else {
            assert(before.push(n) =~= newest(all));
        }
    } else {
        assert(s.history + new_records(s, items) =~= s.history);
    }
}

/// Appending more entries than the capacity leaves exactly `CAPACITY` entries in
/// the history: the last `CAPACITY` appended, in the order they were appended.
pub proof fn lemma_appends_keep_newest(s: StoreState, items: Seq<(ParsedCall, String)>)
    requires
        s.wf(),
        items.len() > CAPACITY,
    ensures
        append_all(s, items).history.len() == CAPACITY,
        append_all(s, items).history == new_records(s, items).subrange(
            items.len() - CAPACITY,
            items.len() as int,
        ),
{
    lemma_append_all(s, items);
    let all = s.history + new_records(s, items);
    assert(all.subrange(all.len() - CAPACITY, all.len() as int) =~= new_records(s, items).subrange(
        items.len() - CAPACITY,
        items.len() as int,
    ));
}

/// The ids that successive appends return strictly increase, and each lies above
/// every id the store held before the first of them, restored ones included.
/// The append at position `k` of `items` returns `append_all(s, items.take(k)).next_id`.
pub proof fn lemma_assigned_ids_increase(
    s: StoreState,
    items: Seq<(ParsedCall, String)>,
    i: int,
    j: int,
)
    requires
        s.wf(),
        0 <= i < j < items.len(),
    ensures
        ids_below(s.history, append_all(s, items.take(i)).next_id),
        append_all(s, items.take(i)).next_id < append_all(s, items.take(j)).next_id,
{
    lemma_append_all(s, items.take(i));
    lemma_append_all(s, items.take(j));
}

/// A store's history is a valid snapshot whose ids all lie below the store's next
/// id: restoring what a store saved gives back that history, and the id counter
/// rebuilt from it never reuses an id.
pub proof fn lemma_saved_history_restores(s: StoreState)
    requires
        s.wf(),
    ensures
        valid_snapshot(s.history),
        max_id(s.history) < s.next_id,
{
    lemma_max_id_is_last(s.history);
    if s.history.len() > 0 {
        assert(s.history.last() == s.history[s.history.len() - 1]);
    }
}

} // verus!
