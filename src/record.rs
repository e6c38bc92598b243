//! Event records, the order of a feed, and which records a tick removes.
use vstd::prelude::*;

verus! {

/// What a stored record holds, as mathematical values.
pub struct EventEntry {
    pub payload: Seq<u8>,
    pub inserted_at: u64,
}

/// One stored record: an opaque payload and the time (Unix seconds) at which
/// it was appended.
#[derive(Debug, Clone, PartialEq, Eq)]
pub struct EventInfo {
    data: Vec<u8>,
    inserted_at: u64,
}

impl View for EventInfo {
    type V = EventEntry;

    closed spec fn view(&self) -> EventEntry {
        EventEntry { payload: self.data@, inserted_at: self.inserted_at }
    }
}

impl EventInfo {
    pub fn new(data: Vec<u8>, inserted_at: u64) -> (r: EventInfo)
        ensures
            r@ == (EventEntry { payload: data@, inserted_at }),
    {
        EventInfo { data, inserted_at }
    }

    pub fn data(&self) -> (r: &Vec<u8>)
        ensures
            r@ == self@.payload,
    {
        &self.data
    }

    pub fn inserted_at(&self) -> (r: u64)
        ensures
            r == self@.inserted_at,
    {
        self.inserted_at
    }

    /// Whether the record's retention window has elapsed at `now`.
    pub fn is_expired_at(&self, now: u64, period: u64) -> (r: bool)
        ensures
            r == is_expired(self@, now, period),
    {
        now > self.inserted_at && now - self.inserted_at > period
    }
}

/// A record expires once `now` lies strictly past `inserted_at + period`.
pub open spec fn is_expired(e: EventEntry, now: u64, period: u64) -> bool {
    now > e.inserted_at + period
}

/// Insertion times never decrease from front to back.
pub open spec fn is_ordered(s: Seq<EventEntry>) -> bool {
    forall|i: int, j: int|
        0 <= i <= j < s.len() ==> #[trigger] s[i].inserted_at <= #[trigger] s[j].inserted_at
}

/// Appending a record stamped `now` keeps the feed ordered.
pub open spec fn admits_time(s: Seq<EventEntry>, now: u64) -> bool {
    s.len() == 0 || s.last().inserted_at <= now
}

/// The number of leading records that have expired at `now`.
pub open spec fn front_expired_run(s: Seq<EventEntry>, now: u64, period: u64) -> nat
    decreases s.len(),
{
    if s.len() > 0 && is_expired(s[0], now, period) {
        1 + front_expired_run(s.drop_first(), now, period)
    } else {
        0
    }
}

/// The feed after a tick at `now`: the leading run of expired records is gone.
pub open spec fn pruned(s: Seq<EventEntry>, now: u64, period: u64) -> Seq<EventEntry> {
    s.skip(front_expired_run(s, now, period) as int)
}

/// The run of expired records is a prefix: every record in it has expired,
/// and the record right after it, if any, has not.
pub proof fn lemma_front_expired_run(s: Seq<EventEntry>, now: u64, period: u64)
    ensures
        front_expired_run(s, now, period) <= s.len(),
        forall|i: int|
            0 <= i < front_expired_run(s, now, period) ==> is_expired(#[trigger] s[i], now, period),
        front_expired_run(s, now, period) < s.len() ==> !is_expired(
            s[front_expired_run(s, now, period) as int],
            now,
            period,
        ),
    decreases s.len(),
{
    if s.len() > 0 && is_expired(s[0], now, period) {
        let t = s.drop_first();
        lemma_front_expired_run(t, now, period);
        assert forall|i: int| 0 <= i < front_expired_run(s, now, period) implies is_expired(
            #[trigger] s[i],
            now,
            period,
        ) by {
            if i > 0 {
                assert(s[i] == t[i - 1]);
            }
        }
    }
}

/// Removing one expired front record leaves the same result of a tick.
pub proof fn lemma_pruned_drop_first(s: Seq<EventEntry>, now: u64, period: u64)
    requires
        s.len() > 0,
        is_expired(s[0], now, period),
    ensures
        pruned(s.drop_first(), now, period) == pruned(s, now, period),
{
    let t = s.drop_first();
    let k = front_expired_run(t, now, period);
    lemma_front_expired_run(t, now, period);
    assert(t.skip(k as int) =~= s.skip(k + 1 as int));
}

/// A feed whose front record has not expired is left as it is by a tick.
pub proof fn lemma_pruned_fresh_front(s: Seq<EventEntry>, now: u64, period: u64)
    requires
        s.len() == 0 || !is_expired(s[0], now, period),
    ensures
        pruned(s, now, period) == s,
{
    assert(s.skip(0) =~= s);
}

/// Writes keep the feed ordered: appending a record whose time is not
/// earlier than the newest record's leaves insertion times non-decreasing.
pub proof fn lemma_write_keeps_order(s: Seq<EventEntry>, e: EventEntry)
    requires
        is_ordered(s),
        admits_time(s, e.inserted_at),
    ensures
        is_ordered(s.push(e)),
{
    let t = s.push(e);
    assert forall|i: int, j: int| 0 <= i <= j < t.len() implies #[trigger] t[i].inserted_at
        <= #[trigger] t[j].inserted_at by {
        if j == s.len() {
            if i < j {
                assert(s[i].inserted_at <= s[s.len() - 1].inserted_at);
            }
        } else {
            assert(s[i].inserted_at <= s[j].inserted_at);
        }
    }
}

/// Ticks keep the feed ordered: removing the expired front run leaves
/// insertion times non-decreasing.
pub proof fn lemma_tick_keeps_order(s: Seq<EventEntry>, now: u64, period: u64)
    requires
        is_ordered(s),
    ensures
        is_ordered(pruned(s, now, period)),
{
    let k = front_expired_run(s, now, period) as int;
    lemma_front_expired_run(s, now, period);
    let t = pruned(s, now, period);
    assert forall|i: int, j: int| 0 <= i <= j < t.len() implies #[trigger] t[i].inserted_at
        <= #[trigger] t[j].inserted_at by {
        assert(t[i] == s[i + k] && t[j] == s[j + k]);
        assert(s[i + k].inserted_at <= s[j + k].inserted_at);
    }
}

/// In an ordered feed, a record stamped `t` survives a tick at
/// `t + period` and is gone after a tick at `t + period + 1`.
pub proof fn lemma_expiry_boundary(s: Seq<EventEntry>, i: int, period: u64)
    requires
        is_ordered(s),
        0 <= i < s.len(),
        s[i].inserted_at + period + 1 <= u64::MAX,
    ensures
        pruned(s, (s[i].inserted_at + period) as u64, period).contains(s[i]),
        !pruned(s, (s[i].inserted_at + period + 1) as u64, period).contains(s[i]),
{
    let t = s[i].inserted_at;
    let at_deadline = (t + period) as u64;
    let after = (t + period + 1) as u64;
    lemma_front_expired_run(s, at_deadline, period);
    lemma_front_expired_run(s, after, period);
    let k = front_expired_run(s, at_deadline, period) as int;
    if k > i {
        assert(is_expired(s[i], at_deadline, period));
    }
    let kept = pruned(s, at_deadline, period);
    assert(kept[i - k] == s[i]);
    let m = front_expired_run(s, after, period) as int;
    if m <= i {
        assert(s[m].inserted_at <= s[i].inserted_at);
        assert(is_expired(s[m], after, period));
    }
    let rest = pruned(s, after, period);
    if rest.contains(s[i]) {
        let j = choose|j: int| 0 <= j < rest.len() && rest[j] == s[i];
        assert(rest[j] == s[j + m]);
        assert(!is_expired(s[m], after, period));
        assert(s[m].inserted_at <= s[j + m].inserted_at);
    }
}

/// A second tick at the same time changes nothing.
pub proof fn lemma_prune_idempotent(s: Seq<EventEntry>, now: u64, period: u64)
    ensures
        pruned(pruned(s, now, period), now, period) == pruned(s, now, period),
{
    let t = pruned(s, now, period);
    lemma_front_expired_run(s, now, period);
    if t.len() > 0 {
        assert(t[0] == s[front_expired_run(s, now, period) as int]);
    }
    lemma_pruned_fresh_front(t, now, period);
}

/// A tick after every record's deadline empties the feed.
pub proof fn lemma_prune_drains(s: Seq<EventEntry>, now: u64, period: u64)
    requires
        forall|i: int| 0 <= i < s.len() ==> is_expired(#[trigger] s[i], now, period),
    ensures
        pruned(s, now, period) == Seq::<EventEntry>::empty(),
{
    lemma_front_expired_run(s, now, period);
    let k = front_expired_run(s, now, period) as int;
    if k < s.len() {
        assert(is_expired(s[k], now, period));
    }
    assert(pruned(s, now, period) =~= Seq::<EventEntry>::empty());
}

} // verus!
