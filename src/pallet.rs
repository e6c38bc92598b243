//! The feed: an authorization gate in front of a time-ordered queue of
//! records, pruned on every tick.
use std::collections::VecDeque;
use vstd::prelude::*;

use crate::record::{
    admits_time, is_ordered, lemma_pruned_drop_first, lemma_pruned_fresh_front,
    lemma_tick_keeps_order, lemma_write_keeps_order, pruned, EventEntry, EventInfo,
};
use crate::traits::{AccountId, EligibilityError, IsAuthorizedAccount};

verus! {

/// The feed's fixed settings: how long a record is kept, in seconds, and the
/// one identity allowed to write.
#[derive(Debug, Clone, Copy)]
pub struct Config {
    pub period: u64,
    pub authorized_oracle_account: AccountId,
}

impl IsAuthorizedAccount for Config {
    open spec fn authorizes(&self, account: Seq<u8>) -> bool {
        account == self.authorized_oracle_account@
    }

    fn is_valid(&self, account: &AccountId) -> (r: Result<(), EligibilityError>) {
        if account.same_as(&self.authorized_oracle_account) {
            Ok(())
        } else {
            Err(EligibilityError::NotAllowed)
        }
    }
}

/// The notification handed back for each accepted write: the payload and the
/// time it was stored at.
#[derive(Debug, Clone, PartialEq, Eq)]
pub enum Event {
    NewEventAdded(Vec<u8>, u64),
}

/// Why a write was refused.
#[derive(Debug, Clone, Copy, PartialEq, Eq, Structural)]
pub enum Error {
    UnAuthorizedAccount,
}

/// The feed: its settings and the records it holds, oldest first.
pub struct Pallet {
    config: Config,
    queue: VecDeque<EventInfo>,
}

impl View for Pallet {
    type V = Seq<EventEntry>;

    closed spec fn view(&self) -> Seq<EventEntry> {
        self.queue@.map_values(|e: EventInfo| e@)
    }
}

impl Pallet {
    /// The settings the feed was made with.
    pub closed spec fn settings(&self) -> Config {
        self.config
    }

    /// The retention period, in seconds.
    pub open spec fn period(&self) -> u64 {
        self.settings().period
    }

    /// The bytes of the one identity allowed to write.
    pub open spec fn authorized(&self) -> Seq<u8> {
        self.settings().authorized_oracle_account@
    }

    /// An empty feed with the given settings.
    pub fn new(config: Config) -> (r: Pallet)
        ensures
            r@ == Seq::<EventEntry>::empty(),
            r.settings() == config,
    {
        let r = Pallet { config, queue: VecDeque::new() };
        assert(r@ =~= Seq::<EventEntry>::empty());
        r
    }

    pub fn config(&self) -> (r: &Config)
        ensures
            *r == self.settings(),
    {
        &self.config
    }

    /// Stores `data`, stamped `now`, at the back of the feed when `who` is the
    /// authorized identity, and returns the notification for it; otherwise
    /// refuses and leaves the feed as it was.
    pub fn add_new_event_data(&mut self, who: &AccountId, data: Vec<u8>, now: u64) -> (r: Result<
        Event,
        Error,
    >)
        ensures
            final(self).settings() == old(self).settings(),
            who@ == old(self).authorized() ==> {
                &&& r matches Ok(Event::NewEventAdded(d, t)) && d@ == data@ && t == now
                &&& final(self)@ == old(self)@.push(EventEntry { payload: data@, inserted_at: now })
            },
            who@ != old(self).authorized() ==> {
                &&& r == Err::<Event, Error>(Error::UnAuthorizedAccount)
                &&& final(self)@ == old(self)@
            },
            is_ordered(old(self)@) && admits_time(old(self)@, now) ==> is_ordered(final(self)@),
    {
        match self.config.is_valid(who) {
            Ok(()) => {
                let ghost before = self@;
                let stored = data.clone();
                proof {
                    assert(stored@ =~= data@);
                }
                let info = EventInfo::new(stored, now);
                self.queue.push_back(info);
                proof {
                    assert(self@ =~= before.push(info@));
                    if is_ordered(before) && admits_time(before, now) {
                        lemma_write_keeps_order(before, info@);
                    }
                }
                Ok(Event::NewEventAdded(data, now))
            },
            Err(_) => Err(Error::UnAuthorizedAccount),
        }
    }

    /// One tick at time `now`: removes the records at the front whose
    /// retention period has elapsed, and stops at the first one that has not.
    pub fn on_finalize(&mut self, now: u64)
        ensures
            final(self).settings() == old(self).settings(),
            final(self)@ == pruned(old(self)@, now, old(self).period()),
            is_ordered(old(self)@) ==> is_ordered(final(self)@),
    {
        let period = self.config.period;
        proof {
            if is_ordered(self@) {
                lemma_tick_keeps_order(self@, now, period);
            }
            if self@.len() == 0 {
                lemma_pruned_fresh_front(self@, now, period);
            }
        }
        while self.queue.len() > 0
            invariant
                self.config == old(self).config,
                period == self.config.period,
                pruned(self@, now, period) == pruned(old(self)@, now, period),
                self@.len() == 0 ==> pruned(self@, now, period) == self@,
            ensures
                self.config == old(self).config,
                self@ == pruned(old(self)@, now, period),
            decreases self.queue.len(),
        {
            let expired = self.queue[0].is_expired_at(now, period);
            if expired {
                let ghost before = self@;
                let _ = self.queue.pop_front();
                proof {
                    assert(self@ =~= before.drop_first());
                    lemma_pruned_drop_first(before, now, period);
                    if self@.len() == 0 {
                        lemma_pruned_fresh_front(self@, now, period);
                    }
                }
            } else {
                proof {
                    lemma_pruned_fresh_front(self@, now, period);
                }
                break;
            }
        }
    }

    /// The number of records held.
    pub fn len(&self) -> (r: usize)
        ensures
            r == self@.len(),
    {
        self.queue.len()
    }

    /// The oldest record, if any.
    pub fn front(&self) -> (r: Option<&EventInfo>)
        ensures
            self@.len() == 0 ==> r is None,
            self@.len() > 0 ==> (r matches Some(e) && e@ == self@[0]),
    {
        if self.queue.len() > 0 {
            Some(&self.queue[0])
        } else {
            None
        }
    }

    /// The newest record, if any.
    pub fn back(&self) -> (r: Option<&EventInfo>)
        ensures
            self@.len() == 0 ==> r is None,
            self@.len() > 0 ==> (r matches Some(e) && e@ == self@.last()),
    {
        let n = self.queue.len();
        if n > 0 {
            Some(&self.queue[n - 1])
        } else {
            None
        }
    }

    /// The record at position `i`, counted from the oldest.
    pub fn get(&self, i: usize) -> (r: Option<&EventInfo>)
        ensures
            i >= self@.len() ==> r is None,
            i < self@.len() ==> (r matches Some(e) && e@ == self@[i as int]),
    {
        if i < self.queue.len() {
            Some(&self.queue[i])
        } else {
            None
        }
    }
}

} // verus!
