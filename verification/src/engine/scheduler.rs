//! Priority ordering of pending queries, with cooperative cancellation.

use crate::api::request::RequestPayload;
use std::sync::atomic::AtomicBool;
use std::sync::atomic::Ordering;
use std::sync::Arc;
use vstd::prelude::*;

verus! {

/// A one-way flag shared by everyone who holds a clone of the token. It
/// starts unset; once set it stays set, since nothing here clears it.
/// Cancellation is advisory: running code has to poll the flag.
#[derive(Debug, Clone)]
pub struct CancellationToken {
    cancelled: Arc<AtomicBool>,
}

impl CancellationToken {
    /// Create a new cancellation token.
    pub fn new() -> CancellationToken {
        CancellationToken { cancelled: Arc::new(AtomicBool::new(false)) }
    }

    /// Check if the operation has been cancelled.
    pub fn is_cancelled(&self) -> bool {
        self.cancelled.load(Ordering::SeqCst)
    }

    /// Cancel the operation.
    pub fn cancel(&self) {
        self.cancelled.store(true, Ordering::SeqCst);
    }
}

impl Default for CancellationToken {
    fn default() -> CancellationToken {
        CancellationToken::new()
    }
}

/// Query execution priority.
#[derive(Debug, Clone, Copy, PartialEq, Eq, Structural)]
pub enum Priority {
    /// Immediate UI response required
    UiImmediate,
    /// UI prefetch (can be cancelled by immediate)
    UiPrefetch,
    /// Background maintenance work
    Maintenance,
}

/// Pending query in the scheduler.
#[derive(Debug)]
pub struct PendingQuery {
    /// Query ID
    pub id: String,
    /// Query payload
    pub payload: RequestPayload,
    /// Cancellation token
    pub cancellation: CancellationToken,
}

/// The pending queries of each tier, oldest first.
pub struct Tiers {
    pub ui_immediate: Seq<PendingQuery>,
    pub ui_prefetch: Seq<PendingQuery>,
    pub maintenance: Seq<PendingQuery>,
}

impl Tiers {
    /// Nothing is pending.
    pub open spec fn empty() -> Tiers {
        Tiers { ui_immediate: Seq::empty(), ui_prefetch: Seq::empty(), maintenance: Seq::empty() }
    }

    /// Number of pending queries.
    pub open spec fn count(self) -> nat {
        self.ui_immediate.len() + self.ui_prefetch.len() + self.maintenance.len()
    }

    /// The tiers after `query` is scheduled with `priority`: it comes last in
    /// its tier.
    pub open spec fn scheduled(self, query: PendingQuery, priority: Priority) -> Tiers {
        match priority {
            Priority::UiImmediate => Tiers { ui_immediate: self.ui_immediate.push(query), ..self },
            Priority::UiPrefetch => Tiers { ui_prefetch: self.ui_prefetch.push(query), ..self },
            Priority::Maintenance => Tiers { maintenance: self.maintenance.push(query), ..self },
        }
    }

    /// The tier that the next query comes from: the highest one that is not
    /// empty.
    pub open spec fn next_tier(self) -> Option<Priority> {
        if self.ui_immediate.len() > 0 {
            Some(Priority::UiImmediate)
        } else if self.ui_prefetch.len() > 0 {
            Some(Priority::UiPrefetch)
        } else if self.maintenance.len() > 0 {
            Some(Priority::Maintenance)
        } else {
            None
        }
    }

    /// The query that comes out next: the most recently scheduled one of the
    /// highest tier that is not empty.
    pub open spec fn next(self) -> Option<PendingQuery> {
        match self.next_tier() {
            Some(Priority::UiImmediate) => Some(self.ui_immediate.last()),
            Some(Priority::UiPrefetch) => Some(self.ui_prefetch.last()),
            Some(Priority::Maintenance) => Some(self.maintenance.last()),
            None => None,
        }
    }

    /// The tiers once the next query is taken out.
    pub open spec fn rest(self) -> Tiers {
        match self.next_tier() {
            Some(Priority::UiImmediate) => Tiers {
                ui_immediate: self.ui_immediate.drop_last(),
                ..self
            },
            Some(Priority::UiPrefetch) => Tiers {
                ui_prefetch: self.ui_prefetch.drop_last(),
                ..self
            },
            Some(Priority::Maintenance) => Tiers {
                maintenance: self.maintenance.drop_last(),
                ..self
            },
            None => self,
        }
    }

    /// A query that was just scheduled comes out next unless a higher tier
    /// has something pending, and taking it out brings the tiers back.
    pub proof fn lemma_newest_first(self, query: PendingQuery, priority: Priority)
        requires
            match priority {
                Priority::UiImmediate => true,
                Priority::UiPrefetch => self.ui_immediate.len() == 0,
                Priority::Maintenance => self.ui_immediate.len() == 0 && self.ui_prefetch.len()
                    == 0,
            },
        ensures
            self.scheduled(query, priority).next() == Some(query),
            self.scheduled(query, priority).rest() == self,
    {
        let after = self.scheduled(query, priority);
        match priority {
            Priority::UiImmediate => {
                assert(after.ui_immediate.drop_last() =~= self.ui_immediate);
            },
            Priority::UiPrefetch => {
                assert(after.ui_prefetch.drop_last() =~= self.ui_prefetch);
            },
            Priority::Maintenance => {
                assert(after.maintenance.drop_last() =~= self.maintenance);
            },
        }
    }

    /// Taking the next query out lowers the number of pending queries by
    /// one, and nothing comes out exactly when nothing is pending.
    pub proof fn lemma_drain(self)
        ensures
            self.next() is None <==> self.count() == 0,
            self.next() is Some ==> self.rest().count() + 1 == self.count(),
    {
    }
}

/// Query scheduler with one stack per priority tier. It orders queries; it
/// does not run them and never looks at their cancellation tokens.
#[derive(Debug)]
pub struct Scheduler {
    /// UI immediate priority queue
    ui_immediate: Vec<PendingQuery>,
    /// UI prefetch priority queue
    ui_prefetch: Vec<PendingQuery>,
    /// Maintenance priority queue
    maintenance: Vec<PendingQuery>,
}

impl View for Scheduler {
    type V = Tiers;

    closed spec fn view(&self) -> Tiers {
        Tiers {
            ui_immediate: self.ui_immediate@,
            ui_prefetch: self.ui_prefetch@,
            maintenance: self.maintenance@,
        }
    }
}

impl Scheduler {
    /// Create a new scheduler.
    pub fn new() -> (s: Scheduler)
        ensures
            s@ == Tiers::empty(),
    {
        Scheduler { ui_immediate: Vec::new(), ui_prefetch: Vec::new(), maintenance: Vec::new() }
    }

    /// Number of pending queries.
    pub fn pending(&self) -> (n: usize)
        ensures
            n == if self@.count() <= usize::MAX {
                self@.count() as usize
            } else {
                usize::MAX
            },
    {
        let a = self.ui_immediate.len();
        let b = self.ui_prefetch.len();
        let c = self.maintenance.len();
        let ab: usize = if a > usize::MAX - b {
            usize::MAX
        } else {
            a + b
        };
        if ab > usize::MAX - c {
            usize::MAX
        } else {
            ab + c
        }
    }

    /// Schedule a query with the given priority.
    pub fn schedule(&mut self, query: PendingQuery, priority: Priority)
        ensures
            final(self)@ == old(self)@.scheduled(query, priority),
    {
        match priority {
            Priority::UiImmediate => self.ui_immediate.push(query),
            Priority::UiPrefetch => self.ui_prefetch.push(query),
            Priority::Maintenance => self.maintenance.push(query),
        }
    }

    /// Get the next query to execute.
    pub fn next_query(&mut self) -> (r: Option<PendingQuery>)
        ensures
            r == old(self)@.next(),
            final(self)@ == old(self)@.rest(),
    {
        if let Some(query) = self.ui_immediate.pop() {
            return Some(query);
        }
        if let Some(query) = self.ui_prefetch.pop() {
            return Some(query);
        }
        self.maintenance.pop()
    }
}

} // verus!
