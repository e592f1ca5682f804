//! The schedule of the periodic refresh.

use crate::text::texts;
use vstd::prelude::*;
use vstd::string::StringExecFns;

verus! {

/// The time to let the server settle before the first round, in seconds.
pub const SETTLE_DELAY: u64 = 5;

/// The time between two rounds, in seconds: one hour.
pub const INTERVAL: u64 = 3600;

/// The address that is called for a path on a server.
pub open spec fn url_of(addr: Seq<char>, path: Seq<char>) -> Seq<char> {
    "http://"@ + addr + path
}

/// The addresses that are called for the given paths, in order.
pub open spec fn urls_of(addr: Seq<char>, paths: Seq<&'static str>) -> Seq<Seq<char>> {
    Seq::new(paths.len(), |i: int| url_of(addr, paths[i]@))
}

/// The periodic refresh of a list of addresses.
#[derive(Debug)]
pub struct Poller {
    /// The addresses that are called in every round.
    pub urls: Vec<String>,
    /// What is under way.
    pub phase: PollPhase,
}

/// What a poller is waiting for.
#[derive(Debug, Clone, Copy, PartialEq, Eq, Structural)]
pub enum PollPhase {
    /// For the end of a sleep.
    Sleeping,
    /// For the end of the call to the address at a position.
    Calling(usize),
}

/// What happened outside since the last action of a poller.
#[derive(Debug)]
pub enum PollEvent {
    /// The sleep is over.
    Woke,
    /// The call ended: it was answered, or it failed.
    Called { answered: bool },
}

/// What a poller is to do next.
#[derive(Debug)]
pub enum PollAction {
    /// Nothing: the event was not the awaited one.
    Wait,
    /// Sleep for a number of seconds.
    Sleep(u64),
    /// Call an address with a GET request.
    Call(String),
}

/// Begins to refresh the given paths of the server at `addr` every hour: the
/// first round starts after a short sleep.
pub fn call_every_hour(addr: String, paths: Vec<&'static str>) -> (begun: (Poller, PollAction))
    ensures
        texts(begun.0.urls@) == urls_of(addr@, paths@),
        begun.0.phase == PollPhase::Sleeping,
        begun.1 == PollAction::Sleep(SETTLE_DELAY),
{
    let mut urls: Vec<String> = Vec::new();
    let mut i: usize = 0;
    while i < paths.len()
        invariant
            i <= paths.len(),
            urls@.len() == i,
            forall|j: int| 0 <= j < i ==> urls@[j]@ == url_of(addr@, paths@[j]@),
        decreases paths.len() - i,
    {
        let url = String::from_str("http://").concat(addr.as_str()).concat(paths[i]);
        urls.push(url);
        i = i + 1;
    }
    assert(texts(urls@) =~= urls_of(addr@, paths@));
    (Poller { urls, phase: PollPhase::Sleeping }, PollAction::Sleep(SETTLE_DELAY))
}

/// Whether a call was answered has no bearing on the schedule: what follows
/// a call that failed is what follows a call that went well.
pub proof fn lemma_schedule_goes_on(
    poller: Poller,
    answered: bool,
    otherwise: bool,
    next: Poller,
    action: PollAction,
)
    requires
        poller.step(PollEvent::Called { answered }, next, action),
    ensures
        poller.step(PollEvent::Called { answered: otherwise }, next, action),
{
}

impl Poller {
    /// Whether `phase` and `action` stand for the call to the address at
    /// `position`, or for the sleep between two rounds where the round has no
    /// such address.
    pub open spec fn calls(self, position: int, phase: PollPhase, action: PollAction) -> bool {
        if 0 <= position < self.urls@.len() {
            &&& phase == PollPhase::Calling(position as usize)
            &&& action matches PollAction::Call(url)
            &&& url@ == self.urls@[position]@
        } else {
            &&& phase == PollPhase::Sleeping
            &&& action == PollAction::Sleep(INTERVAL)
        }
    }

    /// Whether `next` and `action` are what follows this poller on `event`.
    ///
    /// A round calls every address once, in order, and is followed by a sleep
    /// of an hour. Whether a call was answered has no bearing on what follows.
    pub open spec fn step(self, event: PollEvent, next: Poller, action: PollAction) -> bool {
        &&& next.urls == self.urls
        &&& match (self.phase, event) {
            (PollPhase::Sleeping, PollEvent::Woke) => self.calls(0, next.phase, action),
            (PollPhase::Calling(position), PollEvent::Called { answered }) => self.calls(
                position + 1,
                next.phase,
                action,
            ),
            _ => next.phase == self.phase && action == PollAction::Wait,
        }
    }

    /// The call to the address at `position`, or the sleep after the round.
    fn call(self, position: usize) -> (then: (Poller, PollAction))
        ensures
            then.0.urls == self.urls,
            self.calls(position as int, then.0.phase, then.1),
    {
        if position < self.urls.len() {
            let url = self.urls[position].clone();
            (Poller { urls: self.urls, phase: PollPhase::Calling(position) }, PollAction::Call(url))
        } else {
            (Poller { urls: self.urls, phase: PollPhase::Sleeping }, PollAction::Sleep(INTERVAL))
        }
    }

    /// Takes the schedule one step further on an event.
    pub fn next(self, event: PollEvent) -> (then: (Poller, PollAction))
        ensures
            self.step(event, then.0, then.1),
    {
        match self.phase {
            PollPhase::Sleeping => match event {
                PollEvent::Woke => self.call(0),
                _ => (self, PollAction::Wait),
            },
            PollPhase::Calling(position) => match event {
                PollEvent::Called { answered } => {
                    if position < self.urls.len() {
                        self.call(position + 1)
                    } else {
                        (
                            Poller { urls: self.urls, phase: PollPhase::Sleeping },
                            PollAction::Sleep(INTERVAL),
                        )
                    }
                },
                _ => (self, PollAction::Wait),
            },
        }
    }
}

} // verus!
