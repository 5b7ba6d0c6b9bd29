//! Finding a usable TCP port on the loopback interface.
//!
//! The port used last is preferred. If it is taken, the operating system is
//! asked for an ephemeral port, a bounded number of times; if that yields
//! nothing usable, ports of a fixed range are sampled at random, a bounded
//! number of times. The caller binds and releases the sockets; which port
//! is tried next and which is handed out is decided here.
//!
//! Probing binds to the loopback address, not to all interfaces, which
//! would make the system's firewall ask the user.

use rand::Rng;
use vstd::prelude::*;

verus! {

/// A TCP port.
pub type Port = u16;

/// Ports at or above this bound are never handed out: a development build
/// runs one port above the configured one, and that must not overflow.
pub const UPPER_PORT: u16 = 65534;

/// The lowest port sampled at random.
pub const RANDOM_PORT_LOW: u16 = 15000;

/// The bound of the ports sampled at random; it is not sampled itself.
pub const RANDOM_PORT_HIGH: u16 = 45000;

/// How many ports are sampled at random at most.
pub const MAX_RANDOM_PORT_RETRIES: u8 = 10;

/// How often the operating system is asked for a port at most.
pub const MAX_OS_ATTEMPTS: u8 = 10;

/// Whether `port` may be handed out.
pub open spec fn is_usable(port: u16) -> bool {
    port != 0 && port < UPPER_PORT
}

/// `rand::rng` gives the generator of the current thread and
/// `Rng::random_range` draws a number from `low..high` with it. The number
/// is random; all that is claimed is that it lies in the range. An empty
/// range makes the generator panic, hence the precondition.
#[verifier::external_body]
fn random_port(low: u16, high: u16) -> (r: u16)
    requires
        low < high,
    ensures
        low <= r < high,
{
    rand::rng().random_range(low..high)
}

/// What the caller reports.
#[derive(Clone, Copy, Debug, PartialEq, Eq, Structural)]
pub enum PortEvent {
    /// The port that was to be probed was found `free` or not: a socket
    /// could be bound to it on the loopback address and was released.
    Probed { free: bool },
    /// The operating system was asked for a port by binding to port 0:
    /// `port` is the port it chose, if the binding succeeded.
    OsAnswered { port: Option<u16> },
}

/// What the caller has to do next.
#[derive(Clone, Copy, Debug, PartialEq, Eq, Structural)]
#[allow(inconsistent_fields)]
pub enum PortAction {
    /// Try to bind to `port` on the loopback address and release it.
    Probe { port: u16 },
    /// Bind to port 0 on the loopback address and see which port it is.
    AskOs,
    /// The search is over: `port` is free, or there is none.
    Finish { port: Option<u16> },
    /// Nothing: the event does not belong to the current state.
    Ignore,
}

/// Where the search stands.
#[derive(Clone, Copy, Debug, PartialEq, Eq, Structural)]
pub enum PortSearch {
    /// The preferred port `port` is being probed.
    Preferred { port: u16 },
    /// The operating system is being asked, for the `attempt`-th time.
    Os { attempt: u8 },
    /// The `attempt`-th random candidate, `port`, is being probed.
    Random { attempt: u8, port: u16 },
    /// The search is over.
    Done,
}

/// The state and action that start sampling at random or go on with it,
/// after `made` samples, where `candidate` is the next one.
pub open spec fn sample(made: u8, candidate: u16) -> (PortSearch, PortAction) {
    if made < MAX_RANDOM_PORT_RETRIES {
        (
            PortSearch::Random { attempt: (made + 1) as u8, port: candidate },
            PortAction::Probe { port: candidate },
        )
    } else {
        (PortSearch::Done, PortAction::Finish { port: None })
    }
}

/// The state and action that start the search with the preferred port
/// `preferred`.
pub open spec fn search_start(preferred: u16) -> (PortSearch, PortAction) {
    if is_usable(preferred) {
        (PortSearch::Preferred { port: preferred }, PortAction::Probe { port: preferred })
    } else {
        (PortSearch::Os { attempt: 1 }, PortAction::AskOs)
    }
}

/// The transition taken on `event` in `state`, where `candidate` is the
/// port that would be sampled next.
pub open spec fn search_step(state: PortSearch, event: PortEvent, candidate: u16) -> (
    PortSearch,
    PortAction,
) {
    match (state, event) {
        (PortSearch::Preferred { port }, PortEvent::Probed { free }) => if free && is_usable(
            port,
        ) {
            (PortSearch::Done, PortAction::Finish { port: Some(port) })
        } else {
            (PortSearch::Os { attempt: 1 }, PortAction::AskOs)
        },
        (PortSearch::Os { attempt }, PortEvent::OsAnswered { port }) => match port {
            Some(p) if is_usable(p) => (PortSearch::Done, PortAction::Finish { port: Some(p) }),
            _ => if attempt < MAX_OS_ATTEMPTS {
                (PortSearch::Os { attempt: (attempt + 1) as u8 }, PortAction::AskOs)
            } else {
                sample(0, candidate)
            },
        },
        (PortSearch::Random { attempt, port }, PortEvent::Probed { free }) => if free
            && is_usable(port) {
            (PortSearch::Done, PortAction::Finish { port: Some(port) })
        } else {
            sample(attempt, candidate)
        },
        _ => (state, PortAction::Ignore),
    }
}

impl PortSearch {
    /// What every state of a search satisfies.
    pub open spec fn wf(self) -> bool {
        match self {
            PortSearch::Preferred { port } => is_usable(port),
            PortSearch::Os { attempt } => 1 <= attempt <= MAX_OS_ATTEMPTS,
            PortSearch::Random { attempt, port } => 1 <= attempt <= MAX_RANDOM_PORT_RETRIES
                && RANDOM_PORT_LOW <= port < RANDOM_PORT_HIGH,
            PortSearch::Done => true,
        }
    }

    /// The transition on `event`, where `candidate` is the port to sample
    /// next.
    pub fn step_with(self, event: PortEvent, candidate: u16) -> (r: (PortSearch, PortAction))
        ensures
            r == search_step(self, event, candidate),
            self.wf() && RANDOM_PORT_LOW <= candidate < RANDOM_PORT_HIGH ==> r.0.wf(),
    {
        match (self, event) {
            (PortSearch::Preferred { port }, PortEvent::Probed { free }) => {
                if free && port != 0 && port < UPPER_PORT {
                    (PortSearch::Done, PortAction::Finish { port: Some(port) })
                } else {
                    (PortSearch::Os { attempt: 1 }, PortAction::AskOs)
                }
            },
            (PortSearch::Os { attempt }, PortEvent::OsAnswered { port }) => {
                match port {
                    Some(p) => {
                        if p != 0 && p < UPPER_PORT {
                            return (PortSearch::Done, PortAction::Finish { port: Some(p) });
                        }
                    },
                    None => {},
                }
                if attempt < MAX_OS_ATTEMPTS {
                    (PortSearch::Os { attempt: attempt + 1 }, PortAction::AskOs)
                } else {
                    get_random_free_port(0, candidate)
                }
            },
            (PortSearch::Random { attempt, port }, PortEvent::Probed { free }) => {
                if free && port != 0 && port < UPPER_PORT {
                    (PortSearch::Done, PortAction::Finish { port: Some(port) })
                } else {
                    get_random_free_port(attempt, candidate)
                }
            },
            (state, _) => (state, PortAction::Ignore),
        }
    }

    /// The transition on `event`. A port that is sampled is drawn at random
    /// from the fixed range.
    pub fn step(self, event: PortEvent) -> (r: (PortSearch, PortAction))
        ensures
            exists|candidate: u16|
                RANDOM_PORT_LOW <= candidate < RANDOM_PORT_HIGH && r == search_step(
                    self,
                    event,
                    candidate,
                ),
            self.wf() ==> r.0.wf(),
    {
        let candidate = random_port(RANDOM_PORT_LOW, RANDOM_PORT_HIGH);
        self.step_with(event, candidate)
    }
}

/// Begins the search for a free port, preferring `preferred_port`. A
/// preferred port of 0, or one that may not be handed out, is not probed.
pub fn find_free_port(preferred_port: Port) -> (r: (PortSearch, PortAction))
    ensures
        r == search_start(preferred_port),
        r.0.wf(),
{
    if preferred_port != 0 && preferred_port < UPPER_PORT {
        (PortSearch::Preferred { port: preferred_port }, PortAction::Probe { port: preferred_port })
    } else {
        (PortSearch::Os { attempt: 1 }, PortAction::AskOs)
    }
}

/// Goes on with the random sampling after `made` samples: `candidate` is
/// probed next, unless enough were.
pub fn get_random_free_port(made: u8, candidate: u16) -> (r: (PortSearch, PortAction))
    ensures
        r == sample(made, candidate),
        RANDOM_PORT_LOW <= candidate < RANDOM_PORT_HIGH ==> r.0.wf(),
{
    if made < MAX_RANDOM_PORT_RETRIES {
        (PortSearch::Random { attempt: made + 1, port: candidate }, PortAction::Probe { port: candidate })
    } else {
        (PortSearch::Done, PortAction::Finish { port: None })
    }
}

/// Whether `event`, arriving in `state`, vouches for `port`: the port was
/// being probed and found free, or the operating system has just chosen it.
pub open spec fn vouches(state: PortSearch, event: PortEvent, port: u16) -> bool {
    match (state, event) {
        (PortSearch::Preferred { port: p }, PortEvent::Probed { free }) => free && p == port,
        (PortSearch::Random { attempt, port: p }, PortEvent::Probed { free }) => free && p == port,
        (PortSearch::Os { attempt }, PortEvent::OsAnswered { port: answer }) => answer == Some(
            port,
        ),
        _ => false,
    }
}

/// A port is handed out only if the event just reported vouches for it,
/// and it is never 0 nor at or above the upper bound. So a preferred port
/// that a listener holds is not handed out: its probe does not find it
/// free, and the operating system does not choose it. And a port that was
/// handed out and is still held is not handed out again, for the same
/// reason.
pub proof fn lemma_port_is_vouched(state: PortSearch, event: PortEvent, candidate: u16)
    ensures
        search_step(state, event, candidate).1 matches PortAction::Finish { port: Some(p) }
            ==> vouches(state, event, p) && is_usable(p),
        forall|held: u16|
            !vouches(state, event, held) ==> search_step(state, event, candidate).1
                != (PortAction::Finish { port: Some(held) }),
{
}

/// With a preferred port that is taken, the search goes on to the
/// operating system; and without a preferred port it starts there.
pub proof fn lemma_taken_port_is_passed_over(preferred: u16, candidate: u16)
    ensures
        is_usable(preferred) ==> search_step(
            search_start(preferred).0,
            PortEvent::Probed { free: false },
            candidate,
        ) == (PortSearch::Os { attempt: 1 }, PortAction::AskOs),
        !is_usable(preferred) ==> search_start(preferred) == (
            PortSearch::Os { attempt: 1 },
            PortAction::AskOs,
        ),
{
}

/// The number of probes and questions that are still possible: it drops
/// with every event that is answered by more work, so the search ends.
pub open spec fn work_left(state: PortSearch) -> nat {
    match state {
        PortSearch::Preferred { port } => 21,
        PortSearch::Os { attempt } => (20 - (attempt - 1)) as nat,
        PortSearch::Random { attempt, port } => (10 - attempt) as nat + 1,
        PortSearch::Done => 0,
    }
}

/// Every event that the search does not ignore brings it closer to its
/// end: at most 21 probes and questions are ever asked for.
pub proof fn lemma_search_is_bounded(state: PortSearch, event: PortEvent, candidate: u16)
    requires
        state.wf(),
    ensures
        search_step(state, event, candidate).1 != PortAction::Ignore ==> work_left(
            search_step(state, event, candidate).0,
        ) < work_left(state),
        search_step(state, event, candidate).1 is Finish <==> search_step(
            state,
            event,
            candidate,
        ).0 == PortSearch::Done && state != PortSearch::Done && search_step(
            state,
            event,
            candidate,
        ).1 != PortAction::Ignore,
{
}

} // verus!
