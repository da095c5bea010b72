//! The one connection to the secure clock.
//!
//! The clock is connected when it is first asked for. The handle that was
//! connected first is kept for the life of the process: it is never
//! replaced and never dropped, and every later request is answered with it.

use crate::error::ConnectError;
use vstd::prelude::*;

verus! {

/// The place of the secure clock's handle: empty until the clock is
/// connected, fixed afterwards.
pub struct TimestampDevice<H> {
    cached: Option<H>,
}

impl<H> View for TimestampDevice<H> {
    type V = Option<H>;

    closed spec fn view(&self) -> Option<H> {
        self.cached
    }
}

impl<H> TimestampDevice<H> {
    /// The place before the clock was connected.
    pub fn new() -> (device: Self)
        ensures
            device@ is None,
    {
        TimestampDevice { cached: None }
    }
}

impl<H> Default for TimestampDevice<H> {
    /// The place before the clock was connected.
    fn default() -> (device: Self)
        ensures
            device@ is None,
    {
        TimestampDevice::new()
    }
}

/// What a request for the secure clock comes to.
#[derive(Debug, PartialEq, Eq)]
pub enum TimestampStep<H> {
    /// The clock is not connected. Negotiate a connection and come back
    /// with the outcome.
    Connect,
    /// The handle of the clock.
    Service(H),
    /// The negotiation failed, and so does the request.
    Failed(ConnectError),
}

impl<H: Clone> TimestampStep<H> {
    /// Whether this step is what a caller is given where `decided` was
    /// decided: the same case, with a clone of the handle.
    pub open spec fn hands_out(self, decided: TimestampStep<H>) -> bool {
        match (decided, self) {
            (TimestampStep::Connect, TimestampStep::Connect) => true,
            (TimestampStep::Service(kept), TimestampStep::Service(given)) => cloned(kept, given),
            (TimestampStep::Failed(error), TimestampStep::Failed(e)) => error == e,
            _ => false,
        }
    }
}

/// What is decided on a request for the secure clock, and what is kept
/// afterwards.
///
/// Without the outcome of a negotiation, the request is answered with the
/// handle that is kept, and asks for a negotiation if none is. A connection
/// is kept if none was kept before; one that arrives later is let go, and
/// the request is answered with the handle that was there first. A failure
/// fails the request and changes nothing.
pub open spec fn clock_request<H>(kept: Option<H>, connected: Option<Result<H, ConnectError>>) -> (
    Option<H>,
    TimestampStep<H>,
) {
    match connected {
        None => match kept {
            Some(handle) => (kept, TimestampStep::Service(handle)),
            None => (kept, TimestampStep::Connect),
        },
        Some(Ok(handle)) => match kept {
            Some(first) => (kept, TimestampStep::Service(first)),
            None => (Some(handle), TimestampStep::Service(handle)),
        },
        Some(Err(error)) => (kept, TimestampStep::Failed(error)),
    }
}

/// Takes one step of getting the secure clock, which tells how fresh an
/// authorisation is where security levels keep different clocks.
///
/// Start without an outcome. On [`TimestampStep::Connect`] run the
/// negotiation of [`crate::connect::connect_secureclock`] and step again
/// with its outcome.
pub fn get_timestamp_service<H: Clone>(
    ts_device: &mut TimestampDevice<H>,
    connected: Option<Result<H, ConnectError>>,
) -> (step: TimestampStep<H>)
    ensures
        final(ts_device)@ == clock_request(old(ts_device)@, connected).0,
        step.hands_out(clock_request(old(ts_device)@, connected).1),
{
    match connected {
        None => match &ts_device.cached {
            Some(dev) => TimestampStep::Service(dev.clone()),
            None => TimestampStep::Connect,
        },
        Some(Ok(dev)) => match &ts_device.cached {
            Some(first) => TimestampStep::Service(first.clone()),
            None => {
                let given = dev.clone();
                ts_device.cached = Some(dev);
                TimestampStep::Service(given)
            },
        },
        Some(Err(error)) => TimestampStep::Failed(error),
    }
}

/// What is kept after the requests of `trace`, each the outcome of a
/// negotiation, if the step had one.
pub open spec fn clock_requests<H>(kept: Option<H>, trace: Seq<Option<Result<H, ConnectError>>>) -> Option<H>
    decreases trace.len(),
{
    if trace.len() == 0 {
        kept
    } else {
        clock_request(clock_requests(kept, trace.drop_last()), trace.last()).0
    }
}

/// Once the clock is connected, whatever requests, connections and failures
/// follow, the handle that was kept first is still kept, every request is
/// answered with it, and none asks for a connection.
pub proof fn lemma_clock_is_connected_once<H>(first: H, trace: Seq<Option<Result<H, ConnectError>>>)
    ensures
        clock_requests(Some(first), trace) == Some(first),
        clock_request(clock_requests(Some(first), trace), None) == (
            Some(first),
            TimestampStep::Service(first),
        ),
    decreases trace.len(),
{
    if trace.len() > 0 {
        lemma_clock_is_connected_once(first, trace.drop_last());
    }
}

/// The first connection that arrives is the one that is kept.
pub proof fn lemma_first_connection_is_kept<H>(handle: H)
    ensures
        clock_request(None::<H>, None) == (None::<H>, TimestampStep::<H>::Connect),
        clock_request(None::<H>, Some(Ok(handle))) == (Some(handle), TimestampStep::Service(handle)),
{
}

} // verus!
