//! The event loop: the wait-for-next-event primitive over a queue of
//! pending native envelopes, with property-change observations and the
//! one-time suppression of deprecated event kinds.
//!
//! The embedding program performs the actual blocking native call and
//! pushes every envelope that arrived, in arrival order, with
//! `push_native_event`; `wait_event` then consumes the queue front-first.
//! A `timeout_ms` of zero or less means "poll once, do not block": the
//! embedding must not wait before handing over what is already pending.
//! Either way, `wait_event` delivers the first deliverable pending
//! envelope decoded, or `Error::Timeout` when none is pending — so the
//! caller can tell "nothing happened" from a native failure.
//!
//! The loop itself is a sequence of blocking calls and is not reentrant:
//! when one thread polls while another registers observations, the
//! embedding must serialize access to the loop. There is no cancellation
//! of an in-flight wait; a caller stops polling by letting the timeout
//! expire or on a terminal event.

use vstd::prelude::*;
use crate::error::Error;
use crate::events::{
    decode_event, decode_event_spec, deprecated_event, deprecated_event_id, event_result_model,
    is_deprecated_event_id, is_known_event_id, known_event_id, Event, EventModel,
};
use crate::format::Format;
use crate::native::RawEvent;
use crate::observe::{lookup_spec, ObservationTable};

verus! {

/// Whether a pending envelope is surfaced at all: envelopes of unknown
/// kinds are skipped ("no event, try again"), and so are envelopes of
/// deprecated kinds once suppression is on. Everything else is delivered,
/// in order, exactly once.
pub open spec fn deliverable(r: RawEvent, suppressed: bool) -> bool {
    known_event_id(r.event_id) && !(suppressed && deprecated_event_id(r.event_id))
}

pub fn is_deliverable(r: &RawEvent, suppressed: bool) -> (out: bool)
    ensures
        out == deliverable(*r, suppressed),
{
    is_known_event_id(r.event_id) && !(suppressed && is_deprecated_event_id(r.event_id))
}

/// How many envelopes at the front of the queue are skipped before the
/// first deliverable one; the queue's length when none is deliverable.
pub open spec fn skip_count(q: Seq<RawEvent>, suppressed: bool) -> int
    decreases q.len(),
{
    if q.len() == 0 {
        0
    } else if deliverable(q[0], suppressed) {
        0
    } else {
        1 + skip_count(q.drop_first(), suppressed)
    }
}

/// `skip_count` is the index of the first deliverable envelope: nothing
/// before it is deliverable, and it is in range exactly when one exists.
pub proof fn lemma_skip_count(q: Seq<RawEvent>, suppressed: bool)
    ensures
        0 <= skip_count(q, suppressed) <= q.len(),
        skip_count(q, suppressed) < q.len() ==> deliverable(q[skip_count(q, suppressed)], suppressed),
        forall|j: int| 0 <= j < skip_count(q, suppressed) ==> !deliverable(q[j], suppressed),
    decreases q.len(),
{
    if q.len() > 0 && !deliverable(q[0], suppressed) {
        lemma_skip_count(q.drop_first(), suppressed);
        assert forall|j: int| 0 <= j < skip_count(q, suppressed) implies !deliverable(
            q[j],
            suppressed,
        ) by {
            if j > 0 {
                assert(q.drop_first()[j - 1] == q[j]);
            }
        }
        if skip_count(q, suppressed) < q.len() {
            assert(q.drop_first()[skip_count(q.drop_first(), suppressed)] == q[skip_count(
                q,
                suppressed,
            )]);
        }
    }
}

/// A scan that finds no deliverable envelope before `i`, and a deliverable
/// one at `i` (or the end), has found exactly `skip_count`.
pub proof fn lemma_skip_count_is(q: Seq<RawEvent>, suppressed: bool, i: int)
    requires
        0 <= i <= q.len(),
        forall|j: int| 0 <= j < i ==> !deliverable(q[j], suppressed),
        i < q.len() ==> deliverable(q[i], suppressed),
    ensures
        skip_count(q, suppressed) == i,
    decreases q.len(),
{
    if q.len() > 0 {
        if deliverable(q[0], suppressed) {
            assert(i == 0);
        } else {
            assert(i > 0);
            assert forall|j: int| 0 <= j < i - 1 implies !deliverable(
                q.drop_first()[j],
                suppressed,
            ) by {
                assert(q.drop_first()[j] == q[j + 1]);
            }
            if i - 1 < q.drop_first().len() {
                assert(q.drop_first()[i - 1] == q[i]);
            }
            lemma_skip_count_is(q.drop_first(), suppressed, i - 1);
        }
    }
}

/// Deprecated-event suppression: while suppression is on, the event a
/// wait delivers — the first deliverable pending envelope, decoded — is
/// never of a deprecated kind, whatever is pending and whatever is
/// observed. With `wait_event`'s contract this holds of every poll after
/// `suppress_deprecated_events`, for the remaining lifetime of the loop.
pub proof fn lemma_suppression(q: Seq<RawEvent>, obs: Seq<(u64, Seq<char>, Format)>)
    ensures
        ({
            let k = skip_count(q, true);
            k < q.len() ==> (decode_event_spec(q[k], obs) matches Ok(e) ==> !deprecated_event(e))
        }),
{
    lemma_skip_count(q, true);
}

/// Ordering: when every pending envelope is deliverable, a wait delivers
/// the front of the queue and leaves exactly the rest, so successive
/// waits hand events out in emission order.
pub proof fn lemma_events_in_order(q: Seq<RawEvent>, suppressed: bool)
    requires
        q.len() > 0,
        forall|j: int| 0 <= j < q.len() ==> deliverable(q[j], suppressed),
    ensures
        skip_count(q, suppressed) == 0,
        q.skip(1).len() == q.len() - 1,
        forall|j: int| 0 <= j < q.len() - 1 ==> q.skip(1)[j] == q[j + 1],
{
}

/// The blocking wait primitive with its observation table, the pending
/// queue of native envelopes, and the suppression and first-poll flags.
#[derive(Debug)]
pub struct EventLoop {
    observations: ObservationTable,
    suppressed: bool,
    polled: bool,
    pending: Vec<RawEvent>,
}

impl EventLoop {
    /// The contents of the observation table.
    pub closed spec fn observations_model(self) -> Seq<(u64, Seq<char>, Format)> {
        self.observations@
    }

    /// Whether deprecated event kinds are suppressed.
    pub closed spec fn is_suppressed(self) -> bool {
        self.suppressed
    }

    /// Whether `wait_event` has been called at least once.
    pub closed spec fn has_polled(self) -> bool {
        self.polled
    }

    /// The pending native envelopes, in arrival order, front first.
    pub closed spec fn pending_model(self) -> Seq<RawEvent> {
        self.pending@
    }

    /// Observation ids are unique among active observations.
    pub closed spec fn wf(self) -> bool {
        self.observations.wf()
    }

    /// A fresh loop: nothing observed, nothing pending, nothing
    /// suppressed, never polled.
    pub fn new() -> (r: EventLoop)
        ensures
            r.wf(),
            !r.is_suppressed(),
            !r.has_polled(),
            r.pending_model() == Seq::<RawEvent>::empty(),
            r.observations_model() == Seq::<(u64, Seq<char>, Format)>::empty(),
    {
        EventLoop {
            observations: ObservationTable::new(),
            suppressed: false,
            polled: false,
            pending: Vec::new(),
        }
    }

    /// Registers an observation of property `name` in `format` under the
    /// caller-chosen `id`; notifications tagged with that reply id are
    /// then named from this entry. Re-registering an id overwrites its
    /// entry; every other observation is untouched. Always succeeds.
    pub fn observe(&mut self, name: String, format: Format, id: u64) -> (r: Result<(), Error>)
        requires
            old(self).wf(),
        ensures
            final(self).wf(),
            r is Ok,
            lookup_spec(final(self).observations_model(), id) == Some((name@, format)),
            forall|id2: u64| id2 != id ==> #[trigger] lookup_spec(
                final(self).observations_model(),
                id2,
            ) == lookup_spec(old(self).observations_model(), id2),
            final(self).pending_model() == old(self).pending_model(),
            final(self).is_suppressed() == old(self).is_suppressed(),
            final(self).has_polled() == old(self).has_polled(),
    {
        self.observations.register(name, format, id);
        Ok(())
    }

    /// Removes the observation registered under `id`. Idempotent:
    /// unregistering an id that was never registered succeeds as a no-op.
    /// Every other observation is untouched.
    pub fn unobserve(&mut self, id: u64) -> (r: Result<(), Error>)
        requires
            old(self).wf(),
        ensures
            final(self).wf(),
            r is Ok,
            lookup_spec(final(self).observations_model(), id) is None,
            forall|id2: u64| id2 != id ==> #[trigger] lookup_spec(
                final(self).observations_model(),
                id2,
            ) == lookup_spec(old(self).observations_model(), id2),
            final(self).pending_model() == old(self).pending_model(),
            final(self).is_suppressed() == old(self).is_suppressed(),
            final(self).has_polled() == old(self).has_polled(),
    {
        self.observations.unregister(id);
        Ok(())
    }

    /// Turns the suppression of deprecated event kinds on, for the
    /// remaining lifetime of the loop. To be called at most once, before
    /// the first poll; both are the caller's obligation.
    pub fn suppress_deprecated_events(&mut self) -> (r: Result<(), Error>)
        requires
            old(self).wf(),
            !old(self).has_polled(),
            !old(self).is_suppressed(),
        ensures
            final(self).wf(),
            r is Ok,
            final(self).is_suppressed(),
            !final(self).has_polled(),
            final(self).pending_model() == old(self).pending_model(),
            final(self).observations_model() == old(self).observations_model(),
    {
        self.suppressed = true;
        Ok(())
    }

    /// Appends one native envelope to the pending queue. The embedding
    /// program calls this with every envelope the native library emitted,
    /// in emission order, so the queue is the emission sequence.
    pub fn push_native_event(&mut self, ev: RawEvent)
        requires
            old(self).wf(),
        ensures
            final(self).wf(),
            final(self).pending_model() == old(self).pending_model().push(ev),
            final(self).observations_model() == old(self).observations_model(),
            final(self).is_suppressed() == old(self).is_suppressed(),
            final(self).has_polled() == old(self).has_polled(),
    {
        self.pending.push(ev);
    }

    /// Waits for the next event. Skips pending envelopes that are not
    /// deliverable (unknown kinds; deprecated kinds while suppressed),
    /// consumes the queue up to and including the first deliverable one,
    /// and returns that envelope decoded — so successive calls deliver
    /// events in exactly the order the native library emitted them. When
    /// nothing pending is deliverable the result is `Error::Timeout`: the
    /// wait window (at most `timeout_ms` milliseconds, non-positive
    /// meaning a non-blocking poll) closed without an event.
    #[verifier::loop_isolation(false)]
    pub fn wait_event(&mut self, timeout_ms: i64) -> (r: Result<Event, Error>)
        requires
            old(self).wf(),
        ensures
            final(self).wf(),
            final(self).has_polled(),
            final(self).is_suppressed() == old(self).is_suppressed(),
            final(self).observations_model() == old(self).observations_model(),
            ({
                let q = old(self).pending_model();
                let k = skip_count(q, old(self).is_suppressed());
                if k == q.len() {
                    r == Err::<Event, Error>(Error::Timeout) && final(self).pending_model()
                        == Seq::<RawEvent>::empty()
                } else {
                    event_result_model(r) == decode_event_spec(
                        q[k],
                        old(self).observations_model(),
                    ) && final(self).pending_model() == q.skip(k + 1)
                }
            }),
    {
        self.polled = true;
        let ghost q = self.pending@;
        let ghost sup = self.suppressed;
        let mut i: usize = 0;
        while i < self.pending.len()
            invariant
                self.pending@ == q,
                self.suppressed == sup,
                self.polled,
                self.observations == old(self).observations,
                i <= q.len(),
                forall|j: int| 0 <= j < i ==> !deliverable(q[j], sup),
            decreases q.len() - i,
        {
            if is_deliverable(&self.pending[i], self.suppressed) {
                proof {
                    lemma_skip_count_is(q, sup, i as int);
                }
                let out = decode_event(&self.pending[i], &self.observations);
                let tail = self.pending.split_off(i + 1);
                self.pending = tail;
                proof {
                    assert(self.pending@ =~= q.skip(i + 1));
                }
                return out;
            }
            i += 1;
        }
        proof {
            lemma_skip_count_is(q, sup, q.len() as int);
        }
        self.pending.clear();
        Err(Error::Timeout)
    }
}

} // verus!
