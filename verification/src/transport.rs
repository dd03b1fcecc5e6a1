//! The send protocol: register, write, wait, retry, give up.
//!
//! One exchange is driven by a [`SendMachine`]: the caller (outside the
//! library) performs the writes and the timed waits, and reports what
//! happened; the machine decides what comes next. The background reader's
//! one decision — which pending exchange an arriving frame belongs to —
//! is [`route_frame`]. Registration of a fresh exchange, with a ticket
//! naming its delivery channel, is [`register_exchange`].

use vstd::prelude::*;
use crate::correlation::CorrelationTable;
use crate::error::Error;
use crate::frame::Frame;
use crate::frame::spec_header_key;

verus! {

/// How many times one frame is written before the send fails with
/// [`Error::Timeout`].
pub const MAX_SEND_ATTEMPTS: u8 = 3;

/// Where one exchange stands.
pub enum SendState {
    /// The frame should be written (again) to the device.
    NeedWrite,
    /// The frame was written; the caller is waiting for a response or a
    /// timeout.
    AwaitResponse,
    /// The exchange is over, with a response or an error.
    Done(Result<Frame, Error>),
}

/// The state machine of one `send`: a frame, how often it has been
/// written, and where the exchange stands.
pub struct SendMachine {
    /// The 20-byte request frame, rewritten identically on every retry.
    pub frame: Frame,
    /// How many writes have been issued so far.
    pub writes_issued: u8,
    /// Where the exchange stands.
    pub state: SendState,
}

/// A machine for a fresh exchange: nothing written yet.
pub open spec fn spec_new_send(frame: Frame) -> SendMachine {
    SendMachine { frame, writes_issued: 0, state: SendState::NeedWrite }
}

/// One write is handed out: the machine moves to waiting and counts it.
pub open spec fn spec_next_write(m: SendMachine) -> (SendMachine, Option<Frame>) {
    if m.state is NeedWrite {
        (
            SendMachine {
                frame: m.frame,
                writes_issued: (m.writes_issued + 1) as u8,
                state: SendState::AwaitResponse,
            },
            Some(m.frame),
        )
    } else {
        (m, None)
    }
}

/// The wait elapsed without a delivery: retry while attempts remain, fail
/// with a timeout once the last one is used up.
pub open spec fn spec_on_timeout(m: SendMachine) -> SendMachine {
    if m.state is AwaitResponse {
        if m.writes_issued < MAX_SEND_ATTEMPTS {
            SendMachine { frame: m.frame, writes_issued: m.writes_issued, state: SendState::NeedWrite }
        } else {
            SendMachine {
                frame: m.frame,
                writes_issued: m.writes_issued,
                state: SendState::Done(Err(Error::Timeout)),
            }
        }
    } else {
        m
    }
}

/// A matching response was delivered: the exchange is over.
pub open spec fn spec_on_response(m: SendMachine, response: Frame) -> SendMachine {
    if m.state is AwaitResponse {
        SendMachine {
            frame: m.frame,
            writes_issued: m.writes_issued,
            state: SendState::Done(Ok(response)),
        }
    } else {
        m
    }
}

/// A write failed at the device: fatal, no retry.
pub open spec fn spec_on_io_error(m: SendMachine) -> SendMachine {
    if m.state is Done {
        m
    } else {
        SendMachine {
            frame: m.frame,
            writes_issued: m.writes_issued,
            state: SendState::Done(Err(Error::IoError)),
        }
    }
}

impl SendMachine {
    /// The machine never hands out more than the fixed number of writes.
    pub open spec fn inv(&self) -> bool {
        &&& self.writes_issued <= MAX_SEND_ATTEMPTS
        &&& self.state is NeedWrite ==> self.writes_issued < MAX_SEND_ATTEMPTS
    }

    /// Start an exchange for one frame.
    pub fn new(frame: Frame) -> (r: SendMachine)
        ensures
            r == spec_new_send(frame),
            r.inv(),
    {
        SendMachine { frame, writes_issued: 0, state: SendState::NeedWrite }
    }

    /// Hand out the next write, if one is due. The caller writes the
    /// returned frame to the device and then waits for the configured
    /// timeout.
    pub fn next_write(&mut self) -> (r: Option<Frame>)
        requires
            old(self).inv(),
        ensures
            (*final (self), r) == spec_next_write(*old(self)),
            final (self).inv(),
    {
        match self.state {
            SendState::NeedWrite => {
                self.writes_issued = self.writes_issued + 1;
                self.state = SendState::AwaitResponse;
                Some(self.frame)
            },
            _ => None,
        }
    }

    /// The wait elapsed without a delivery.
    pub fn on_timeout(&mut self)
        requires
            old(self).inv(),
        ensures
            *final (self) == spec_on_timeout(*old(self)),
            final (self).inv(),
    {
        match self.state {
            SendState::AwaitResponse => {
                if self.writes_issued < MAX_SEND_ATTEMPTS {
                    self.state = SendState::NeedWrite;
                } else {
                    self.state = SendState::Done(Err(Error::Timeout));
                }
            },
            _ => {},
        }
    }

    /// A response was delivered on this exchange's channel. Only the
    /// frame taken out of the correlation table under this exchange's own
    /// header may be handed in here, so the response's header always
    /// equals the request's.
    pub fn on_response(&mut self, response: Frame)
        requires
            old(self).inv(),
            spec_header_key(response@) == spec_header_key(old(self).frame@),
        ensures
            *final (self) == spec_on_response(*old(self), response),
            final (self).inv(),
    {
        match self.state {
            SendState::AwaitResponse => {
                self.state = SendState::Done(Ok(response));
            },
            _ => {},
        }
    }

    /// A write failed at the device.
    pub fn on_io_error(&mut self)
        requires
            old(self).inv(),
        ensures
            *final (self) == spec_on_io_error(*old(self)),
            final (self).inv(),
    {
        match self.state {
            SendState::Done(_) => {},
            _ => {
                self.state = SendState::Done(Err(Error::IoError));
            },
        }
    }
}

/// All tickets in the table were allocated below the counter.
pub open spec fn tickets_bounded(m: Map<u32, u64>, next: u64) -> bool {
    forall|k: u32| m.dom().contains(k) ==> #[trigger] m[k] < next
}

/// No two pending exchanges share a ticket.
pub open spec fn tickets_injective(m: Map<u32, u64>) -> bool {
    forall|k1: u32, k2: u32|
        m.dom().contains(k1) && m.dom().contains(k2) && k1 != k2 ==> #[trigger] m[k1] != #[trigger] m[k2]
}

/// Try to register an exchange under a header key. While another exchange
/// is pending under the same header nothing happens and the caller must
/// wait and try again; otherwise a fresh ticket is drawn from the counter
/// and the exchange is registered under it.
pub fn register_exchange(table: &mut CorrelationTable, next_ticket: &mut u64, key: u32) -> (r:
    Option<u64>)
    requires
        old(table).wf(),
        *old(next_ticket) < u64::MAX,
        tickets_bounded(old(table)@, *old(next_ticket)),
        tickets_injective(old(table)@),
    ensures
        final (table).wf(),
        tickets_bounded(final (table)@, *final (next_ticket)),
        tickets_injective(final (table)@),
        old(table)@.dom().contains(key) ==> {
            &&& r is None
            &&& final (table)@ == old(table)@
            &&& *final (next_ticket) == *old(next_ticket)
        },
        !old(table)@.dom().contains(key) ==> {
            &&& r == Some(*old(next_ticket))
            &&& final (table)@ == old(table)@.insert(key, *old(next_ticket))
            &&& *final (next_ticket) == *old(next_ticket) + 1
        },
{
    if table.contains(key) {
        None
    } else {
        let ticket = *next_ticket;
        *next_ticket = *next_ticket + 1;
        table.register(key, ticket);
        Some(ticket)
    }
}

/// The background reader's decision for one arriving frame: the pending
/// exchange under the frame's own header gets it and leaves the table; a
/// frame under no pending header is unsolicited and is dropped.
pub fn route_frame(table: &mut CorrelationTable, response: &Frame) -> (r: Option<u64>)
    requires
        old(table).wf(),
    ensures
        final (table).wf(),
        old(table)@.dom().contains(spec_header_key(response@)) ==> {
            &&& r == Some(old(table)@[spec_header_key(response@)])
            &&& final (table)@ == old(table)@.remove(spec_header_key(response@))
        },
        !old(table)@.dom().contains(spec_header_key(response@)) ==> {
            &&& r is None
            &&& final (table)@ == old(table)@
        },
{
    let key = response.header_key();
    table.remove(key)
}

/// Correlation correctness. Take a table in which a waiting exchange is
/// registered under its frame's own header. An arriving frame with that
/// same header is routed to exactly that exchange's ticket, and handing
/// it to the machine completes the exchange with a response whose header
/// equals the request's. An arriving frame with any other header is
/// routed to a different ticket, or to none: it can never reach this
/// exchange's waiter.
pub proof fn lemma_correlation_correctness(m: Map<u32, u64>, machine: SendMachine, arriving: Frame)
    requires
        tickets_injective(m),
        machine.state is AwaitResponse,
        m.dom().contains(spec_header_key(machine.frame@)),
    ensures
        spec_header_key(arriving@) == spec_header_key(machine.frame@) ==> {
            &&& m[spec_header_key(arriving@)] == m[spec_header_key(machine.frame@)]
            &&& spec_on_response(machine, arriving).state == SendState::Done(Ok::<Frame, Error>(
                arriving,
            ))
        },
        spec_header_key(arriving@) != spec_header_key(machine.frame@) && m.dom().contains(
            spec_header_key(arriving@),
        ) ==> m[spec_header_key(arriving@)] != m[spec_header_key(machine.frame@)],
{
}

/// One silent round: the due write is handed out, then the wait times out.
pub open spec fn spec_silent_round(m: SendMachine) -> SendMachine {
    spec_on_timeout(spec_next_write(m).0)
}

/// A number of silent rounds against a device that never responds.
pub open spec fn spec_run_silent(m: SendMachine, rounds: nat) -> SendMachine
    decreases rounds,
{
    if rounds == 0 {
        m
    } else {
        spec_silent_round(spec_run_silent(m, (rounds - 1) as nat))
    }
}

/// The retry bound: against a device that never responds, a send hands
/// out exactly three writes — before each of the three rounds another
/// write is still due — and after the third silent round it has failed
/// with a timeout and hands out no further write.
pub proof fn lemma_retry_bound(frame: Frame)
    ensures
        forall|i: nat|
            i < 3 ==> (#[trigger] spec_run_silent(spec_new_send(frame), i)).state is NeedWrite
                && spec_run_silent(spec_new_send(frame), i).writes_issued == i,
        spec_run_silent(spec_new_send(frame), 3).writes_issued == 3,
        spec_run_silent(spec_new_send(frame), 3).state == SendState::Done(
            Err::<Frame, Error>(Error::Timeout),
        ),
        spec_next_write(spec_run_silent(spec_new_send(frame), 3)).1 is None,
{
    let m0 = spec_new_send(frame);
    assert(spec_run_silent(m0, 0) == m0);
    assert(spec_run_silent(m0, 1) == spec_silent_round(m0));
    assert(spec_run_silent(m0, 2) == spec_silent_round(spec_run_silent(m0, 1)));
    assert(spec_run_silent(m0, 3) == spec_silent_round(spec_run_silent(m0, 2)));
    assert forall|i: nat| i < 3 implies (#[trigger] spec_run_silent(m0, i)).state is NeedWrite
        && spec_run_silent(m0, i).writes_issued == i by {
        if i == 0 {
        } else if i == 1 {
        } else {
            assert(i == 2);
        }
    }
}

} // verus!
