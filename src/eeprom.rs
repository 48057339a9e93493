//! The EEPROM write sequence: erase, settle, program, settle and, where asked
//! for, read back and compare. The caller performs each action it is handed and
//! reports back, so the sequence can run against any bus and any clock.
use vstd::prelude::*;
use crate::register_access::{
    read_u16, reply_is_valid, reply_word, write_frame, write_frame_spec,
};
use crate::types::Error;

verus! {

/// Where a write sequence stands.
#[derive(Debug, Clone, Copy, PartialEq, Eq, Structural)]
pub enum NvState {
    /// Nothing sent yet
    Idle,
    /// The erase write was handed out
    Erased,
    /// The delay after the erase was handed out
    EraseSettling,
    /// The program write was handed out
    Written,
    /// The delay after the program write was handed out
    WriteSettling,
    /// The read-back was handed out
    Verifying,
    /// The outcome was handed out
    Finished,
}

/// What the caller reports back.
#[derive(Debug, Clone, Copy, PartialEq, Eq)]
pub enum NvEvent {
    /// Begin the sequence
    Start,
    /// The write or the delay handed out last has been carried out
    Completed,
    /// The three bytes that the read-back of the register returned
    ReadBack([u8; 3]),
}

/// What the caller is to do next.
#[derive(Debug)]
pub enum NvAction<E> {
    /// Write these bytes to the device
    Write(Vec<u8>),
    /// Wait this many milliseconds
    DelayMs(u32),
    /// Read three bytes back from this register
    Read(u8),
    /// The sequence is over, with this outcome
    Finished(Result<(), Error<E>>),
}

/// The meaning of an action, with its bytes as a sequence.
pub enum NvStep<E> {
    Write(Seq<u8>),
    DelayMs(u32),
    Read(u8),
    Finished(Result<(), Error<E>>),
}

impl<E> View for NvAction<E> {
    type V = NvStep<E>;

    open spec fn view(&self) -> NvStep<E> {
        match self {
            NvAction::Write(b) => NvStep::Write(b@),
            NvAction::DelayMs(ms) => NvStep::DelayMs(*ms),
            NvAction::Read(reg) => NvStep::Read(*reg),
            NvAction::Finished(r) => NvStep::Finished(*r),
        }
    }
}

/// A pending write of `value` to the EEPROM register `register`.
pub struct NvWrite {
    pub address: u8,
    pub register: u8,
    pub value: u16,
    pub settle_ms: u8,
    pub verify: bool,
    pub state: NvState,
}

/// The outcome of comparing a read-back with the value written.
pub open spec fn verify_outcome<E>(w: NvWrite, reply: Seq<u8>) -> Result<(), Error<E>> {
    if !reply_is_valid(w.address, w.register, reply) {
        Err(Error::ChecksumMismatch)
    } else if reply_word(reply) != w.value {
        Err(Error::BadEepromWrite)
    } else {
        Ok(())
    }
}

/// The transition table: the next state and the action, for each state and event.
/// An event that does not fit the state ends the sequence as invalid input.
pub open spec fn transition<E>(w: NvWrite, event: NvEvent) -> (NvState, NvStep<E>) {
    match (w.state, event) {
        (NvState::Idle, NvEvent::Start) => (
            NvState::Erased,
            NvStep::Write(write_frame_spec(w.address, w.register, 0)),
        ),
        (NvState::Erased, NvEvent::Completed) => (
            NvState::EraseSettling,
            NvStep::DelayMs(w.settle_ms as u32),
        ),
        (NvState::EraseSettling, NvEvent::Completed) => (
            NvState::Written,
            NvStep::Write(write_frame_spec(w.address, w.register, w.value)),
        ),
        (NvState::Written, NvEvent::Completed) => (
            NvState::WriteSettling,
            NvStep::DelayMs(w.settle_ms as u32),
        ),
        (NvState::WriteSettling, NvEvent::Completed) => if w.verify {
            (NvState::Verifying, NvStep::Read(w.register))
        } else {
            (NvState::Finished, NvStep::Finished(Ok(())))
        },
        (NvState::Verifying, NvEvent::ReadBack(reply)) => (
            NvState::Finished,
            NvStep::Finished(verify_outcome(w, reply@)),
        ),
        _ => (NvState::Finished, NvStep::Finished(Err(Error::InvalidInputData))),
    }
}

impl NvWrite {
    /// A sequence that has not started.
    pub open spec fn is_fresh(self, address: u8, register: u8, value: u16, settle_ms: u8, verify: bool) -> bool {
        &&& self.address == address
        &&& self.register == register
        &&& self.value == value
        &&& self.settle_ms == settle_ms
        &&& self.verify == verify
        &&& self.state == NvState::Idle
    }

    /// A sequence that writes `value` to `register` of the device at `address`.
    pub fn new(address: u8, register: u8, value: u16, settle_ms: u8, verify: bool) -> (r: NvWrite)
        ensures
            r.is_fresh(address, register, value, settle_ms, verify),
    {
        NvWrite { address, register, value, settle_ms, verify, state: NvState::Idle }
    }

    /// Takes in what the caller reports and hands out what to do next.
    pub fn step<E>(&mut self, event: NvEvent) -> (r: NvAction<E>)
        ensures
            final(self).state == transition::<E>(*old(self), event).0,
            r@ == transition::<E>(*old(self), event).1,
            final(self).address == old(self).address,
            final(self).register == old(self).register,
            final(self).value == old(self).value,
            final(self).settle_ms == old(self).settle_ms,
            final(self).verify == old(self).verify,
    {
        match (self.state, event) {
            (NvState::Idle, NvEvent::Start) => {
                self.state = NvState::Erased;
                NvAction::Write(write_frame(self.address, self.register, 0))
            },
            (NvState::Erased, NvEvent::Completed) => {
                self.state = NvState::EraseSettling;
                NvAction::DelayMs(self.settle_ms as u32)
            },
            (NvState::EraseSettling, NvEvent::Completed) => {
                self.state = NvState::Written;
                NvAction::Write(write_frame(self.address, self.register, self.value))
            },
            (NvState::Written, NvEvent::Completed) => {
                self.state = NvState::WriteSettling;
                NvAction::DelayMs(self.settle_ms as u32)
            },
            (NvState::WriteSettling, NvEvent::Completed) => {
                if self.verify {
                    self.state = NvState::Verifying;
                    NvAction::Read(self.register)
                } else {
                    self.state = NvState::Finished;
                    NvAction::Finished(Ok(()))
                }
            },
            (NvState::Verifying, NvEvent::ReadBack(reply)) => {
                self.state = NvState::Finished;
                let outcome = match read_u16::<E>(self.address, self.register, reply) {
                    Ok(word) => if word == self.value {
                        Ok(())
                    } else {
                        Err(Error::BadEepromWrite)
                    },
                    Err(e) => Err(e),
                };
                NvAction::Finished(outcome)
            },
            _ => {
                self.state = NvState::Finished;
                NvAction::Finished(Err(Error::InvalidInputData))
            },
        }
    }
}

/// The actions that a run of the machine hands out for a list of events.
pub open spec fn run<E>(w: NvWrite, events: Seq<NvEvent>) -> Seq<NvStep<E>>
    decreases events.len(),
{
    if events.len() == 0 {
        seq![]
    } else {
        let (next, step) = transition::<E>(w, events[0]);
        seq![step].add(run::<E>(NvWrite { state: next, ..w }, events.drop_first()))
    }
}

/// The events of a sequence run with a read-back at the end.
pub open spec fn verified_events(reply: [u8; 3]) -> Seq<NvEvent> {
    seq![
        NvEvent::Start,
        NvEvent::Completed,
        NvEvent::Completed,
        NvEvent::Completed,
        NvEvent::Completed,
        NvEvent::ReadBack(reply),
    ]
}

/// The events of a sequence run without a read-back.
pub open spec fn unverified_events() -> Seq<NvEvent> {
    seq![
        NvEvent::Start,
        NvEvent::Completed,
        NvEvent::Completed,
        NvEvent::Completed,
        NvEvent::Completed,
    ]
}

/// A fresh sequence with read-back hands out, in this order: the erase write,
/// the settle delay, the program write, the settle delay, the read-back of the
/// register and its outcome.
pub proof fn lemma_verified_sequence<E>(w: NvWrite, reply: [u8; 3])
    requires
        w.state == NvState::Idle,
        w.verify,
    ensures
        run::<E>(w, verified_events(reply)) == seq![
            NvStep::<E>::Write(write_frame_spec(w.address, w.register, 0)),
            NvStep::<E>::DelayMs(w.settle_ms as u32),
            NvStep::<E>::Write(write_frame_spec(w.address, w.register, w.value)),
            NvStep::<E>::DelayMs(w.settle_ms as u32),
            NvStep::<E>::Read(w.register),
            NvStep::<E>::Finished(verify_outcome::<E>(w, reply@)),
        ],
{
    let ev = verified_events(reply);
    reveal_with_fuel(run, 7);
    assert(ev.drop_first() =~= seq![NvEvent::Completed, NvEvent::Completed, NvEvent::Completed, NvEvent::Completed, NvEvent::ReadBack(reply)]);
    assert(ev.drop_first().drop_first() =~= seq![NvEvent::Completed, NvEvent::Completed, NvEvent::Completed, NvEvent::ReadBack(reply)]);
    assert(ev.drop_first().drop_first().drop_first() =~= seq![NvEvent::Completed, NvEvent::Completed, NvEvent::ReadBack(reply)]);
    assert(ev.drop_first().drop_first().drop_first().drop_first() =~= seq![NvEvent::Completed, NvEvent::ReadBack(reply)]);
    assert(ev.drop_first().drop_first().drop_first().drop_first().drop_first() =~= seq![NvEvent::ReadBack(reply)]);
    assert(ev.drop_first().drop_first().drop_first().drop_first().drop_first().drop_first() =~= seq![]);
    assert(run::<E>(w, ev) =~= seq![
        NvStep::<E>::Write(write_frame_spec(w.address, w.register, 0)),
        NvStep::<E>::DelayMs(w.settle_ms as u32),
        NvStep::<E>::Write(write_frame_spec(w.address, w.register, w.value)),
        NvStep::<E>::DelayMs(w.settle_ms as u32),
        NvStep::<E>::Read(w.register),
        NvStep::<E>::Finished(verify_outcome::<E>(w, reply@)),
    ]);
}

/// A fresh sequence without read-back hands out, in this order: the erase
/// write, the settle delay, the program write, the settle delay and success.
pub proof fn lemma_unverified_sequence<E>(w: NvWrite)
    requires
        w.state == NvState::Idle,
        !w.verify,
    ensures
        run::<E>(w, unverified_events()) == seq![
            NvStep::<E>::Write(write_frame_spec(w.address, w.register, 0)),
            NvStep::<E>::DelayMs(w.settle_ms as u32),
            NvStep::<E>::Write(write_frame_spec(w.address, w.register, w.value)),
            NvStep::<E>::DelayMs(w.settle_ms as u32),
            NvStep::<E>::Finished(Ok(())),
        ],
{
    let ev = unverified_events();
    reveal_with_fuel(run, 6);
    assert(ev.drop_first() =~= seq![NvEvent::Completed, NvEvent::Completed, NvEvent::Completed, NvEvent::Completed]);
    assert(ev.drop_first().drop_first() =~= seq![NvEvent::Completed, NvEvent::Completed, NvEvent::Completed]);
    assert(ev.drop_first().drop_first().drop_first() =~= seq![NvEvent::Completed, NvEvent::Completed]);
    assert(ev.drop_first().drop_first().drop_first().drop_first() =~= seq![NvEvent::Completed]);
    assert(ev.drop_first().drop_first().drop_first().drop_first().drop_first() =~= seq![]);
    assert(run::<E>(w, ev) =~= seq![
        NvStep::<E>::Write(write_frame_spec(w.address, w.register, 0)),
        NvStep::<E>::DelayMs(w.settle_ms as u32),
        NvStep::<E>::Write(write_frame_spec(w.address, w.register, w.value)),
        NvStep::<E>::DelayMs(w.settle_ms as u32),
        NvStep::<E>::Finished(Ok(())),
    ]);
}

} // verus!
