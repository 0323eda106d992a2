//! The cross-core command dispatch protocol.
//!
//! A gateway and an actuator share a pair of single-word slots (one per
//! direction) and strictly alternate: the gateway writes a command word and
//! blocks; the actuator takes the word, resolves it, pulses the resolved
//! line for its duration (or does nothing for an unknown code), and writes
//! the acknowledgment token; only then does the gateway resume. `Dispatcher`
//! is the verified model of that discipline: its step functions are the
//! legal moves of the two sides, `ProtocolState::wf` is the alternation
//! invariant every move preserves, and the actuation log records each
//! completed pulse (assert, hold, deassert — a logged pulse has returned
//! its line to the inactive level).
//!
//! Time is modeled by a millisecond clock that advances only while the
//! actuator holds a line, which is exactly the interval the gateway spends
//! blocked on the acknowledgment.
//!
//! The design accepts any acknowledgment value without validation; that
//! permissiveness is kept here, not tightened: `gateway_take_ack` checks
//! nothing about the token it takes. Within the model the actuator only
//! ever sends `TASK_COMPLETE`, and the invariant records that.

use vstd::prelude::*;
use crate::TASK_COMPLETE;
use crate::actions::{Durations, Line, spec_resolve_with, resolve_with};
use crate::codec::{spec_normalized, spec_word_be};
use crate::gateway::plan_chunk;

verus! {

/// The gateway's phase: polling the transport, or blocked on the
/// acknowledgment of a dispatched word.
#[derive(Clone, Copy, Debug, PartialEq, Eq, Structural)]
pub enum GatewayPhase {
    Listening,
    AwaitingAck,
}

/// The actuator's phase: waiting on the request slot, or handling the one
/// word it accepted.
#[derive(Clone, Copy, Debug, PartialEq, Eq, Structural)]
pub enum ActuatorPhase {
    Idle,
    Busy { code: u32 },
}

/// One completed pulse: `line` was asserted at `start_ms` on the model
/// clock, held for `duration_ms`, then deasserted.
#[derive(Clone, Copy, Debug, PartialEq, Eq, Structural)]
pub struct Actuation {
    pub line: Line,
    pub duration_ms: u32,
    pub start_ms: u64,
}

/// The protocol's abstract state: both sides' phases, the status indicator
/// line, the two channel slots, the dispatch and acknowledgment counts,
/// the model clock, the time of the last dispatch, and the log of
/// completed pulses.
#[verifier::ext_equal]
pub struct ProtocolState {
    pub durations: Durations,
    pub gateway: GatewayPhase,
    pub actuator: ActuatorPhase,
    pub indicator: bool,
    pub req_slot: Option<u32>,
    pub ack_slot: Option<u32>,
    pub dispatched: u64,
    pub acked: u64,
    pub now_ms: u64,
    pub dispatch_ms: u64,
    pub log: Seq<Actuation>,
}

impl ProtocolState {
    /// How many words are in flight: a request waiting in its slot, an
    /// actuation running, or an acknowledgment waiting in its slot.
    pub open spec fn in_flight(self) -> int {
        (if self.req_slot is Some { 1int } else { 0int })
        + (if self.actuator is Busy { 1int } else { 0int })
        + (if self.ack_slot is Some { 1int } else { 0int })
    }

    /// The alternation invariant. A listening gateway has nothing in
    /// flight and every dispatch acknowledged; a gateway awaiting its
    /// acknowledgment has exactly one word in flight and exactly one
    /// unacknowledged dispatch. The actuator only ever sends the reserved
    /// token, the status indicator line is asserted exactly while the
    /// actuator is processing a command, and the last dispatch does not
    /// postdate the clock.
    pub open spec fn wf(self) -> bool {
        &&& self.gateway is Listening ==> self.dispatched == self.acked && self.in_flight() == 0
        &&& self.gateway is AwaitingAck ==> self.dispatched == self.acked + 1 && self.in_flight() == 1
        &&& self.ack_slot matches Some(token) ==> token == TASK_COMPLETE
        &&& self.indicator <==> self.actuator is Busy
        &&& self.dispatch_ms <= self.now_ms
    }

    /// The hold duration a word costs: its entry's duration when the table
    /// recognizes it, zero otherwise.
    pub open spec fn duration_of(self, code: u32) -> u64 {
        match spec_resolve_with(self.durations, code) {
            Some(entry) => entry.duration_ms as u64,
            None => 0,
        }
    }

    /// The gateway's move: write the word to the request slot and turn to
    /// waiting, recording the dispatch time.
    pub open spec fn step_dispatch(self, word: u32) -> ProtocolState {
        ProtocolState {
            gateway: GatewayPhase::AwaitingAck,
            req_slot: Some(word),
            dispatched: (self.dispatched + 1) as u64,
            dispatch_ms: self.now_ms,
            ..self
        }
    }

    /// The actuator's first move: drain the request slot, assert the
    /// status indicator, and turn busy on the word found there.
    pub open spec fn step_accept(self) -> ProtocolState {
        ProtocolState {
            actuator: (ActuatorPhase::Busy { code: self.req_slot->0 }),
            indicator: true,
            req_slot: None,
            ..self
        }
    }

    /// The actuator's second move: resolve the code; on a recognized code
    /// pulse the entry's line for its duration (one log record, the clock
    /// advances by the hold), on an unknown code do nothing; either way
    /// turn idle and write the acknowledgment token.
    pub open spec fn step_run(self, code: u32) -> ProtocolState {
        let held = match spec_resolve_with(self.durations, code) {
            Some(entry) => ProtocolState {
                log: self.log.push(Actuation {
                    line: entry.line,
                    duration_ms: entry.duration_ms,
                    start_ms: self.now_ms,
                }),
                now_ms: (self.now_ms + entry.duration_ms) as u64,
                ..self
            },
            None => self,
        };
        ProtocolState {
            actuator: ActuatorPhase::Idle,
            indicator: false,
            ack_slot: Some(TASK_COMPLETE),
            ..held
        }
    }

    /// The gateway's last move: drain the acknowledgment slot, count it,
    /// and resume listening.
    pub open spec fn step_take_ack(self) -> ProtocolState {
        ProtocolState {
            gateway: GatewayPhase::Listening,
            ack_slot: None,
            acked: (self.acked + 1) as u64,
            ..self
        }
    }

    /// One full request-response round: the four moves in their only legal
    /// order.
    pub open spec fn spec_cycle(self, word: u32) -> ProtocolState {
        self.step_dispatch(word).step_accept().step_run(word).step_take_ack()
    }
}

/// The executable model of the protocol. Its methods are the legal moves;
/// each requires the invariant and the phase that makes the move possible,
/// and pins the successor state to the matching spec step.
pub struct Dispatcher {
    pub durations: Durations,
    pub gateway: GatewayPhase,
    pub actuator: ActuatorPhase,
    pub indicator: bool,
    pub req_slot: Option<u32>,
    pub ack_slot: Option<u32>,
    pub dispatched: u64,
    pub acked: u64,
    pub now_ms: u64,
    pub dispatch_ms: u64,
    pub log: Vec<Actuation>,
}

impl View for Dispatcher {
    type V = ProtocolState;

    open spec fn view(&self) -> ProtocolState {
        ProtocolState {
            durations: self.durations,
            gateway: self.gateway,
            actuator: self.actuator,
            indicator: self.indicator,
            req_slot: self.req_slot,
            ack_slot: self.ack_slot,
            dispatched: self.dispatched,
            acked: self.acked,
            now_ms: self.now_ms,
            dispatch_ms: self.dispatch_ms,
            log: self.log@,
        }
    }
}

impl Dispatcher {
    /// The quiescent start: gateway listening, actuator idle, both slots
    /// empty, nothing dispatched, clock at zero, empty log.
    pub fn new(durations: Durations) -> (r: Dispatcher)
        ensures
            r@.wf(),
            r@.durations == durations,
            r@.gateway is Listening,
            r@.actuator is Idle,
            !r@.indicator,
            r@.req_slot is None,
            r@.ack_slot is None,
            r@.dispatched == 0,
            r@.acked == 0,
            r@.now_ms == 0,
            r@.dispatch_ms == 0,
            r@.log == Seq::<Actuation>::empty(),
    {
        Dispatcher {
            durations,
            gateway: GatewayPhase::Listening,
            actuator: ActuatorPhase::Idle,
            indicator: false,
            req_slot: None,
            ack_slot: None,
            dispatched: 0,
            acked: 0,
            now_ms: 0,
            dispatch_ms: 0,
            log: Vec::new(),
        }
    }

    /// Gateway: dispatch one word. Possible only while listening, which by
    /// the invariant means every earlier dispatch has been acknowledged —
    /// the gateway cannot issue a second dispatch before the first one's
    /// acknowledgment.
    pub fn gateway_dispatch(&mut self, word: u32)
        requires
            old(self)@.wf(),
            old(self)@.gateway is Listening,
            old(self)@.dispatched < u64::MAX,
        ensures
            final(self)@ == old(self)@.step_dispatch(word),
            final(self)@.wf(),
    {
        self.gateway = GatewayPhase::AwaitingAck;
        self.req_slot = Some(word);
        self.dispatched = self.dispatched + 1;
        self.dispatch_ms = self.now_ms;
    }

    /// Actuator: take the pending word and turn busy on it.
    pub fn actuator_accept(&mut self) -> (code: u32)
        requires
            old(self)@.wf(),
            old(self)@.req_slot is Some,
        ensures
            code == old(self)@.req_slot->0,
            final(self)@ == old(self)@.step_accept(),
            final(self)@.wf(),
    {
        let code = self.req_slot.unwrap();
        self.req_slot = None;
        self.actuator = ActuatorPhase::Busy { code };
        self.indicator = true;
        code
    }

    /// Actuator: run the command it is busy on — pulse the resolved line
    /// for its duration (unknown codes pulse nothing), then idle and send
    /// the acknowledgment token. The token is sent on every outcome.
    pub fn actuator_run(&mut self, code: u32)
        requires
            old(self)@.wf(),
            old(self)@.actuator == (ActuatorPhase::Busy { code }),
            old(self)@.now_ms + old(self)@.duration_of(code) <= u64::MAX,
        ensures
            final(self)@ == old(self)@.step_run(code),
            final(self)@.wf(),
    {
        let entry = resolve_with(&self.durations, code);
        match entry {
            Some(e) => {
                self.log.push(Actuation {
                    line: e.line,
                    duration_ms: e.duration_ms,
                    start_ms: self.now_ms,
                });
                self.now_ms = self.now_ms + e.duration_ms as u64;
            },
            None => {},
        }
        self.actuator = ActuatorPhase::Idle;
        self.indicator = false;
        self.ack_slot = Some(TASK_COMPLETE);
    }

    /// Gateway: take the acknowledgment and resume listening. Any token
    /// value is accepted without validation (the design distinguishes no
    /// malformed acknowledgment); the invariant shows the model's actuator
    /// only ever sends `TASK_COMPLETE`.
    pub fn gateway_take_ack(&mut self) -> (ack: u32)
        requires
            old(self)@.wf(),
            old(self)@.ack_slot is Some,
        ensures
            ack == old(self)@.ack_slot->0,
            ack == TASK_COMPLETE,
            final(self)@ == old(self)@.step_take_ack(),
            final(self)@.wf(),
    {
        let ack = self.ack_slot.unwrap();
        self.ack_slot = None;
        self.gateway = GatewayPhase::Listening;
        self.acked = self.acked + 1;
        ack
    }

    /// One full round for one word: dispatch, hand over, actuate,
    /// acknowledge. Returns the token the gateway read.
    pub fn dispatch_cycle(&mut self, word: u32) -> (ack: u32)
        requires
            old(self)@.wf(),
            old(self)@.gateway is Listening,
            old(self)@.dispatched < u64::MAX,
            old(self)@.now_ms + old(self)@.duration_of(word) <= u64::MAX,
        ensures
            ack == TASK_COMPLETE,
            final(self)@ == old(self)@.spec_cycle(word),
            final(self)@.wf(),
    {
        self.gateway_dispatch(word);
        let code = self.actuator_accept();
        self.actuator_run(code);
        self.gateway_take_ack()
    }

    /// One gateway poll cycle on one transport chunk: uppercase the bytes
    /// for the echo, and run a full dispatch round exactly when the chunk
    /// is four bytes long. A chunk of any other length changes nothing —
    /// no dispatch, no actuation — but is still echoed.
    pub fn process_chunk(&mut self, chunk: &Vec<u8>) -> (echo: Vec<u8>)
        requires
            old(self)@.wf(),
            old(self)@.gateway is Listening,
            old(self)@.dispatched < u64::MAX,
            old(self)@.now_ms + 0xFFFF_FFFF <= u64::MAX,
        ensures
            echo@ == spec_normalized(chunk@),
            final(self)@.wf(),
            final(self)@.gateway is Listening,
            chunk@.len() == 4 ==> final(self)@ == old(self)@.spec_cycle(spec_word_be(spec_normalized(chunk@))),
            chunk@.len() != 4 ==> final(self)@ == old(self)@,
    {
        let plan = plan_chunk(chunk);
        match plan.dispatch {
            Some(word) => {
                let _ack = self.dispatch_cycle(word);
            },
            None => {},
        }
        plan.echo
    }
}

/// Serialization of dispatches: a cycle starts only from a state in which
/// every dispatch has its acknowledgment, and one cycle produces exactly
/// one new dispatch and exactly one new acknowledgment, ending again with
/// the two counts equal — the gateway never has a second word in flight
/// before the first one's acknowledgment arrived.
pub proof fn lemma_cycle_serialized(s: ProtocolState, word: u32)
    requires
        s.wf(),
        s.gateway is Listening,
        s.dispatched < u64::MAX,
        s.now_ms + s.duration_of(word) <= u64::MAX,
    ensures
        s.dispatched == s.acked,
        s.spec_cycle(word).wf(),
        s.spec_cycle(word).gateway is Listening,
        s.spec_cycle(word).dispatched == s.dispatched + 1,
        s.spec_cycle(word).acked == s.acked + 1,
        s.spec_cycle(word).dispatched == s.spec_cycle(word).acked,
{
}

/// Blocking discipline: while an actuation is running, the gateway is
/// blocked awaiting the acknowledgment and both channel slots are empty,
/// so no further word can be dispatched, handed over, or acknowledged
/// until this one completes.
pub proof fn lemma_busy_blocks_gateway(s: ProtocolState)
    requires
        s.wf(),
        s.actuator is Busy,
    ensures
        s.gateway is AwaitingAck,
        s.indicator,
        s.req_slot is None,
        s.ack_slot is None,
        s.dispatched == s.acked + 1,
{
}

/// The gateway's unavailability window equals the hold duration: the
/// dispatch is stamped with the cycle's start, the clock advances over the
/// cycle by exactly the resolved duration (zero for an unrecognized code),
/// and the acknowledgment is taken at dispatch time plus that duration.
pub proof fn lemma_unavailability_window(s: ProtocolState, word: u32)
    requires
        s.wf(),
        s.gateway is Listening,
        s.dispatched < u64::MAX,
        s.now_ms + s.duration_of(word) <= u64::MAX,
    ensures
        s.spec_cycle(word).dispatch_ms == s.now_ms,
        s.spec_cycle(word).now_ms == s.now_ms + s.duration_of(word),
        s.spec_cycle(word).now_ms - s.spec_cycle(word).dispatch_ms == s.duration_of(word),
{
}

/// Idempotence of a recognized command: two cycles on the same word append
/// two complete pulse records of the same line and the same duration, one
/// starting where the other ended, and each cycle returns the protocol to
/// the same quiescent shape — gateway listening, actuator idle, both slots
/// empty, no line mid-pulse (a logged pulse is a completed
/// assert-hold-deassert).
pub proof fn lemma_dispatch_idempotent(s: ProtocolState, word: u32)
    requires
        s.wf(),
        s.gateway is Listening,
        spec_resolve_with(s.durations, word) is Some,
        s.dispatched + 2 <= u64::MAX,
        s.now_ms + 2 * s.duration_of(word) <= u64::MAX,
    ensures
        ({
            let entry = spec_resolve_with(s.durations, word)->0;
            let once = s.spec_cycle(word);
            let twice = once.spec_cycle(word);
            &&& once.log == s.log.push(Actuation { line: entry.line, duration_ms: entry.duration_ms, start_ms: s.now_ms })
            &&& twice.log == once.log.push(Actuation { line: entry.line, duration_ms: entry.duration_ms, start_ms: once.now_ms })
            &&& twice.log.len() == s.log.len() + 2
            &&& twice.log[s.log.len() as int].line == entry.line
            &&& twice.log[s.log.len() as int].duration_ms == entry.duration_ms
            &&& twice.log[s.log.len() as int + 1].line == entry.line
            &&& twice.log[s.log.len() as int + 1].duration_ms == entry.duration_ms
            &&& once.now_ms == s.now_ms + entry.duration_ms
            &&& twice.now_ms == once.now_ms + entry.duration_ms
            &&& once.wf() && once.gateway is Listening && once.actuator is Idle
            &&& !once.indicator && once.req_slot is None && once.ack_slot is None
            &&& twice.wf() && twice.gateway is Listening && twice.actuator is Idle
            &&& !twice.indicator && twice.req_slot is None && twice.ack_slot is None
        }),
{
}

} // verus!
