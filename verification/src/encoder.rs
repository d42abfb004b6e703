//! The command encoder: it turns commands and raw register writes into bus
//! transactions and keeps them, with pin changes and waits, in issue order.

use vstd::prelude::*;
use vstd::slice::slice_to_vec;
use crate::color::wire_bytes;
use crate::dcs::Command;

verus! {

/// One thing a driver does to the outside world, as contracts speak of it.
pub enum Action {
    /// Drive the reset pin low.
    PinLow,
    /// Drive the reset pin high.
    PinHigh,
    /// Block for this many microseconds.
    DelayUs(u32),
    /// One command phase carrying `opcode`, then one data phase carrying
    /// `params` unless `params` is empty.
    Write { opcode: u8, params: Seq<u8> },
    /// One data phase carrying `words`, each most significant byte first.
    Pixels { words: Seq<u16> },
}

/// An opcode with its payload.
#[derive(Clone, Debug, PartialEq, Eq)]
pub struct Transaction {
    pub opcode: u8,
    pub params: Vec<u8>,
}

/// One thing a driver does to the outside world, as the caller performs it.
#[derive(Clone, Debug, PartialEq, Eq)]
pub enum Step {
    PinLow,
    PinHigh,
    DelayUs(u32),
    Write(Transaction),
    Pixels(Vec<u16>),
}

impl View for Step {
    type V = Action;

    open spec fn view(&self) -> Action {
        match *self {
            Step::PinLow => Action::PinLow,
            Step::PinHigh => Action::PinHigh,
            Step::DelayUs(us) => Action::DelayUs(us),
            Step::Write(t) => Action::Write { opcode: t.opcode, params: t.params@ },
            Step::Pixels(w) => Action::Pixels { words: w@ },
        }
    }
}

/// One transfer on the bus.
pub enum Phase {
    /// A command phase carrying one opcode.
    Command(u8),
    /// A data phase carrying these bytes.
    Data(Seq<u8>),
}

/// The bus transfers that performing `action` makes, in order.  A write is
/// one command phase and, unless it has no payload, one data phase after it;
/// pixels are one data phase; pin changes and waits leave the bus alone.
pub open spec fn bus_phases(action: Action) -> Seq<Phase> {
    match action {
        Action::Write { opcode, params } => if params.len() == 0 {
            seq![Phase::Command(opcode)]
        } else {
            seq![Phase::Command(opcode), Phase::Data(params)]
        },
        Action::Pixels { words } => seq![Phase::Data(wire_bytes(words))],
        _ => Seq::empty(),
    }
}

/// A write makes exactly one command phase, which comes first and carries
/// the opcode, and at most one data phase, which carries the whole payload
/// and is left out only where there is no payload.
pub proof fn lemma_write_phases(opcode: u8, params: Seq<u8>)
    ensures
        ({
            let phases = bus_phases(Action::Write { opcode, params });
            &&& phases[0] == Phase::Command(opcode)
            &&& phases.len() == if params.len() == 0 { 1nat } else { 2nat }
            &&& params.len() > 0 ==> phases[1] == Phase::Data(params)
        }),
{
}

impl Transaction {
    /// The payload to send in a data phase after the command phase; `None`
    /// where the transaction has no data phase.
    pub fn data_phase(&self) -> (data: Option<&Vec<u8>>)
        ensures
            data.is_some() == (self.params@.len() > 0),
            data.is_some() ==> data.unwrap()@ == self.params@,
            bus_phases(Action::Write { opcode: self.opcode, params: self.params@ }) == (match data {
                Some(d) => seq![Phase::Command(self.opcode), Phase::Data(d@)],
                None => seq![Phase::Command(self.opcode)],
            }),
    {
        if self.params.len() == 0 {
            None
        } else {
            Some(&self.params)
        }
    }
}

/// The actions a sequence of steps stands for.
pub open spec fn actions(steps: Seq<Step>) -> Seq<Action> {
    steps.map_values(|s: Step| s@)
}

/// The action of sending `cmd`.
pub open spec fn command_action(cmd: Command) -> Action {
    Action::Write { opcode: cmd.opcode(), params: cmd.params() }
}

/// The encoder.  Its view is the sequence of actions laid out so far.
pub struct Dcs {
    pub steps: Vec<Step>,
}

impl View for Dcs {
    type V = Seq<Action>;

    open spec fn view(&self) -> Seq<Action> {
        actions(self.steps@)
    }
}

impl Dcs {
    pub fn new() -> (d: Dcs)
        ensures
            d@ == Seq::<Action>::empty(),
    {
        let d = Dcs { steps: Vec::new() };
        assert(d@ =~= Seq::<Action>::empty());
        d
    }

    fn emit(&mut self, step: Step)
        ensures
            final(self)@ == old(self)@.push(step@),
    {
        self.steps.push(step);
        assert(self@ =~= old(self)@.push(step@));
    }

    /// Lays out a command of the standard set: one transaction with the
    /// command's opcode and its encoded arguments.
    pub fn write_command(&mut self, cmd: Command)
        ensures
            final(self)@ == old(self)@.push(command_action(cmd)),
    {
        let t = Transaction { opcode: cmd.instruction(), params: cmd.param_bytes() };
        self.emit(Step::Write(t));
    }

    /// Lays out a write to a vendor register: one transaction with `opcode`
    /// and `bytes` as they are.
    pub fn write_raw(&mut self, opcode: u8, bytes: &[u8])
        ensures
            final(self)@ == old(self)@.push(Action::Write { opcode, params: bytes@ }),
    {
        let t = Transaction { opcode, params: slice_to_vec(bytes) };
        self.emit(Step::Write(t));
    }

    /// Lays out one data phase of pixel words.
    pub fn send_pixels(&mut self, words: Vec<u16>)
        ensures
            final(self)@ == old(self)@.push(Action::Pixels { words: words@ }),
    {
        self.emit(Step::Pixels(words));
    }

    /// Lays out a blocking wait.
    pub fn delay_us(&mut self, us: u32)
        ensures
            final(self)@ == old(self)@.push(Action::DelayUs(us)),
    {
        self.emit(Step::DelayUs(us));
    }

    /// Lays out driving the reset pin low.
    pub fn set_pin_low(&mut self)
        ensures
            final(self)@ == old(self)@.push(Action::PinLow),
    {
        self.emit(Step::PinLow);
    }

    /// Lays out driving the reset pin high.
    pub fn set_pin_high(&mut self)
        ensures
            final(self)@ == old(self)@.push(Action::PinHigh),
    {
        self.emit(Step::PinHigh);
    }

    /// Hands the steps over, in the order they were laid out.
    pub fn into_steps(self) -> (steps: Vec<Step>)
        ensures
            actions(steps@) == self@,
    {
        self.steps
    }
}

} // verus!
