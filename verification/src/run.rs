//! Carrying a laid-out sequence of steps through: the caller performs the
//! current step and reports whether it went well; the run decides what comes
//! next.  A failed step ends the run for good.

use vstd::prelude::*;
use crate::dcs::SetAddressMode;
use crate::encoder::{actions, Action, Step};
use crate::error::{Error, InitError};

verus! {

/// What a failed step was doing.
#[derive(Clone, Copy, Debug, PartialEq, Eq, Structural)]
pub enum Fault {
    /// A bus transfer.
    Bus,
    /// A change of the reset pin.
    Pin,
}

/// The fault that a failure of `action` is: a pin fault for a pin change, a
/// bus fault for everything else.
pub open spec fn fault_of(action: Action) -> Fault {
    match action {
        Action::PinLow => Fault::Pin,
        Action::PinHigh => Fault::Pin,
        _ => Fault::Bus,
    }
}

/// A run as contracts see it.
pub struct RunState {
    /// Everything the run was set up to do, in order.
    pub plan: Seq<Action>,
    /// How many actions of the plan were handed out and reported on.
    pub issued: nat,
    /// The fault that ended the run, if one did.
    pub fault: Option<Fault>,
}

impl RunState {
    /// The state before anything was issued.
    pub open spec fn start(plan: Seq<Action>) -> RunState {
        RunState { plan, issued: 0, fault: None }
    }

    /// Nothing more will be issued.
    pub open spec fn finished(self) -> bool {
        self.fault.is_some() || self.issued >= self.plan.len()
    }

    /// The action to perform now.
    pub open spec fn current(self) -> Option<Action> {
        if self.finished() {
            None
        } else {
            Some(self.plan[self.issued as int])
        }
    }

    /// The actions that were handed out so far, the failed one included.
    pub open spec fn trace(self) -> Seq<Action> {
        self.plan.take(self.issued as int)
    }

    /// The state after the current action was reported on.  A finished run
    /// does not change.
    pub open spec fn step(self, ok: bool) -> RunState {
        if self.finished() {
            self
        } else {
            RunState {
                plan: self.plan,
                issued: self.issued + 1,
                fault: if ok {
                    None
                } else {
                    Some(fault_of(self.plan[self.issued as int]))
                },
            }
        }
    }

    /// The state after a series of reports.
    pub open spec fn steps(self, reports: Seq<bool>) -> RunState
        decreases reports.len(),
    {
        if reports.len() == 0 {
            self
        } else {
            self.steps(reports.drop_last()).step(reports.last())
        }
    }

    /// How the run ended: `None` while it is under way.
    pub open spec fn outcome(self) -> Option<Result<(), Fault>> {
        match self.fault {
            Some(f) => Some(Err(f)),
            None => if self.issued >= self.plan.len() {
                Some(Ok(()))
            } else {
                None
            },
        }
    }
}

/// A failed run stays as it is whatever is reported to it afterwards.
pub proof fn lemma_failed_run_is_final(s: RunState, reports: Seq<bool>)
    requires
        s.fault.is_some(),
    ensures
        s.steps(reports) == s,
    decreases reports.len(),
{
    if reports.len() > 0 {
        lemma_failed_run_is_final(s, reports.drop_last());
    }
}

/// A failure of any one step ends the run at once: when the first `k` steps
/// of a plan went well and the next one fails, the run has issued exactly
/// those `k + 1` actions, its outcome is the fault of the failed step, it has
/// no current action, and no later report changes any of that.
pub proof fn lemma_failure_aborts(plan: Seq<Action>, k: nat, later: Seq<bool>)
    requires
        k < plan.len(),
    ensures
        ({
            let failed = RunState::start(plan).steps(Seq::new(k, |i: int| true).push(false));
            &&& failed.trace() == plan.take(k + 1 as int)
            &&& failed.outcome() == Some(Err::<(), Fault>(fault_of(plan[k as int])))
            &&& failed.current() is None
            &&& failed.steps(later) == failed
            &&& failed.steps(later).trace() == plan.take(k + 1 as int)
        }),
{
    let oks = Seq::new(k, |i: int| true);
    lemma_all_well(plan, k);
    assert(oks.push(false).drop_last() =~= oks);
    let failed = RunState::start(plan).steps(oks.push(false));
    assert(failed == RunState::start(plan).steps(oks).step(false));
    lemma_failed_run_is_final(failed, later);
}

/// While every step goes well the run walks the plan in order: after `k`
/// good reports it has issued the first `k` actions and no fault stands.
pub proof fn lemma_all_well(plan: Seq<Action>, k: nat)
    requires
        k <= plan.len(),
    ensures
        RunState::start(plan).steps(Seq::new(k, |i: int| true)) == (RunState {
            plan,
            issued: k,
            fault: None,
        }),
    decreases k,
{
    let oks = Seq::new(k, |i: int| true);
    if k > 0 {
        lemma_all_well(plan, (k - 1) as nat);
        assert(oks.drop_last() =~= Seq::new((k - 1) as nat, |i: int| true));
    }
}

/// A run whose every step goes well issues the whole plan, in order, and
/// ends in success.
pub proof fn lemma_all_well_succeeds(plan: Seq<Action>)
    ensures
        ({
            let done = RunState::start(plan).steps(Seq::new(plan.len(), |i: int| true));
            &&& done.trace() == plan
            &&& done.outcome() == Some(Ok::<(), Fault>(()))
            &&& done.current() is None
        }),
{
    lemma_all_well(plan, plan.len());
    assert(plan.take(plan.len() as int) =~= plan);
}

/// A run over concrete steps.
pub struct Run {
    pub steps: Vec<Step>,
    pub pos: usize,
    pub fault: Option<Fault>,
}

impl View for Run {
    type V = RunState;

    open spec fn view(&self) -> RunState {
        RunState { plan: actions(self.steps@), issued: self.pos as nat, fault: self.fault }
    }
}

impl Run {
    /// A run that has yet to issue the first of `steps`.
    pub fn new(steps: Vec<Step>) -> (run: Run)
        ensures
            run@ == RunState::start(actions(steps@)),
    {
        Run { steps, pos: 0, fault: None }
    }

    /// The step to perform now; `None` once the run is finished.
    pub fn current(&self) -> (step: Option<&Step>)
        ensures
            match step {
                Some(s) => self@.current() == Some(s@),
                None => self@.current() is None,
            },
    {
        if self.fault.is_some() || self.pos >= self.steps.len() {
            None
        } else {
            Some(&self.steps[self.pos])
        }
    }

    /// Takes the report on the current step: `ok` tells whether it went well.
    pub fn report(&mut self, ok: bool)
        ensures
            final(self)@ == old(self)@.step(ok),
    {
        if self.fault.is_some() || self.pos >= self.steps.len() {
            return ;
        }
        if !ok {
            let fault = match &self.steps[self.pos] {
                Step::PinLow => Fault::Pin,
                Step::PinHigh => Fault::Pin,
                _ => Fault::Bus,
            };
            self.fault = Some(fault);
        }
        self.pos = self.pos + 1;
    }

    /// The result of a steady-state run: `None` while steps remain, success
    /// once every step went well, the error once one failed.
    pub fn result(&self) -> (r: Option<Result<(), Error>>)
        ensures
            r == write_result_of(self@),
    {
        match self.outcome() {
            None => None,
            Some(Ok(_)) => Some(Ok(())),
            Some(Err(_)) => Some(Err(Error::DisplayError)),
        }
    }

    /// How the run ended; `None` while it is under way.
    pub fn outcome(&self) -> (r: Option<Result<(), Fault>>)
        ensures
            r == self@.outcome(),
    {
        match self.fault {
            Some(f) => Some(Err(f)),
            None => if self.pos >= self.steps.len() {
                Some(Ok(()))
            } else {
                None
            },
        }
    }
}

/// The result of a bring-up run in state `s` that programs `madctl`.
pub open spec fn init_result_of(s: RunState, madctl: SetAddressMode) -> Option<
    Result<SetAddressMode, InitError>,
> {
    match s.outcome() {
        None => None,
        Some(Ok(_)) => Some(Ok(madctl)),
        Some(Err(fault)) => Some(Err(init_error_of(fault))),
    }
}

/// The result of a steady-state run in state `s`.
pub open spec fn write_result_of(s: RunState) -> Option<Result<(), Error>> {
    match s.outcome() {
        None => None,
        Some(Ok(_)) => Some(Ok(())),
        Some(Err(_)) => Some(Err(Error::DisplayError)),
    }
}

/// The error that a fault is during bring-up.
pub open spec fn init_error_of(fault: Fault) -> InitError {
    match fault {
        Fault::Bus => InitError::DisplayError,
        Fault::Pin => InitError::Pin,
    }
}

/// Bring-up whose every step goes well returns the address mode it was set
/// up with.  Bring-up in which one step fails returns an error at once, and
/// keeps returning it: the error of the bus for a failed transfer, the error
/// of the pin for a failed pin change, whatever is reported afterwards.
pub proof fn lemma_bring_up_result(
    plan: Seq<Action>,
    madctl: SetAddressMode,
    k: nat,
    later: Seq<bool>,
)
    requires
        k < plan.len(),
    ensures
        init_result_of(
            RunState::start(plan).steps(Seq::new(plan.len(), |i: int| true)),
            madctl,
        ) == Some(Ok::<SetAddressMode, InitError>(madctl)),
        init_result_of(
            RunState::start(plan).steps(Seq::new(k, |i: int| true).push(false)).steps(later),
            madctl,
        ) == Some(Err::<SetAddressMode, InitError>(init_error_of(fault_of(plan[k as int])))),
{
    lemma_all_well_succeeds(plan);
    lemma_failure_aborts(plan, k, later);
}

/// A bring-up under way: the run and the address mode it programs.
pub struct InitRun {
    pub run: Run,
    pub madctl: SetAddressMode,
}

impl InitRun {
    /// The step to perform now; `None` once bring-up is finished.
    pub fn current(&self) -> (step: Option<&Step>)
        ensures
            match step {
                Some(s) => self.run@.current() == Some(s@),
                None => self.run@.current() is None,
            },
    {
        self.run.current()
    }

    /// Takes the report on the current step: `ok` tells whether it went well.
    pub fn report(&mut self, ok: bool)
        ensures
            final(self).run@ == old(self).run@.step(ok),
            final(self).madctl == old(self).madctl,
    {
        self.run.report(ok);
    }

    /// The result of bring-up: `None` while steps remain, the address mode
    /// once every step went well, the error once one failed.
    pub fn result(&self) -> (r: Option<Result<SetAddressMode, InitError>>)
        ensures
            r == init_result_of(self.run@, self.madctl),
    {
        match self.run.outcome() {
            None => None,
            Some(Ok(_)) => Some(Ok(self.madctl)),
            Some(Err(Fault::Bus)) => Some(Err(InitError::DisplayError)),
            Some(Err(Fault::Pin)) => Some(Err(InitError::Pin)),
        }
    }
}

} // verus!
