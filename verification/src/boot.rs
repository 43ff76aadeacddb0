//! The order in which boot code brings interrupts up: the table is loaded
//! into the processor, then the interrupt controllers are initialized, then
//! interrupts are enabled. Each step is taken once, and none out of turn.

use vstd::prelude::*;
use crate::idt::ConfigError;

verus! {

/// One step of bringing interrupts up.
#[derive(Debug, Copy, Clone, Eq, PartialEq, Structural)]
pub enum BootStep {
    /// Load the built interrupt descriptor table into the processor.
    LoadTable,
    /// Program the chained interrupt controllers with their vector offset.
    InitializeController,
    /// Let hardware interrupts reach the processor.
    EnableInterrupts,
}

/// How far boot code has come.
#[derive(Debug, Copy, Clone, Eq, PartialEq, Structural)]
pub enum BootStage {
    /// Nothing is done yet.
    TableUnloaded,
    /// The table is loaded.
    TableLoaded,
    /// The table is loaded and the controllers are initialized.
    ControllerReady,
    /// Interrupts are enabled: handlers may run at any time.
    InterruptsEnabled,
}

impl BootStage {
    /// The step that is due at this stage; none once interrupts are enabled.
    pub open spec fn due(self) -> Option<BootStep> {
        match self {
            BootStage::TableUnloaded => Some(BootStep::LoadTable),
            BootStage::TableLoaded => Some(BootStep::InitializeController),
            BootStage::ControllerReady => Some(BootStep::EnableInterrupts),
            BootStage::InterruptsEnabled => None,
        }
    }

    /// The stage that follows this one.
    pub open spec fn following(self) -> BootStage {
        match self {
            BootStage::TableUnloaded => BootStage::TableLoaded,
            BootStage::TableLoaded => BootStage::ControllerReady,
            BootStage::ControllerReady => BootStage::InterruptsEnabled,
            BootStage::InterruptsEnabled => BootStage::InterruptsEnabled,
        }
    }

    /// The stage after `step` was taken at this stage; `None` where the step is not due.
    pub open spec fn after(self, step: BootStep) -> Option<BootStage> {
        if self.due() == Some(step) {
            Some(self.following())
        } else {
            None
        }
    }

    /// The stage after all of `steps` were taken in order from this stage;
    /// `None` where one of them was not due.
    pub open spec fn after_all(self, steps: Seq<BootStep>) -> Option<BootStage>
        decreases steps.len(),
    {
        if steps.len() == 0 {
            Some(self)
        } else {
            match self.after(steps[0]) {
                Some(stage) => stage.after_all(steps.drop_first()),
                None => None,
            }
        }
    }

    /// The stage at which boot code starts.
    pub fn start() -> (stage: BootStage)
        ensures
            stage == BootStage::TableUnloaded,
    {
        BootStage::TableUnloaded
    }

    /// The step to take next, if one is left.
    pub fn next_step(self) -> (step: Option<BootStep>)
        ensures
            step == self.due(),
    {
        match self {
            BootStage::TableUnloaded => Some(BootStep::LoadTable),
            BootStage::TableLoaded => Some(BootStep::InitializeController),
            BootStage::ControllerReady => Some(BootStep::EnableInterrupts),
            BootStage::InterruptsEnabled => None,
        }
    }

    /// Records that `step` was taken. A step that is not due is refused: a
    /// second load of the table, or anything out of turn.
    pub fn advance(self, step: BootStep) -> (result: Result<BootStage, ConfigError>)
        ensures
            result is Ok <==> self.due() == Some(step),
            result matches Ok(stage) ==> Some(stage) == self.after(step),
            result matches Err(error) ==> error == ConfigError::StepOutOfOrder,
    {
        match (self, step) {
            (BootStage::TableUnloaded, BootStep::LoadTable) => Ok(BootStage::TableLoaded),
            (BootStage::TableLoaded, BootStep::InitializeController) => Ok(
                BootStage::ControllerReady,
            ),
            (BootStage::ControllerReady, BootStep::EnableInterrupts) => Ok(
                BootStage::InterruptsEnabled,
            ),
            _ => Err(ConfigError::StepOutOfOrder),
        }
    }
}

/// The steps that were accepted from the start with interrupts enabled at
/// the end are the three steps in their order: the table was loaded exactly
/// once, and before interrupts were enabled.
pub proof fn enabled_only_after_one_load(steps: Seq<BootStep>)
    requires
        BootStage::TableUnloaded.after_all(steps) == Some(BootStage::InterruptsEnabled),
    ensures
        steps =~= seq![BootStep::LoadTable, BootStep::InitializeController, BootStep::EnableInterrupts],
{
    let first = steps;
    assert(first.len() > 0);
    let second = first.drop_first();
    assert(first[0] == BootStep::LoadTable);
    assert(BootStage::TableLoaded.after_all(second) == Some(BootStage::InterruptsEnabled));
    assert(second.len() > 0);
    let third = second.drop_first();
    assert(second[0] == BootStep::InitializeController);
    assert(BootStage::ControllerReady.after_all(third) == Some(BootStage::InterruptsEnabled));
    assert(third.len() > 0);
    let rest = third.drop_first();
    assert(third[0] == BootStep::EnableInterrupts);
    assert(BootStage::InterruptsEnabled.after_all(rest) == Some(BootStage::InterruptsEnabled));
    assert(rest.len() == 0);
}

} // verus!
