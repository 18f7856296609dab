//! A change of the hotkey, step by step. The caller does the work of each
//! stage, says how it went and is told what follows.

use vstd::prelude::*;
use vstd::string::StringExecFns;

verus! {

/// The stages of a hotkey update, in the order in which they are taken.
#[derive(Clone, Copy, PartialEq, Eq, Structural, Debug)]
pub enum UpdateStage {
    /// Find where the settings are kept, and read them.
    Locate,
    /// Take back every registered shortcut.
    Unregister,
    /// Write the settings with the new hotkey.
    Persist,
    /// Register the new hotkey.
    Register,
}

/// What follows a stage.
#[derive(Debug)]
pub enum Verdict {
    /// Go on with this stage.
    Continue(UpdateStage),
    /// The update has ended with this result.
    Finish(Result<(), String>),
}

/// What to do after a stage.
#[derive(Debug)]
pub struct Step {
    /// A line for the log, where the stage failed and the update goes on
    /// all the same.
    pub log: Option<String>,
    /// What follows.
    pub next: Verdict,
}

/// A verdict as plain texts.
pub enum VerdictView {
    Continue(UpdateStage),
    Finish(Result<(), Seq<char>>),
}

/// A step as plain texts.
pub struct StepView {
    pub log: Option<Seq<char>>,
    pub next: VerdictView,
}

impl View for Verdict {
    type V = VerdictView;

    open spec fn view(&self) -> VerdictView {
        match *self {
            Verdict::Continue(stage) => VerdictView::Continue(stage),
            Verdict::Finish(Ok(())) => VerdictView::Finish(Ok(())),
            Verdict::Finish(Err(message)) => VerdictView::Finish(Err(message@)),
        }
    }
}

impl View for Step {
    type V = StepView;

    open spec fn view(&self) -> StepView {
        StepView {
            log: match self.log {
                Some(line) => Some(line@),
                None => None,
            },
            next: self.next@,
        }
    }
}

/// How a stage went, as plain texts.
pub open spec fn outcome_view(outcome: Result<(), String>) -> Result<(), Seq<char>> {
    match outcome {
        Ok(()) => Ok(()),
        Err(message) => Err(message@),
    }
}

/// What follows a stage, given how it went.
///
/// Without a place for the settings the update ends with an error of its
/// own. A failure to take back the shortcuts is logged and the update goes
/// on. A failure to write the settings ends the update with that failure.
/// A failure to register the new hotkey is logged and the update still ends
/// well.
pub open spec fn step_after(stage: UpdateStage, outcome: Result<(), Seq<char>>) -> StepView {
    match (stage, outcome) {
        (UpdateStage::Locate, Ok(())) => StepView {
            log: None,
            next: VerdictView::Continue(UpdateStage::Unregister),
        },
        (UpdateStage::Locate, Err(_)) => StepView {
            log: None,
            next: VerdictView::Finish(Err("Failed to get config directory"@)),
        },
        (UpdateStage::Unregister, Ok(())) => StepView {
            log: None,
            next: VerdictView::Continue(UpdateStage::Persist),
        },
        (UpdateStage::Unregister, Err(message)) => StepView {
            log: Some("Failed to unregister shortcuts: "@ + message),
            next: VerdictView::Continue(UpdateStage::Persist),
        },
        (UpdateStage::Persist, Ok(())) => StepView {
            log: None,
            next: VerdictView::Continue(UpdateStage::Register),
        },
        (UpdateStage::Persist, Err(message)) => StepView {
            log: None,
            next: VerdictView::Finish(Err(message)),
        },
        (UpdateStage::Register, Ok(())) => StepView {
            log: None,
            next: VerdictView::Finish(Ok(())),
        },
        (UpdateStage::Register, Err(message)) => StepView {
            log: Some("Failed to register shortcut: "@ + message),
            next: VerdictView::Finish(Ok(())),
        },
    }
}

/// The place of a stage in the order of the update.
pub open spec fn stage_rank(stage: UpdateStage) -> nat {
    match stage {
        UpdateStage::Locate => 0,
        UpdateStage::Unregister => 1,
        UpdateStage::Persist => 2,
        UpdateStage::Register => 3,
    }
}

/// A stage is only ever followed by the next one in order, so an update
/// ends after at most four stages; and it ends with an error only where no
/// place for the settings was found or the settings could not be written.
pub proof fn lemma_update_order(stage: UpdateStage, outcome: Result<(), Seq<char>>)
    ensures
        step_after(stage, outcome).next matches VerdictView::Continue(next) ==> stage_rank(next)
            == stage_rank(stage) + 1,
        step_after(stage, outcome).next matches VerdictView::Finish(Err(_)) ==> {
            &&& outcome is Err
            &&& stage == UpdateStage::Locate || stage == UpdateStage::Persist
        },
        stage == UpdateStage::Register ==> step_after(stage, outcome).next == VerdictView::Finish(
            Ok(()),
        ),
{
}

impl UpdateStage {
    /// The stage that an update begins with.
    pub fn first() -> (r: UpdateStage)
        ensures
            r == UpdateStage::Locate,
    {
        UpdateStage::Locate
    }
}

/// Says what follows a stage, given how it went.
pub fn after_stage(stage: UpdateStage, outcome: Result<(), String>) -> (r: Step)
    ensures
        r@ == step_after(stage, outcome_view(outcome)),
{
    match stage {
        UpdateStage::Locate => match outcome {
            Ok(()) => Step { log: None, next: Verdict::Continue(UpdateStage::Unregister) },
            Err(_) => Step {
                log: None,
                next: Verdict::Finish(Err(String::from_str("Failed to get config directory"))),
            },
        },
        UpdateStage::Unregister => match outcome {
            Ok(()) => Step { log: None, next: Verdict::Continue(UpdateStage::Persist) },
            Err(message) => Step {
                log: Some(
                    String::from_str("Failed to unregister shortcuts: ").concat(message.as_str()),
                ),
                next: Verdict::Continue(UpdateStage::Persist),
            },
        },
        UpdateStage::Persist => match outcome {
            Ok(()) => Step { log: None, next: Verdict::Continue(UpdateStage::Register) },
            Err(message) => Step { log: None, next: Verdict::Finish(Err(message)) },
        },
        UpdateStage::Register => match outcome {
            Ok(()) => Step { log: None, next: Verdict::Finish(Ok(())) },
            Err(message) => Step {
                log: Some(
                    String::from_str("Failed to register shortcut: ").concat(message.as_str()),
                ),
                next: Verdict::Finish(Ok(())),
            },
        },
    }
}

} // verus!
