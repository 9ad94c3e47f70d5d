//! Exporting the collected types: what is to be done next, given how the last
//! step went.
//!
//! A type whose export fails is reported and passed over, so that one bad type
//! does not keep the others from being written.

use vstd::prelude::*;

use crate::collection::RouteCollection;

verus! {

/// A step of an export run.
#[derive(Debug, Clone, Copy, PartialEq, Eq, Structural)]
pub enum ExportStep {
    /// Create the directory that the declarations are written to.
    CreateDir,
    /// Export the type in this slot of the registry.
    Export(usize),
    /// Report that the type in this slot could not be exported.
    Report(usize),
    /// Nothing is left to be done.
    Done,
    /// The directory could not be created: hand its error on.
    Failed,
}

/// The first step for a registry with `len` slots.
pub open spec fn first_step(len: nat) -> ExportStep {
    if len == 0 {
        ExportStep::Done
    } else {
        ExportStep::CreateDir
    }
}

/// The step for the slot behind `at`, if there is one.
pub open spec fn step_behind(len: nat, at: usize) -> ExportStep {
    if at + 1 < len && at < usize::MAX {
        ExportStep::Export((at + 1) as usize)
    } else {
        ExportStep::Done
    }
}

/// The step that follows on `step`, which succeeded or failed.
pub open spec fn next_step(len: nat, step: ExportStep, succeeded: bool) -> ExportStep {
    match step {
        ExportStep::CreateDir => if !succeeded {
            ExportStep::Failed
        } else if len == 0 {
            ExportStep::Done
        } else {
            ExportStep::Export(0)
        },
        ExportStep::Export(at) => if succeeded {
            step_behind(len, at)
        } else {
            ExportStep::Report(at)
        },
        ExportStep::Report(at) => step_behind(len, at),
        ExportStep::Done => ExportStep::Done,
        ExportStep::Failed => ExportStep::Failed,
    }
}

impl<E> RouteCollection<E> {
    /// Export all collected types: the first step of the run. Without types
    /// there is nothing to do.
    pub fn export_types(&self) -> (step: ExportStep)
        ensures
            step == first_step(self@.types.len()),
    {
        if self.types().is_empty() {
            ExportStep::Done
        } else {
            ExportStep::CreateDir
        }
    }

    /// The step of an export run that follows on `step`.
    pub fn export_types_after(&self, step: ExportStep, succeeded: bool) -> (next: ExportStep)
        ensures
            next == next_step(self@.types.len(), step, succeeded),
    {
        match step {
            ExportStep::CreateDir => {
                if !succeeded {
                    ExportStep::Failed
                } else if self.types().is_empty() {
                    ExportStep::Done
                } else {
                    ExportStep::Export(0)
                }
            },
            ExportStep::Export(at) => {
                if succeeded {
                    self.export_step_behind(at)
                } else {
                    ExportStep::Report(at)
                }
            },
            ExportStep::Report(at) => self.export_step_behind(at),
            ExportStep::Done => ExportStep::Done,
            ExportStep::Failed => ExportStep::Failed,
        }
    }

    fn export_step_behind(&self, at: usize) -> (next: ExportStep)
        ensures
            next == step_behind(self@.types.len(), at),
    {
        let len: usize = self.types().len();
        if at < len && len - at > 1 {
            ExportStep::Export(at + 1)
        } else {
            ExportStep::Done
        }
    }
}

/// How many steps a run from `step` can still take.
pub open spec fn steps_left(len: nat, step: ExportStep) -> nat {
    match step {
        ExportStep::CreateDir => 2 * len + 1,
        ExportStep::Export(at) => if at < len {
            (2 * (len - at)) as nat
        } else {
            2
        },
        ExportStep::Report(at) => if at < len {
            (2 * (len - at) - 1) as nat
        } else {
            1
        },
        ExportStep::Done => 0,
        ExportStep::Failed => 0,
    }
}

/// The slots that a run exports from `step` on, in order, where `succeeds` says
/// how each step goes.
pub open spec fn exported(
    len: nat,
    step: ExportStep,
    succeeds: spec_fn(ExportStep) -> bool,
) -> Seq<int>
    decreases steps_left(len, step),
{
    if steps_left(len, step) == 0 {
        Seq::empty()
    } else {
        let rest = exported(len, next_step(len, step, succeeds(step)), succeeds);
        match step {
            ExportStep::Export(at) => seq![at as int] + rest,
            _ => rest,
        }
    }
}

/// Where a run ends that goes on from `step`.
pub open spec fn outcome(
    len: nat,
    step: ExportStep,
    succeeds: spec_fn(ExportStep) -> bool,
) -> ExportStep
    decreases steps_left(len, step),
{
    if steps_left(len, step) == 0 {
        step
    } else {
        outcome(len, next_step(len, step, succeeds(step)), succeeds)
    }
}

proof fn lemma_run_from(len: nat, at: usize, succeeds: spec_fn(ExportStep) -> bool)
    requires
        at < len <= usize::MAX,
    ensures
        exported(len, ExportStep::Export(at), succeeds) == Seq::new(
            (len - at) as nat,
            |i: int| at + i,
        ),
        outcome(len, ExportStep::Export(at), succeeds) == ExportStep::Done,
    decreases len - at,
{
    let step = ExportStep::Export(at);
    let behind = step_behind(len, at);
    reveal_with_fuel(exported, 3);
    reveal_with_fuel(outcome, 3);
    if at + 1 < len {
        lemma_run_from(len, (at + 1) as usize, succeeds);
    }
    assert(exported(len, step, succeeds) =~= seq![at as int] + exported(len, behind, succeeds));
    assert(exported(len, step, succeeds) =~= Seq::new((len - at) as nat, |i: int| at + i));
}

/// Once the directory is there, a run exports every slot, each once and in
/// order, and ends well, whichever exports fail.
pub proof fn run_exports_every_type(len: nat, succeeds: spec_fn(ExportStep) -> bool)
    requires
        len <= usize::MAX,
        succeeds(ExportStep::CreateDir),
    ensures
        exported(len, first_step(len), succeeds) == Seq::new(len, |i: int| i),
        outcome(len, first_step(len), succeeds) == ExportStep::Done,
{
    if len > 0 {
        lemma_run_from(len, 0, succeeds);
        assert(exported(len, first_step(len), succeeds) =~= Seq::new(len, |i: int| i));
    } else {
        assert(exported(len, first_step(len), succeeds) =~= Seq::new(len, |i: int| i));
    }
}

/// Where there are types and the directory cannot be created, nothing is
/// exported and the run fails.
pub proof fn run_fails_without_directory(len: nat, succeeds: spec_fn(ExportStep) -> bool)
    requires
        len > 0,
        !succeeds(ExportStep::CreateDir),
    ensures
        exported(len, first_step(len), succeeds) == Seq::<int>::empty(),
        outcome(len, first_step(len), succeeds) == ExportStep::Failed,
{
    reveal_with_fuel(exported, 2);
    reveal_with_fuel(outcome, 2);
}

} // verus!
