//! The commands a user can give, and what they change.
use vstd::prelude::*;

use crate::director::SimulationState;
use crate::recorder::FrameRecorder;

verus! {

/// A discrete user command.
#[derive(Clone, Copy, Debug, PartialEq, Eq)]
pub enum Command {
    ToggleRecording,
    Snapshot,
    IncreaseDisplacement,
    DecreaseDisplacement,
    IncreaseRotation,
    DecreaseRotation,
}

/// What the caller has to do after a command.
#[derive(Clone, Copy, Debug, PartialEq, Eq)]
pub enum Action {
    /// Nothing outside the state.
    Nothing,
    /// Recording was asked to start: the output directory must be created,
    /// and its outcome handed to `directory_ready`.
    EnsureOutputDirectory,
    /// Save the current frame to the fixed snapshot file.
    SaveSnapshot,
}

/// What creating the output directory came to.
#[derive(Clone, Copy, Debug, PartialEq, Eq)]
pub enum DirectoryOutcome {
    Created,
    AlreadyExisted,
    /// Creation failed for any other reason.
    Failed,
}

/// The output directory could not be created, so recording did not start.
#[derive(Clone, Copy, Debug, PartialEq, Eq)]
pub enum DirectoryError {
    CreationFailed,
}

/// One step up, saturating at the top of the range.
pub open spec fn step_up(x: u32) -> u32 {
    if x < u32::MAX { (x + 1) as u32 } else { x }
}

/// One step down, floored at zero.
pub open spec fn step_down(x: u32) -> u32 {
    if x > 0 { (x - 1) as u32 } else { 0 }
}

impl SimulationState {
    /// Takes the outcome of creating the output directory after a start was
    /// asked for. A directory that was created or already existed starts the
    /// recording from frame index zero; any other failure leaves the state
    /// as it is, recorder idle, and is returned.
    pub fn directory_ready(&mut self, outcome: DirectoryOutcome) -> (r: Result<(), DirectoryError>)
        requires
            old(self).wf(),
        ensures
            final(self).wf(),
            final(self).tick_count == old(self).tick_count,
            final(self).stones == old(self).stones,
            final(self).adjustments == old(self).adjustments,
            outcome == DirectoryOutcome::Failed ==> {
                &&& r == Err::<(), DirectoryError>(DirectoryError::CreationFailed)
                &&& final(self).recorder == old(self).recorder
            },
            outcome != DirectoryOutcome::Failed ==> {
                &&& r == Ok::<(), DirectoryError>(())
                &&& final(self).recorder == (FrameRecorder { recording: true, frame_index: 0 })
            },
    {
        match outcome {
            DirectoryOutcome::Failed => Err(DirectoryError::CreationFailed),
            _ => {
                self.recorder.start();
                Ok(())
            },
        }
    }

    /// Applies a command. The adjustment commands move a factor by one tenth,
    /// never below zero; the recording command stops a recording, or asks
    /// for the output directory when idle (see `directory_ready`); a
    /// snapshot changes nothing here and asks the caller to save a frame.
    pub fn apply_command(&mut self, cmd: Command) -> (act: Action)
        requires
            old(self).wf(),
        ensures
            final(self).wf(),
            final(self).tick_count == old(self).tick_count,
            final(self).stones == old(self).stones,
            final(self).adjustments.motion_probability == old(self).adjustments.motion_probability,
            cmd != Command::ToggleRecording ==> final(self).recorder == old(self).recorder,
            cmd == Command::ToggleRecording ==> {
                &&& final(self).recorder.recording == false
                &&& final(self).recorder.frame_index == old(self).recorder.frame_index
                &&& act == if old(self).recorder.recording { Action::Nothing } else { Action::EnsureOutputDirectory }
            },
            cmd == Command::Snapshot ==> act == Action::SaveSnapshot,
            cmd != Command::ToggleRecording && cmd != Command::Snapshot ==> act == Action::Nothing,
            final(self).adjustments.displacement_adjust == match cmd {
                Command::IncreaseDisplacement => step_up(old(self).adjustments.displacement_adjust),
                Command::DecreaseDisplacement => step_down(old(self).adjustments.displacement_adjust),
                _ => old(self).adjustments.displacement_adjust,
            },
            final(self).adjustments.rotation_adjust == match cmd {
                Command::IncreaseRotation => step_up(old(self).adjustments.rotation_adjust),
                Command::DecreaseRotation => step_down(old(self).adjustments.rotation_adjust),
                _ => old(self).adjustments.rotation_adjust,
            },
    {
        match cmd {
            Command::ToggleRecording => {
                if self.recorder.toggle() {
                    Action::EnsureOutputDirectory
                } else {
                    Action::Nothing
                }
            },
            Command::Snapshot => Action::SaveSnapshot,
            Command::IncreaseDisplacement => {
                if self.adjustments.displacement_adjust < u32::MAX {
                    self.adjustments.displacement_adjust = self.adjustments.displacement_adjust + 1;
                }
                Action::Nothing
            },
            Command::DecreaseDisplacement => {
                if self.adjustments.displacement_adjust > 0 {
                    self.adjustments.displacement_adjust = self.adjustments.displacement_adjust - 1;
                }
                Action::Nothing
            },
            Command::IncreaseRotation => {
                if self.adjustments.rotation_adjust < u32::MAX {
                    self.adjustments.rotation_adjust = self.adjustments.rotation_adjust + 1;
                }
                Action::Nothing
            },
            Command::DecreaseRotation => {
                if self.adjustments.rotation_adjust > 0 {
                    self.adjustments.rotation_adjust = self.adjustments.rotation_adjust - 1;
                }
                Action::Nothing
            },
        }
    }
}

} // verus!
