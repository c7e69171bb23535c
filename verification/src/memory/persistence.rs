//! Replacing a file in one step: the order in which a document is written
//! to a temporary file, flushed and renamed onto its target, so that a
//! reader finds the old document or the new one and never a part of
//! either.
//!
//! The library decides what is done next; its caller does it and reports
//! whether it went well.

use vstd::prelude::*;

verus! {

/// How far a write has come.
#[derive(Debug, Clone, Copy, PartialEq, Eq, Structural)]
pub enum WriteStage {
    /// Nothing has been done.
    Start,
    /// The document is in the temporary file.
    Written,
    /// The temporary file is on stable storage.
    Flushed,
    /// The temporary file has taken the target's place.
    Renamed,
    /// A step failed; the target is as it was.
    Failed,
}

/// What is to be done next.
#[derive(Debug, Clone, Copy, PartialEq, Eq, Structural)]
pub enum WriteAction {
    /// Write the whole document to the temporary file beside the target.
    WriteTemporary,
    /// Flush the temporary file to stable storage.
    FlushTemporary,
    /// Rename the temporary file onto the target.
    RenameOntoTarget,
    /// Nothing: the write is done, the target holds the document.
    Finished,
    /// Nothing: the write has failed, the target is as it was.
    GiveUp,
}

/// What the files hold: the target, the temporary file, and whether the
/// temporary file is on stable storage.
pub struct DiskModel {
    pub target: Option<Seq<char>>,
    pub temporary: Option<Seq<char>>,
    pub temporary_durable: bool,
}

/// The action that belongs to a stage.
pub open spec fn action_at(stage: WriteStage) -> WriteAction {
    match stage {
        WriteStage::Start => WriteAction::WriteTemporary,
        WriteStage::Written => WriteAction::FlushTemporary,
        WriteStage::Flushed => WriteAction::RenameOntoTarget,
        WriteStage::Renamed => WriteAction::Finished,
        WriteStage::Failed => WriteAction::GiveUp,
    }
}

/// The stage after the action of `stage` went well, or did not.
pub open spec fn stage_after(stage: WriteStage, went_well: bool) -> WriteStage {
    match stage {
        WriteStage::Start => if went_well {
            WriteStage::Written
        } else {
            WriteStage::Failed
        },
        WriteStage::Written => if went_well {
            WriteStage::Flushed
        } else {
            WriteStage::Failed
        },
        WriteStage::Flushed => if went_well {
            WriteStage::Renamed
        } else {
            WriteStage::Failed
        },
        WriteStage::Renamed => WriteStage::Renamed,
        WriteStage::Failed => WriteStage::Failed,
    }
}

/// What the files hold after `action` was done for the document
/// `contents`.
pub open spec fn performed(disk: DiskModel, action: WriteAction, contents: Seq<char>)
    -> DiskModel {
    match action {
        WriteAction::WriteTemporary => DiskModel {
            temporary: Some(contents),
            temporary_durable: false,
            ..disk
        },
        WriteAction::FlushTemporary => DiskModel { temporary_durable: true, ..disk },
        WriteAction::RenameOntoTarget => DiskModel {
            target: disk.temporary,
            temporary: None,
            temporary_durable: false,
        },
        WriteAction::Finished => disk,
        WriteAction::GiveUp => disk,
    }
}

/// The stage of a write whose first `steps` actions went well.
pub open spec fn stage_reached(steps: nat) -> WriteStage
    decreases steps,
{
    if steps == 0 {
        WriteStage::Start
    } else {
        stage_after(stage_reached((steps - 1) as nat), true)
    }
}

/// What the files hold after the first `steps` actions of a write of
/// `contents` were done.
pub open spec fn disk_after(disk: DiskModel, contents: Seq<char>, steps: nat) -> DiskModel
    decreases steps,
{
    if steps == 0 {
        disk
    } else {
        performed(
            disk_after(disk, contents, (steps - 1) as nat),
            action_at(stage_reached((steps - 1) as nat)),
            contents,
        )
    }
}

/// However far a write has come, the target holds the old document or the
/// new one: the old one until the rename, the new one from then on. And
/// the rename is only asked for once the temporary file holds the whole
/// new document and is on stable storage.
pub proof fn lemma_target_is_old_or_new(disk: DiskModel, contents: Seq<char>, steps: nat)
    ensures
        ({
            let now = disk_after(disk, contents, steps);
            &&& steps < 3 ==> now.target == disk.target
            &&& steps >= 3 ==> now.target == Some(contents)
            &&& action_at(stage_reached(steps)) == WriteAction::RenameOntoTarget ==> now.temporary
                == Some(contents) && now.temporary_durable
            &&& steps >= 3 ==> action_at(stage_reached(steps)) == WriteAction::Finished
        }),
    decreases steps,
{
    reveal_with_fuel(stage_reached, 5);
    reveal_with_fuel(disk_after, 5);
    if steps > 4 {
        lemma_target_is_old_or_new(disk, contents, (steps - 1) as nat);
        lemma_stays_renamed(steps);
    }
}

/// Once the rename is done the write stays done.
pub proof fn lemma_stays_renamed(steps: nat)
    requires
        steps >= 3,
    ensures
        stage_reached(steps) == WriteStage::Renamed,
    decreases steps,
{
    reveal_with_fuel(stage_reached, 5);
    if steps > 3 {
        lemma_stays_renamed((steps - 1) as nat);
    }
}

/// A step that fails before the rename leaves the target as it was, and
/// nothing more is asked for.
pub proof fn lemma_failure_keeps_target(disk: DiskModel, contents: Seq<char>, steps: nat)
    requires
        steps < 3,
    ensures
        disk_after(disk, contents, steps).target == disk.target,
        action_at(stage_after(stage_reached(steps), false)) == WriteAction::GiveUp,
{
    lemma_target_is_old_or_new(disk, contents, steps);
    reveal_with_fuel(stage_reached, 5);
}

/// One write of a document onto its target.
#[derive(Debug)]
pub struct AtomicWrite {
    contents: String,
    stage: WriteStage,
}

impl AtomicWrite {
    /// The document that is written.
    pub closed spec fn spec_contents(&self) -> Seq<char> {
        self.contents@
    }

    /// How far the write has come.
    pub closed spec fn spec_stage(&self) -> WriteStage {
        self.stage
    }

    /// A write of `contents` of which nothing has been done yet.
    pub fn new(contents: String) -> (write: Self)
        ensures
            write.spec_contents() == contents@,
            write.spec_stage() == WriteStage::Start,
    {
        AtomicWrite { contents, stage: WriteStage::Start }
    }

    /// The document that is written.
    pub fn contents(&self) -> (text: &str)
        ensures
            text@ == self.spec_contents(),
    {
        self.contents.as_str()
    }

    /// How far the write has come.
    pub fn stage(&self) -> (stage: WriteStage)
        ensures
            stage == self.spec_stage(),
    {
        self.stage
    }

    /// What is to be done next.
    pub fn next_action(&self) -> (action: WriteAction)
        ensures
            action == action_at(self.spec_stage()),
    {
        match self.stage {
            WriteStage::Start => WriteAction::WriteTemporary,
            WriteStage::Written => WriteAction::FlushTemporary,
            WriteStage::Flushed => WriteAction::RenameOntoTarget,
            WriteStage::Renamed => WriteAction::Finished,
            WriteStage::Failed => WriteAction::GiveUp,
        }
    }

    /// Takes note of how the action went that was asked for last.
    pub fn advance(&mut self, went_well: bool)
        ensures
            final(self).spec_contents() == old(self).spec_contents(),
            final(self).spec_stage() == stage_after(old(self).spec_stage(), went_well),
    {
        self.stage = match self.stage {
            WriteStage::Start => if went_well {
                WriteStage::Written
            } else {
                WriteStage::Failed
            },
            WriteStage::Written => if went_well {
                WriteStage::Flushed
            } else {
                WriteStage::Failed
            },
            WriteStage::Flushed => if went_well {
                WriteStage::Renamed
            } else {
                WriteStage::Failed
            },
            WriteStage::Renamed => WriteStage::Renamed,
            WriteStage::Failed => WriteStage::Failed,
        };
    }

    /// Whether the target holds the document.
    pub fn is_done(&self) -> (done: bool)
        ensures
            done == (self.spec_stage() == WriteStage::Renamed),
    {
        self.stage == WriteStage::Renamed
    }

    /// Whether the write has failed.
    pub fn has_failed(&self) -> (failed: bool)
        ensures
            failed == (self.spec_stage() == WriteStage::Failed),
    {
        self.stage == WriteStage::Failed
    }
}

} // verus!
