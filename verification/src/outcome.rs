//! How a migration ends, and why one fails.

use crate::layout::{Merged, Subvolume};
use vstd::prelude::*;

verus! {

/// A command whose failure ends the migration.
#[derive(Clone, Copy, Debug, PartialEq, Eq, Structural)]
pub enum Tool {
    /// Mounting the merged view of a directory.
    Mount(Merged),
    /// Copying the merged view of a directory into the new layout.
    Copy(Merged),
}

/// A change to the file system whose failure ends the migration.
#[derive(Clone, Copy, Debug, PartialEq, Eq, Structural)]
pub enum Operation {
    /// Creating the staging subvolume.
    CreateStaging,
    /// Removing a plain directory that stands where a snapshot goes.
    RemoveTarget(Subvolume),
    /// Creating the directories above a snapshot's place.
    CreateParent(Subvolume),
    /// Taking the snapshot of a subvolume.
    Snapshot(Subvolume),
    /// Renaming the staging subvolume to its final name.
    Promote,
}

/// Why a migration did not take place.
#[derive(Clone, Copy, Debug, PartialEq, Eq, Structural)]
pub enum MigrationError {
    /// Too few arguments were given; nothing was touched.
    Argument,
    /// No legacy layout was found to migrate from.
    SourceNotFound,
    /// An external command reported failure.
    Command(Tool),
    /// The operator declined to go on past a risky mount table.
    UserDeclined,
    /// A file system operation failed.
    Filesystem(Operation),
}

/// The terminal result of a run.
#[derive(Clone, Copy, Debug, PartialEq, Eq, Structural)]
pub enum MigrationOutcome {
    /// The new layout was assembled and promoted.
    Migrated,
    /// The final layout was already there; nothing was done.
    AlreadyMigrated,
    /// The run was given up; the final layout was not put in place.
    Failed(MigrationError),
}

impl MigrationOutcome {
    /// Whether the run counts as a success.
    pub open spec fn spec_is_success(self) -> bool {
        !(self is Failed)
    }

    /// Whether the run counts as a success: anything but a failure does.
    #[verifier::when_used_as_spec(spec_is_success)]
    pub fn is_success(self) -> (success: bool)
        ensures
            success == self.spec_is_success(),
    {
        match self {
            MigrationOutcome::Failed(_) => false,
            _ => true,
        }
    }
}

impl MigrationError {
    /// The text that reports this error: one fixed sentence for each kind of
    /// error.
    pub open spec fn spec_message(self) -> Seq<char> {
        match self {
            MigrationError::Argument => "Not enough arguments"@,
            MigrationError::SourceNotFound => "No legacy rootfs v1 found. Migration impossible."@,
            MigrationError::Command(Tool::Mount(_)) => "Failed to mount compose dir"@,
            MigrationError::Command(Tool::Copy(_)) => "Failed to copy upper dir"@,
            MigrationError::UserDeclined => "Concerning fstab entries found"@,
            MigrationError::Filesystem(Operation::CreateStaging) => "Problem creating subvolume"@,
            MigrationError::Filesystem(Operation::RemoveTarget(_)) =>
                "Problem removing pre-existing directory"@,
            MigrationError::Filesystem(Operation::CreateParent(_)) =>
                "Problem creating parent directory"@,
            MigrationError::Filesystem(Operation::Snapshot(_)) => "Problem creating snapshot"@,
            MigrationError::Filesystem(Operation::Promote) => "Problem renaming staging subvolume"@,
        }
    }

    /// The text that reports this error.
    pub fn message(self) -> (text: &'static str)
        ensures
            text@ == self.spec_message(),
    {
        match self {
            MigrationError::Argument => "Not enough arguments",
            MigrationError::SourceNotFound => "No legacy rootfs v1 found. Migration impossible.",
            MigrationError::Command(Tool::Mount(_)) => "Failed to mount compose dir",
            MigrationError::Command(Tool::Copy(_)) => "Failed to copy upper dir",
            MigrationError::UserDeclined => "Concerning fstab entries found",
            MigrationError::Filesystem(Operation::CreateStaging) => "Problem creating subvolume",
            MigrationError::Filesystem(Operation::RemoveTarget(_)) =>
                "Problem removing pre-existing directory",
            MigrationError::Filesystem(Operation::CreateParent(_)) =>
                "Problem creating parent directory",
            MigrationError::Filesystem(Operation::Snapshot(_)) => "Problem creating snapshot",
            MigrationError::Filesystem(Operation::Promote) => "Problem renaming staging subvolume",
        }
    }
}

} // verus!
