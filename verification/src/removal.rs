//! Which removal a path calls for.

use vstd::prelude::*;
use crate::failure::Operation;

verus! {

/// The three ways in which a path is removed.
#[derive(Clone, Copy, Debug, PartialEq, Eq, Structural)]
pub enum Removal {
    /// A directory together with everything below it.
    Tree,
    /// A directory alone, which succeeds only on an empty one.
    Directory,
    /// Anything that is not a directory, a path that does not exist included.
    File,
}

impl Removal {
    /// The removal that a path calls for: what is no directory is removed as a
    /// file whatever `recursive` says; a directory with its contents only when
    /// `recursive` is set.
    pub open spec fn of(is_directory: bool, recursive: bool) -> Removal {
        if !is_directory {
            Removal::File
        } else if recursive {
            Removal::Tree
        } else {
            Removal::Directory
        }
    }

    /// The call under which a failure of this removal is reported: both
    /// removals of a directory are reported alike.
    pub open spec fn reported_as(self) -> Operation {
        match self {
            Removal::File => Operation::RemoveFile,
            Removal::Tree | Removal::Directory => Operation::RemoveDirectory,
        }
    }

    /// See [`Removal::reported_as`].
    pub fn operation(self) -> (operation: Operation)
        ensures
            operation == self.reported_as(),
    {
        match self {
            Removal::File => Operation::RemoveFile,
            Removal::Tree => Operation::RemoveDirectory,
            Removal::Directory => Operation::RemoveDirectory,
        }
    }
}

/// Chooses the removal for a path, given whether it is a directory now and
/// whether the caller asked for its contents to go too.
pub fn plan_removal(is_directory: bool, recursive: bool) -> (removal: Removal)
    ensures
        removal == Removal::of(is_directory, recursive),
{
    if is_directory {
        if recursive {
            Removal::Tree
        } else {
            Removal::Directory
        }
    } else {
        Removal::File
    }
}

} // verus!
