//! The error type shared by every component.

use vstd::prelude::*;
use vstd::string::*;

verus! {

/// What went wrong, by kind.
#[derive(Clone, Copy, Debug, PartialEq, Eq, Structural)]
pub enum MigErrorKind {
    /// A file, partition, drive or volume that was asked for does not exist.
    NotFound,
    /// An argument or a piece of enumerated data is not usable.
    InvParam,
    /// The operation is not implemented for this platform or boot manager.
    NotImpl,
    /// A text did not have the expected form.
    NoMatch,
    /// The enumeration of drives, partitions or volumes is incomplete.
    EnumFailed,
    /// A partition lacks the free space that staging needs.
    InsufficientSpace,
    /// The hardware or the configuration is not supported.
    Unsupported,
    /// A required external command is not installed.
    ToolMissing,
    /// Reading or writing failed.
    IoError,
    /// A backup of a boot configuration file could not be made.
    BackupFailed,
    /// The boot configuration change could not be completed.
    CommitFailed,
    /// The error has already been reported to the user.
    Displayed,
}

/// An error: its kind and a remark for the user.
#[derive(Debug, PartialEq, Eq)]
pub struct MigError {
    kind: MigErrorKind,
    remark: String,
}

impl MigError {
    /// The kind of this error.
    pub closed spec fn spec_kind(&self) -> MigErrorKind {
        self.kind
    }

    /// The remark of this error, as a sequence of characters.
    pub closed spec fn spec_remark(&self) -> Seq<char> {
        self.remark@
    }

    /// An error of the given kind with an empty remark.
    pub fn from(kind: MigErrorKind) -> (e: MigError)
        ensures
            e.spec_kind() == kind,
            e.spec_remark() == Seq::<char>::empty(),
    {
        MigError { kind, remark: String::new() }
    }

    /// An error of the given kind with the given remark.
    pub fn from_remark(kind: MigErrorKind, remark: &str) -> (e: MigError)
        ensures
            e.spec_kind() == kind,
            e.spec_remark() == remark@,
    {
        MigError { kind, remark: String::from_str(remark) }
    }

    /// The error that stands for a failure already shown to the user.
    pub fn displayed() -> (e: MigError)
        ensures
            e.spec_kind() == MigErrorKind::Displayed,
            e.spec_remark() == Seq::<char>::empty(),
    {
        MigError { kind: MigErrorKind::Displayed, remark: String::new() }
    }

    /// The kind of this error.
    #[verifier::when_used_as_spec(spec_kind)]
    pub fn kind(&self) -> (k: MigErrorKind)
        ensures
            k == self.spec_kind(),
    {
        self.kind
    }

    /// The remark of this error.
    pub fn remark(&self) -> (r: &str)
        ensures
            r@ == self.spec_remark(),
    {
        self.remark.as_str()
    }
}

impl Clone for MigError {
    fn clone(&self) -> (e: Self)
        ensures
            e == *self,
    {
        MigError { kind: self.kind, remark: self.remark.clone() }
    }
}

} // verus!
