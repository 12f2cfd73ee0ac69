//! The bridge's error taxonomy.
//!
//! Every fallible firmware interaction is translated into exactly one of the
//! kinds below before it reaches the hypervisor core.

use vstd::prelude::*;

verus! {

/// The firmware request that was rejected, for a
/// [`Error::FirmwareCallFailed`].
#[derive(Clone, Copy, Debug, PartialEq, Eq, Structural)]
pub enum FirmwareCall {
    /// Counting the handles that expose the filesystem protocol.
    CountVolumes,
    /// Retrieving the sized list of filesystem handles.
    ListVolumes,
    /// Resolving the filesystem protocol instance for one handle.
    ResolveProtocol,
    /// Opening a volume's root directory.
    OpenVolume,
    /// Resolving an opened file handle's concrete type.
    ResolveFileType,
    /// Reading a chunk of an opened regular file.
    ReadFile,
    /// Allocating one page of boot-scratch memory.
    AllocatePages,
    /// Releasing one page back to the firmware.
    FreePages,
}

/// An error of the bridge, as the hypervisor core sees it.
#[derive(Clone, Debug, PartialEq, Eq)]
pub enum Error {
    /// The firmware rejected a request; the payload names which one.
    FirmwareCallFailed(FirmwareCall),
    /// The firmware returned an unusable (null) protocol instance.
    NullFirmwareResource,
    /// The requested path resolved to a directory where a regular file was
    /// required; the payload is the requested path.
    UnexpectedFileType(String),
    /// The requested path was absent from every enumerated volume; the
    /// payload is the requested path.
    ResourceNotFound(String),
}

/// Mathematical value of an [`Error`]: the paths it names as sequences of
/// characters.
pub ghost enum ErrorView {
    FirmwareCallFailed(FirmwareCall),
    NullFirmwareResource,
    UnexpectedFileType(Seq<char>),
    ResourceNotFound(Seq<char>),
}

impl View for Error {
    type V = ErrorView;

    open spec fn view(&self) -> ErrorView {
        match self {
            Error::FirmwareCallFailed(c) => ErrorView::FirmwareCallFailed(*c),
            Error::NullFirmwareResource => ErrorView::NullFirmwareResource,
            Error::UnexpectedFileType(p) => ErrorView::UnexpectedFileType(p@),
            Error::ResourceNotFound(p) => ErrorView::ResourceNotFound(p@),
        }
    }
}

impl Error {
    /// A short human-readable description, for the host environment's log.
    pub fn describe(&self) -> &'static str {
        match self {
            Error::FirmwareCallFailed(_) => "a firmware request was rejected",
            Error::NullFirmwareResource => "the firmware returned a null protocol instance",
            Error::UnexpectedFileType(_) => "the path names a directory, not a regular file",
            Error::ResourceNotFound(_) => "the path was found on no volume",
        }
    }
}

} // verus!
