//! What can go wrong in the loader.

use vstd::prelude::*;

verus! {

/// An error number that is survived rather than reported.
#[derive(Clone, Copy, Debug, PartialEq, Eq, Structural)]
pub enum Transient {
    /// The process is gone (`ESRCH`): a signal for it is dropped.
    NoSuchProcess,
    /// The call was interrupted (`EINTR`): it is made once more.
    Interrupted,
}

/// An error of the loader.
#[derive(Debug)]
pub enum Error {
    /// The kernel-side tracer could not be loaded.
    TracerLoadFailed,
    /// A tracepoint of the tracer could not be attached.
    TracepointAttachFailed,
    /// Neither a library nor its embedded debug data has the symbol.
    SymbolNotFound,
    /// A tracing request on the target failed.
    RemotePtraceFailed,
    /// A remote call came back somewhere else than at its return address.
    RemoteCallFailed { expected_return: u64, observed_pc: u64 },
    /// The target could not load the bridge; `message` is what its loader
    /// said.
    RemoteDlopenFailed { message: String },
    /// The bridge lacks one of the variables that the engine writes, or the
    /// bridge is not among the target's mappings.
    BridgeExportMissing,
    /// The filter library could not be loaded.
    FilterLibraryLoadFailed,
    /// The mount namespace of a child could not be joined.
    MountNamespaceJoinFailed,
    /// The zygote crashed too often within the window.
    BootloopExceeded,
    /// A record of the event channel is not an event.
    ChannelDecodeFailed,
    /// Bytes read from the target are no UTF-8 text.
    InvalidText,
    /// The platform's version has no known list of specialization
    /// arguments, or the list does not have the number of arguments found.
    UnsupportedSdk,
    /// An error that is retried or dropped where it arises.
    Transient(Transient),
}

/// An error of the loader, with its text as a plain value.
pub enum ErrorView {
    TracerLoadFailed,
    TracepointAttachFailed,
    SymbolNotFound,
    RemotePtraceFailed,
    RemoteCallFailed { expected_return: u64, observed_pc: u64 },
    RemoteDlopenFailed { message: Seq<char> },
    BridgeExportMissing,
    FilterLibraryLoadFailed,
    MountNamespaceJoinFailed,
    BootloopExceeded,
    ChannelDecodeFailed,
    InvalidText,
    UnsupportedSdk,
    Transient(Transient),
}

impl View for Error {
    type V = ErrorView;

    open spec fn view(&self) -> ErrorView {
        match self {
            Error::TracerLoadFailed => ErrorView::TracerLoadFailed,
            Error::TracepointAttachFailed => ErrorView::TracepointAttachFailed,
            Error::SymbolNotFound => ErrorView::SymbolNotFound,
            Error::RemotePtraceFailed => ErrorView::RemotePtraceFailed,
            Error::RemoteCallFailed { expected_return, observed_pc } => ErrorView::RemoteCallFailed {
                expected_return: *expected_return,
                observed_pc: *observed_pc,
            },
            Error::RemoteDlopenFailed { message } => ErrorView::RemoteDlopenFailed {
                message: message@,
            },
            Error::BridgeExportMissing => ErrorView::BridgeExportMissing,
            Error::FilterLibraryLoadFailed => ErrorView::FilterLibraryLoadFailed,
            Error::MountNamespaceJoinFailed => ErrorView::MountNamespaceJoinFailed,
            Error::BootloopExceeded => ErrorView::BootloopExceeded,
            Error::ChannelDecodeFailed => ErrorView::ChannelDecodeFailed,
            Error::InvalidText => ErrorView::InvalidText,
            Error::UnsupportedSdk => ErrorView::UnsupportedSdk,
            Error::Transient(kind) => ErrorView::Transient(*kind),
        }
    }
}

impl Error {
    /// A copy of the error.
    pub fn duplicate(&self) -> (copy: Error)
        ensures
            copy@ == self@,
    {
        match self {
            Error::TracerLoadFailed => Error::TracerLoadFailed,
            Error::TracepointAttachFailed => Error::TracepointAttachFailed,
            Error::SymbolNotFound => Error::SymbolNotFound,
            Error::RemotePtraceFailed => Error::RemotePtraceFailed,
            Error::RemoteCallFailed { expected_return, observed_pc } => Error::RemoteCallFailed {
                expected_return: *expected_return,
                observed_pc: *observed_pc,
            },
            Error::RemoteDlopenFailed { message } => Error::RemoteDlopenFailed {
                message: message.clone(),
            },
            Error::BridgeExportMissing => Error::BridgeExportMissing,
            Error::FilterLibraryLoadFailed => Error::FilterLibraryLoadFailed,
            Error::MountNamespaceJoinFailed => Error::MountNamespaceJoinFailed,
            Error::BootloopExceeded => Error::BootloopExceeded,
            Error::ChannelDecodeFailed => Error::ChannelDecodeFailed,
            Error::InvalidText => Error::InvalidText,
            Error::UnsupportedSdk => Error::UnsupportedSdk,
            Error::Transient(kind) => Error::Transient(*kind),
        }
    }
}

impl Error {
    /// Whether the daemon stops on this error. Every other error is logged
    /// and survived.
    pub open spec fn is_fatal(self) -> bool {
        self is TracerLoadFailed || self is TracepointAttachFailed || self is BootloopExceeded
    }

    /// Whether the daemon stops on this error.
    pub fn fatal(&self) -> (stop: bool)
        ensures
            stop == self.is_fatal(),
    {
        match self {
            Error::TracerLoadFailed => true,
            Error::TracepointAttachFailed => true,
            Error::BootloopExceeded => true,
            _ => false,
        }
    }
}

} // verus!
