//! Error handling.

use vstd::prelude::*;

verus! {

/// What went wrong, one tag per failure the renderer can report.
#[derive(Clone, Copy, Debug, PartialEq, Eq, Structural)]
pub enum ErrorKind {
    NoSupportedAdapter,
    NoSupportedQueueFamily,
    DeviceOpenFailed,
    QueueGroupUnavailable,
    NoPresentMode,
    NoCompositeAlpha,
    EmptyFormatList,
    UnsupportedColorUsage,
    SwapchainCreateFailed,
    RenderPassCreateFailed,
    ImageViewCreateFailed,
    FramebufferCreateFailed,
    FenceCreateFailed,
    FenceResetFailed,
    SemaphoreCreateFailed,
    CommandPoolCreateFailed,
    FenceWaitFailed,
    DeviceIdleWaitFailed,
}

/// An error of the rendering family: a tag and a human-readable message.
#[derive(Clone, Debug)]
pub struct RenderingError {
    kind: ErrorKind,
    message: String,
}

impl RenderingError {
    /// The tag of the error.
    pub closed spec fn spec_kind(&self) -> ErrorKind {
        self.kind
    }

    /// The text of the message.
    pub closed spec fn spec_message(&self) -> Seq<char> {
        self.message@
    }

    /// Returns the tag of the error.
    pub fn kind(&self) -> (r: ErrorKind)
        ensures
            r == self.spec_kind(),
    {
        self.kind
    }

    /// Returns the message of the error.
    pub fn message(&self) -> (r: &str)
        ensures
            r@ == self.spec_message(),
    {
        self.message.as_str()
    }

    /// An error whose message is a front message followed by the text of the
    /// underlying driver error.
    pub fn from_error(kind: ErrorKind, front_message: &str, error: &str) -> (r: Self)
        ensures
            r.spec_kind() == kind,
            r.spec_message() == front_message@ + error@,
    {
        let message = String::from_str(front_message).concat(error);
        Self { kind, message }
    }

    /// An error with the given message.
    pub fn from_string(kind: ErrorKind, message: String) -> (r: Self)
        ensures
            r.spec_kind() == kind,
            r.spec_message() == message@,
    {
        Self { kind, message }
    }

    /// An error with the given message.
    pub fn from_str(kind: ErrorKind, message: &str) -> (r: Self)
        ensures
            r.spec_kind() == kind,
            r.spec_message() == message@,
    {
        Self { kind, message: String::from_str(message) }
    }
}

/// Common error of the library.
#[derive(Clone, Debug)]
pub enum VortekError {
    RenderingError(RenderingError),
}

impl VortekError {
    /// The tag of the error.
    pub open spec fn spec_kind(&self) -> ErrorKind {
        match self {
            VortekError::RenderingError(e) => e.spec_kind(),
        }
    }

    /// The text of the message.
    pub open spec fn spec_message(&self) -> Seq<char> {
        match self {
            VortekError::RenderingError(e) => e.spec_message(),
        }
    }

    /// An error of the rendering family with the given tag and message.
    pub fn rendering(kind: ErrorKind, message: &str) -> (r: Self)
        ensures
            r.spec_kind() == kind,
            r.spec_message() == message@,
    {
        VortekError::RenderingError(RenderingError::from_str(kind, message))
    }

    /// Returns the tag of the error.
    pub fn kind(&self) -> (r: ErrorKind)
        ensures
            r == self.spec_kind(),
    {
        match self {
            VortekError::RenderingError(e) => e.kind(),
        }
    }

    /// Returns the message of the error, as it is shown to a user.
    pub fn message(&self) -> (r: &str)
        ensures
            self matches VortekError::RenderingError(e) && r@ == e.spec_message(),
    {
        match self {
            VortekError::RenderingError(e) => e.message(),
        }
    }
}

/// Result of the library.
pub type VortekResult<T> = Result<T, VortekError>;

/// What a result says: its value, or the tag and message of its error.
pub open spec fn outcome<T>(r: VortekResult<T>) -> Result<T, (ErrorKind, Seq<char>)> {
    match r {
        Ok(v) => Ok(v),
        Err(e) => Err((e.spec_kind(), e.spec_message())),
    }
}

} // verus!
