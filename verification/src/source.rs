//! What the engine asks of a capture source, and what a source hands back.
//!
//! A source is opened on an interface, delivers one frame per receive, and is
//! closed when the session ends. The engine never touches the operating
//! system itself: a driver performs these operations and reports their
//! outcome in the types of this module.

use crate::frame::Frame;
use vstd::prelude::*;

verus! {

/// A span of time in microseconds.
pub type Micros = u64;

/// Length of the observation window unless the caller chooses another.
pub const DEFAULT_WINDOW: Micros = 60_000_000;

/// How long a library-backed source waits for a frame before it reports that
/// none came.
pub const LIBRARY_POLL_TIMEOUT: Micros = 1_000_000;

/// Error code of the operating system for an operation that is not
/// permitted.
pub const EPERM: i32 = 1;

/// Error code of the operating system for an access that is denied.
pub const EACCES: i32 = 13;

/// The two ways of getting frames from the operating system.
#[derive(Clone, Copy, Debug, PartialEq, Eq)]
pub enum SourceKind {
    /// A packet-capture library opens a named device.
    Library,
    /// A raw socket of the link-layer protocol family.
    RawSocket,
}

/// The interface, or interfaces, that a source listens on.
#[derive(Clone, Copy, Debug, PartialEq, Eq)]
pub enum InterfaceSelector {
    /// The first interface that the system offers.
    Default,
    /// Every interface of the machine.
    All,
}

/// What a source is opened on, once the interface is resolved.
#[derive(Debug, PartialEq, Eq)]
pub enum OpenTarget {
    /// The device of the given name.
    Device(String),
    /// Every interface of the machine.
    AllInterfaces,
}

/// Why a source could not be opened, or why a receive failed for good.
#[derive(Clone, Copy, Debug, PartialEq, Eq)]
pub enum CaptureError {
    /// No interface could be found to open.
    DeviceUnavailable,
    /// The caller lacks the privilege to open the source; with the error
    /// code of the operating system.
    PermissionDenied(i32),
    /// Opening or binding failed in the operating system for another reason;
    /// with its error code.
    OsError(i32),
    /// A receive failed while the session was running, with the error code of
    /// the operating system.
    ReceiveError(i32),
}

/// What one receive on an open source came back with.
#[derive(Debug, PartialEq, Eq)]
pub enum ReceiveOutcome {
    /// A frame arrived.
    Frame(Frame),
    /// No frame arrived within the source's poll timeout. This is no error.
    Timeout,
    /// The receive failed for good, with the error code of the operating
    /// system.
    Error(i32),
}

/// The settings of a session.
#[derive(Clone, Copy, Debug, PartialEq, Eq)]
pub struct CaptureOptions {
    /// Length of the observation window.
    pub window_duration: Micros,
    /// How long one receive waits for a frame; `None` for a receive that
    /// blocks until a frame arrives.
    pub poll_timeout: Option<Micros>,
}

impl Clone for OpenTarget {
    fn clone(&self) -> (copy: OpenTarget)
        ensures
            copy == *self,
    {
        match self {
            OpenTarget::Device(name) => OpenTarget::Device(name.clone()),
            OpenTarget::AllInterfaces => OpenTarget::AllInterfaces,
        }
    }
}

impl Clone for ReceiveOutcome {
    /// The same outcome; a frame is copied with its bytes, length and time.
    fn clone(&self) -> (copy: ReceiveOutcome)
        ensures
            match *self {
                ReceiveOutcome::Frame(frame) => {
                    &&& copy matches ReceiveOutcome::Frame(copied)
                    &&& copied@ == frame@
                    &&& copied.spec_total_length() == frame.spec_total_length()
                    &&& copied.spec_timestamp() == frame.spec_timestamp()
                },
                ReceiveOutcome::Timeout => copy == ReceiveOutcome::Timeout,
                ReceiveOutcome::Error(code) => copy == ReceiveOutcome::Error(code),
            },
    {
        match self {
            ReceiveOutcome::Frame(frame) => ReceiveOutcome::Frame(frame.clone()),
            ReceiveOutcome::Timeout => ReceiveOutcome::Timeout,
            ReceiveOutcome::Error(code) => ReceiveOutcome::Error(*code),
        }
    }
}

impl SourceKind {
    /// The interface that a source of this kind is opened on: the default
    /// interface for a library-backed source, all interfaces for a raw
    /// socket.
    pub open spec fn spec_interface(self) -> InterfaceSelector {
        match self {
            SourceKind::Library => InterfaceSelector::Default,
            SourceKind::RawSocket => InterfaceSelector::All,
        }
    }

    /// Whether a source of this kind puts its interface in promiscuous mode.
    pub open spec fn spec_promiscuous(self) -> bool {
        self == SourceKind::Library
    }

    /// The poll timeout of a source of this kind: a raw socket has none, and
    /// so never reports [`ReceiveOutcome::Timeout`].
    pub open spec fn spec_poll_timeout(self) -> Option<Micros> {
        match self {
            SourceKind::Library => Some(LIBRARY_POLL_TIMEOUT),
            SourceKind::RawSocket => None,
        }
    }

    /// The interface that a source of this kind is opened on.
    pub fn interface(self) -> (selector: InterfaceSelector)
        ensures
            selector == self.spec_interface(),
    {
        match self {
            SourceKind::Library => InterfaceSelector::Default,
            SourceKind::RawSocket => InterfaceSelector::All,
        }
    }

    /// Whether a source of this kind puts its interface in promiscuous mode.
    pub fn promiscuous(self) -> (promiscuous: bool)
        ensures
            promiscuous == self.spec_promiscuous(),
    {
        match self {
            SourceKind::Library => true,
            SourceKind::RawSocket => false,
        }
    }

    /// The poll timeout of a source of this kind.
    pub fn poll_timeout(self) -> (timeout: Option<Micros>)
        ensures
            timeout == self.spec_poll_timeout(),
    {
        match self {
            SourceKind::Library => Some(LIBRARY_POLL_TIMEOUT),
            SourceKind::RawSocket => None,
        }
    }
}

/// What a failure of the operating system while opening or binding means: a
/// lack of privilege for the codes [`EPERM`] and [`EACCES`], a failure of the
/// system for every other code.
pub open spec fn spec_open_error(os_error: i32) -> CaptureError {
    if os_error == EPERM || os_error == EACCES {
        CaptureError::PermissionDenied(os_error)
    } else {
        CaptureError::OsError(os_error)
    }
}

/// What a failure of the operating system while opening or binding means.
pub fn open_error(os_error: i32) -> (error: CaptureError)
    ensures
        error == spec_open_error(os_error),
{
    if os_error == EPERM || os_error == EACCES {
        CaptureError::PermissionDenied(os_error)
    } else {
        CaptureError::OsError(os_error)
    }
}

/// Resolves what a source is opened on. `default_device` is the name of the
/// first device that the system offers, if it offers one.
///
/// All interfaces can always be opened. The default interface is the
/// system's default device; without one the opening fails, and nothing is
/// opened.
pub fn resolve_interface(selector: InterfaceSelector, default_device: Option<String>) -> (target:
    Result<OpenTarget, CaptureError>)
    ensures
        selector == InterfaceSelector::All ==> target == Ok::<OpenTarget, CaptureError>(
            OpenTarget::AllInterfaces,
        ),
        selector == InterfaceSelector::Default ==> match default_device {
            Some(name) => target == Ok::<OpenTarget, CaptureError>(OpenTarget::Device(name)),
            None => target == Err::<OpenTarget, CaptureError>(CaptureError::DeviceUnavailable),
        },
{
    match selector {
        InterfaceSelector::All => Ok(OpenTarget::AllInterfaces),
        InterfaceSelector::Default => match default_device {
            Some(name) => Ok(OpenTarget::Device(name)),
            None => Err(CaptureError::DeviceUnavailable),
        },
    }
}

impl CaptureOptions {
    /// The settings for a source of the given kind: a window of
    /// [`DEFAULT_WINDOW`] and the poll timeout of that kind.
    pub fn for_source(kind: SourceKind) -> (options: CaptureOptions)
        ensures
            options.window_duration == DEFAULT_WINDOW,
            options.poll_timeout == kind.spec_poll_timeout(),
    {
        CaptureOptions { window_duration: DEFAULT_WINDOW, poll_timeout: kind.poll_timeout() }
    }
}

} // verus!
