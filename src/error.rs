use vstd::prelude::*;

verus! {

/// Invalid argument; stands in for a host code that is not a valid error.
pub const EINVAL: i32 = 22;

/// Protocol error.
pub const EPROTO: i32 = 71;

/// I/O error; reported when a report was never attempted.
pub const EIO: i32 = 5;

/// Largest error number the host uses.
pub const MAX_ERRNO: i32 = 4095;

/// A typed failure. Failures that come from the host carry the host's status.
#[derive(Clone, Copy, Debug, PartialEq, Eq, Structural)]
pub enum HidError {
    /// The report descriptor could not be parsed.
    Descriptor(i32),
    /// The host could not start the requested subsystems.
    HardwareStart(i32),
    /// The transport could not be opened.
    Open(i32),
    /// An outbound report could not be delivered.
    Transport(i32),
    /// The host refused the driver's registration.
    Registration(i32),
    /// The device did not acknowledge the handshake.
    Protocol,
}

/// The host error number for a carried status: the status itself when it is
/// a valid error number, else the invalid-argument error.
pub open spec fn host_errno(code: i32) -> i32 {
    if -MAX_ERRNO <= code < 0 {
        code
    } else {
        (-EINVAL) as i32
    }
}

impl HidError {
    pub open spec fn errno_spec(self) -> i32 {
        match self {
            HidError::Descriptor(c) => host_errno(c),
            HidError::HardwareStart(c) => host_errno(c),
            HidError::Open(c) => host_errno(c),
            HidError::Transport(c) => host_errno(c),
            HidError::Registration(c) => host_errno(c),
            HidError::Protocol => (-EPROTO) as i32,
        }
    }

    /// The negative status the host expects for this failure.
    pub fn errno(&self) -> (r: i32)
        ensures
            r == self.errno_spec(),
            r < 0,
    {
        let c = match *self {
            HidError::Descriptor(c) => c,
            HidError::HardwareStart(c) => c,
            HidError::Open(c) => c,
            HidError::Transport(c) => c,
            HidError::Registration(c) => c,
            HidError::Protocol => {
                return -EPROTO;
            },
        };
        if -MAX_ERRNO <= c && c < 0 {
            c
        } else {
            -EINVAL
        }
    }
}

/// A host operation whose status is turned into a typed result.
#[derive(Clone, Copy, Debug, PartialEq, Eq, Structural)]
pub enum HostOp {
    Parse,
    HwStart,
    HwOpen,
    OutputReport,
    Register,
}

impl HostOp {
    /// The failure this operation reports for a negative `status`.
    pub open spec fn error_for(self, status: i32) -> HidError {
        match self {
            HostOp::Parse => HidError::Descriptor(status),
            HostOp::HwStart => HidError::HardwareStart(status),
            HostOp::HwOpen => HidError::Open(status),
            HostOp::OutputReport => HidError::Transport(status),
            HostOp::Register => HidError::Registration(status),
        }
    }
}

pub open spec fn check_status_spec(op: HostOp, status: i32) -> Result<(), HidError> {
    if status < 0 {
        Err(op.error_for(status))
    } else {
        Ok(())
    }
}

/// Turns the host's status for `op` into a typed result: a negative status is
/// the operation's failure, any other status is success.
#[verifier::when_used_as_spec(check_status_spec)]
pub fn check_status(op: HostOp, status: i32) -> (r: Result<(), HidError>)
    ensures
        r == check_status_spec(op, status),
{
    if status < 0 {
        Err(
            match op {
                HostOp::Parse => HidError::Descriptor(status),
                HostOp::HwStart => HidError::HardwareStart(status),
                HostOp::HwOpen => HidError::Open(status),
                HostOp::OutputReport => HidError::Transport(status),
                HostOp::Register => HidError::Registration(status),
            },
        )
    } else {
        Ok(())
    }
}

pub open spec fn status_of_spec(r: Result<(), HidError>) -> i32 {
    match r {
        Ok(()) => 0,
        Err(e) => e.errno_spec(),
    }
}

/// The status a callback hands back to the host: zero on success, a negative
/// error number on failure.
pub fn status_of(r: &Result<(), HidError>) -> (s: i32)
    ensures
        s == status_of_spec(*r),
        r.is_ok() <==> s == 0,
        r.is_err() <==> s < 0,
{
    match r {
        Ok(()) => 0,
        Err(e) => e.errno(),
    }
}

/// Whether a driver is currently registered with the host.
#[derive(Clone, Copy, Debug, PartialEq, Eq, Structural)]
pub struct Registration {
    registered: bool,
}

impl Registration {
    pub closed spec fn is_registered(self) -> bool {
        self.registered
    }

    /// A driver not yet registered.
    pub fn new() -> (r: Registration)
        ensures
            !r.is_registered(),
    {
        Registration { registered: false }
    }

    /// Whether the driver is registered.
    pub fn registered(&self) -> (r: bool)
        ensures
            r == self.is_registered(),
    {
        self.registered
    }

    /// Records the host's answer to a registration: registered exactly when
    /// the host accepted it.
    pub fn register(&mut self, status: i32) -> (r: Result<(), HidError>)
        requires
            !old(self).is_registered(),
        ensures
            r == check_status_spec(HostOp::Register, status),
            final(self).is_registered() == r.is_ok(),
    {
        let r = check_status(HostOp::Register, status);
        self.registered = r.is_ok();
        r
    }

    /// Records that a successful registration was undone.
    pub fn unregister(&mut self)
        requires
            old(self).is_registered(),
        ensures
            !final(self).is_registered(),
    {
        self.registered = false;
    }
}

} // verus!
