//! The vocabulary of the service control manager: the tags and bit masks that
//! travel between a service and the manager, each with the 32-bit value the
//! manager knows it by.

use vstd::prelude::*;

verus! {

/// The token the manager hands out when a control handler is registered.
///
/// It is never interpreted here, only carried along and handed back with every
/// status report. The manager answers a refused registration with the null
/// token, whose raw value is zero.
#[allow(non_camel_case_types)]
#[derive(Clone, Copy, Debug, PartialEq, Eq, Structural)]
pub enum SERVICE_STATUS_HANDLE {
    /// What the manager returns when it refuses the registration.
    Null,
    /// A live registration, named by the non-zero value the manager returned.
    Registered(usize),
}

impl SERVICE_STATUS_HANDLE {
    /// The handle's value as the manager wrote it: zero for the null token.
    pub open spec fn spec_raw(&self) -> usize {
        match *self {
            SERVICE_STATUS_HANDLE::Null => 0,
            SERVICE_STATUS_HANDLE::Registered(value) => value,
        }
    }

    /// Whether the handle stands for a refused registration.
    pub open spec fn spec_is_null(&self) -> bool {
        self.spec_raw() == 0
    }

    /// Reads a handle out of the value the registration call returned.
    pub fn from_raw(value: usize) -> (handle: SERVICE_STATUS_HANDLE)
        ensures
            handle.spec_raw() == value,
            handle == SERVICE_STATUS_HANDLE::Null <==> value == 0,
    {
        if value == 0 {
            SERVICE_STATUS_HANDLE::Null
        } else {
            SERVICE_STATUS_HANDLE::Registered(value)
        }
    }

    /// The value to hand back to the manager.
    #[verifier::when_used_as_spec(spec_raw)]
    pub fn raw(&self) -> (value: usize)
        ensures
            value == self.spec_raw(),
    {
        match self {
            SERVICE_STATUS_HANDLE::Null => 0,
            SERVICE_STATUS_HANDLE::Registered(value) => *value,
        }
    }

    /// Whether the handle stands for a refused registration.
    #[verifier::when_used_as_spec(spec_is_null)]
    pub fn is_null(&self) -> (null: bool)
        ensures
            null == self.spec_is_null(),
    {
        self.raw() == 0
    }
}

/// What kind of service a status report speaks for.
#[allow(non_camel_case_types)]
#[derive(Clone, Copy, Debug, PartialEq, Eq, Structural)]
pub enum SERVICE_TYPE {
    SERVICE_KERNEL_DRIVER,
    SERVICE_FILE_SYSTEM_DRIVER,
    SERVICE_WIN32_OWN_PROCESS,
    SERVICE_WIN32_SHARE_PROCESS,
    SERVICE_WIN32,
    SERVICE_INTERACTIVE_PROCESS,
}

impl SERVICE_TYPE {
    /// The value the manager knows this type by.
    pub open spec fn spec_bits(&self) -> u32 {
        match *self {
            SERVICE_TYPE::SERVICE_KERNEL_DRIVER => 0x0000_0001,
            SERVICE_TYPE::SERVICE_FILE_SYSTEM_DRIVER => 0x0000_0002,
            SERVICE_TYPE::SERVICE_WIN32_OWN_PROCESS => 0x0000_0010,
            SERVICE_TYPE::SERVICE_WIN32_SHARE_PROCESS => 0x0000_0020,
            SERVICE_TYPE::SERVICE_WIN32 => 0x0000_0030,
            SERVICE_TYPE::SERVICE_INTERACTIVE_PROCESS => 0x0000_0100,
        }
    }

    /// The value the manager knows this type by.
    #[verifier::when_used_as_spec(spec_bits)]
    pub fn bits(&self) -> (bits: u32)
        ensures
            bits == self.spec_bits(),
    {
        match self {
            SERVICE_TYPE::SERVICE_KERNEL_DRIVER => 0x0000_0001,
            SERVICE_TYPE::SERVICE_FILE_SYSTEM_DRIVER => 0x0000_0002,
            SERVICE_TYPE::SERVICE_WIN32_OWN_PROCESS => 0x0000_0010,
            SERVICE_TYPE::SERVICE_WIN32_SHARE_PROCESS => 0x0000_0020,
            SERVICE_TYPE::SERVICE_WIN32 => 0x0000_0030,
            SERVICE_TYPE::SERVICE_INTERACTIVE_PROCESS => 0x0000_0100,
        }
    }
}

/// Which control requests a service is willing to receive.
#[allow(non_camel_case_types)]
#[derive(Clone, Copy, Debug, PartialEq, Eq, Structural)]
pub enum ACCEPTED_CONTROLS {
    SERVICE_ACCEPT_STOP,
    SERVICE_ACCEPT_PAUSE_CONTINUE,
    SERVICE_ACCEPT_SHUTDOWN,
    SERVICE_ACCEPT_STOP_SHUTDOWN,
    SERVICE_ACCEPT_PARAMCHANGE,
    SERVICE_ACCEPT_NETBINDCHANGE,
    SERVICE_ACCEPT_PRESHUTDOWN,
}

impl ACCEPTED_CONTROLS {
    /// The bit mask the manager reads.
    pub open spec fn spec_bits(&self) -> u32 {
        match *self {
            ACCEPTED_CONTROLS::SERVICE_ACCEPT_STOP => 0x0000_0001,
            ACCEPTED_CONTROLS::SERVICE_ACCEPT_PAUSE_CONTINUE => 0x0000_0002,
            ACCEPTED_CONTROLS::SERVICE_ACCEPT_SHUTDOWN => 0x0000_0004,
            ACCEPTED_CONTROLS::SERVICE_ACCEPT_STOP_SHUTDOWN => 0x0000_0005,
            ACCEPTED_CONTROLS::SERVICE_ACCEPT_PARAMCHANGE => 0x0000_0008,
            ACCEPTED_CONTROLS::SERVICE_ACCEPT_NETBINDCHANGE => 0x0000_0010,
            ACCEPTED_CONTROLS::SERVICE_ACCEPT_PRESHUTDOWN => 0x0000_0100,
        }
    }

    /// The bit mask the manager reads.
    #[verifier::when_used_as_spec(spec_bits)]
    pub fn bits(&self) -> (bits: u32)
        ensures
            bits == self.spec_bits(),
    {
        match self {
            ACCEPTED_CONTROLS::SERVICE_ACCEPT_STOP => 0x0000_0001,
            ACCEPTED_CONTROLS::SERVICE_ACCEPT_PAUSE_CONTINUE => 0x0000_0002,
            ACCEPTED_CONTROLS::SERVICE_ACCEPT_SHUTDOWN => 0x0000_0004,
            ACCEPTED_CONTROLS::SERVICE_ACCEPT_STOP_SHUTDOWN => 0x0000_0005,
            ACCEPTED_CONTROLS::SERVICE_ACCEPT_PARAMCHANGE => 0x0000_0008,
            ACCEPTED_CONTROLS::SERVICE_ACCEPT_NETBINDCHANGE => 0x0000_0010,
            ACCEPTED_CONTROLS::SERVICE_ACCEPT_PRESHUTDOWN => 0x0000_0100,
        }
    }
}

/// Where a service stands in its lifecycle, as it tells the manager.
#[allow(non_camel_case_types)]
#[derive(Clone, Copy, Debug, PartialEq, Eq, Structural)]
pub enum CURRENT_SERVICE_STATUS {
    SERVICE_STOPPED,
    SERVICE_START_PENDING,
    SERVICE_STOP_PENDING,
    SERVICE_RUNNING,
    SERVICE_CONTINUE_PENDING,
    SERVICE_PAUSE_PENDING,
    SERVICE_PAUSED,
}

impl CURRENT_SERVICE_STATUS {
    /// The value the manager knows this state by.
    pub open spec fn spec_bits(&self) -> u32 {
        match *self {
            CURRENT_SERVICE_STATUS::SERVICE_STOPPED => 0x0000_0001,
            CURRENT_SERVICE_STATUS::SERVICE_START_PENDING => 0x0000_0002,
            CURRENT_SERVICE_STATUS::SERVICE_STOP_PENDING => 0x0000_0003,
            CURRENT_SERVICE_STATUS::SERVICE_RUNNING => 0x0000_0004,
            CURRENT_SERVICE_STATUS::SERVICE_CONTINUE_PENDING => 0x0000_0005,
            CURRENT_SERVICE_STATUS::SERVICE_PAUSE_PENDING => 0x0000_0006,
            CURRENT_SERVICE_STATUS::SERVICE_PAUSED => 0x0000_0007,
        }
    }

    /// The value the manager knows this state by.
    #[verifier::when_used_as_spec(spec_bits)]
    pub fn bits(&self) -> (bits: u32)
        ensures
            bits == self.spec_bits(),
    {
        match self {
            CURRENT_SERVICE_STATUS::SERVICE_STOPPED => 0x0000_0001,
            CURRENT_SERVICE_STATUS::SERVICE_START_PENDING => 0x0000_0002,
            CURRENT_SERVICE_STATUS::SERVICE_STOP_PENDING => 0x0000_0003,
            CURRENT_SERVICE_STATUS::SERVICE_RUNNING => 0x0000_0004,
            CURRENT_SERVICE_STATUS::SERVICE_CONTINUE_PENDING => 0x0000_0005,
            CURRENT_SERVICE_STATUS::SERVICE_PAUSE_PENDING => 0x0000_0006,
            CURRENT_SERVICE_STATUS::SERVICE_PAUSED => 0x0000_0007,
        }
    }
}

/// A request the manager sends to a registered control handler.
#[allow(non_camel_case_types)]
#[derive(Clone, Copy, Debug, PartialEq, Eq, Structural)]
pub enum CONTROL_CODE {
    SERVICE_CONTROL_STOP,
    SERVICE_CONTROL_PAUSE,
    SERVICE_CONTROL_CONTINUE,
    SERVICE_CONTROL_INTERROGATE,
    SERVICE_CONTROL_SHUTDOWN,
    SERVICE_CONTROL_PARAMCHANGE,
    SERVICE_CONTROL_NETBINDADD,
    SERVICE_CONTROL_NETBINDREMOVE,
    SERVICE_CONTROL_NETBINDENABLE,
    SERVICE_CONTROL_NETBINDDISABLE,
}

impl CONTROL_CODE {
    /// The value the manager sends for this request.
    pub open spec fn spec_bits(&self) -> u32 {
        match *self {
            CONTROL_CODE::SERVICE_CONTROL_STOP => 0x0000_0001,
            CONTROL_CODE::SERVICE_CONTROL_PAUSE => 0x0000_0002,
            CONTROL_CODE::SERVICE_CONTROL_CONTINUE => 0x0000_0003,
            CONTROL_CODE::SERVICE_CONTROL_INTERROGATE => 0x0000_0004,
            CONTROL_CODE::SERVICE_CONTROL_SHUTDOWN => 0x0000_0005,
            CONTROL_CODE::SERVICE_CONTROL_PARAMCHANGE => 0x0000_0006,
            CONTROL_CODE::SERVICE_CONTROL_NETBINDADD => 0x0000_0007,
            CONTROL_CODE::SERVICE_CONTROL_NETBINDREMOVE => 0x0000_0008,
            CONTROL_CODE::SERVICE_CONTROL_NETBINDENABLE => 0x0000_0009,
            CONTROL_CODE::SERVICE_CONTROL_NETBINDDISABLE => 0x0000_000A,
        }
    }

    /// The value the manager sends for this request.
    #[verifier::when_used_as_spec(spec_bits)]
    pub fn bits(&self) -> (bits: u32)
        ensures
            bits == self.spec_bits(),
    {
        match self {
            CONTROL_CODE::SERVICE_CONTROL_STOP => 0x0000_0001,
            CONTROL_CODE::SERVICE_CONTROL_PAUSE => 0x0000_0002,
            CONTROL_CODE::SERVICE_CONTROL_CONTINUE => 0x0000_0003,
            CONTROL_CODE::SERVICE_CONTROL_INTERROGATE => 0x0000_0004,
            CONTROL_CODE::SERVICE_CONTROL_SHUTDOWN => 0x0000_0005,
            CONTROL_CODE::SERVICE_CONTROL_PARAMCHANGE => 0x0000_0006,
            CONTROL_CODE::SERVICE_CONTROL_NETBINDADD => 0x0000_0007,
            CONTROL_CODE::SERVICE_CONTROL_NETBINDREMOVE => 0x0000_0008,
            CONTROL_CODE::SERVICE_CONTROL_NETBINDENABLE => 0x0000_0009,
            CONTROL_CODE::SERVICE_CONTROL_NETBINDDISABLE => 0x0000_000A,
        }
    }
}

} // verus!
