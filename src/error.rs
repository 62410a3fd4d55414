use vstd::prelude::*;

verus! {

/// The ways the bootstrap sequence can fail.
#[derive(Clone, Copy, Debug, PartialEq, Eq, Structural)]
pub enum BootstrapError {
    /// The loader, the entry point or the instance could not be set up.
    Initialization,
    /// The driver failed to enumerate adapters or their queue families.
    Enumeration,
    /// No enumerated adapter meets the requirements.
    NoSuitableDevice,
    /// The driver rejected the logical device request.
    DeviceCreation,
}

/// The description of each error.
pub open spec fn message_text(e: BootstrapError) -> Seq<char> {
    match e {
        BootstrapError::Initialization => "failed to initialize the graphics API"@,
        BootstrapError::Enumeration => "failed to enumerate physical devices"@,
        BootstrapError::NoSuitableDevice => "no suitable physical device found"@,
        BootstrapError::DeviceCreation => "failed to create the logical device"@,
    }
}

impl BootstrapError {
    /// A short human-readable description of the error.
    pub fn message(&self) -> (r: String)
        ensures
            r@ == message_text(*self),
    {
        match self {
            BootstrapError::Initialization => String::from_str("failed to initialize the graphics API"),
            BootstrapError::Enumeration => String::from_str("failed to enumerate physical devices"),
            BootstrapError::NoSuitableDevice => String::from_str("no suitable physical device found"),
            BootstrapError::DeviceCreation => String::from_str("failed to create the logical device"),
        }
    }
}

} // verus!
