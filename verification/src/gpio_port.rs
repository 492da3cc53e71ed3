//! Blocking GPIO port interface: error kinds, interrupt settings, pin masks
//! and the traits that GPIO drivers implement.

use vstd::prelude::*;

verus! {

/// The common GPIO errors. Implementations may define more specific errors
/// and map them to these, so that generic code can react to them.
#[derive(Clone, Copy, PartialEq, Eq, Structural, Debug, PartialOrd, Ord, Hash)]
#[non_exhaustive]
pub enum GpioErrorKind {
    /// The underlying error is not one of the common errors.
    Unknown,
    /// The specified GPIO port does not exist.
    InvalidPort,
    /// The specified pin(s) do not exist on this port.
    InvalidPin,
    /// The requested configuration is not supported.
    UnsupportedConfiguration,
    /// The pins cannot be configured as requested (e.g., reserved pins).
    ConfigurationFailed,
    /// Cannot change pins currently used by another peripheral.
    PinInUse,
    /// The interrupt requested cannot be configured.
    InterruptConfigurationFailed,
    /// The requested operation is not allowed in the current state.
    PermissionDenied,
    /// Hardware failure during operation.
    HardwareFailure,
    /// Operation timed out.
    Timeout,
    /// The pin is not configured for the requested operation.
    InvalidMode,
}

impl GpioErrorKind {
    /// The numeric code of the kind: 0 for `Unknown`, then 1 to 10 in the
    /// order of declaration.
    pub open spec fn spec_code(self) -> u32 {
        match self {
            GpioErrorKind::Unknown => 0,
            GpioErrorKind::InvalidPort => 1,
            GpioErrorKind::InvalidPin => 2,
            GpioErrorKind::UnsupportedConfiguration => 3,
            GpioErrorKind::ConfigurationFailed => 4,
            GpioErrorKind::PinInUse => 5,
            GpioErrorKind::InterruptConfigurationFailed => 6,
            GpioErrorKind::PermissionDenied => 7,
            GpioErrorKind::HardwareFailure => 8,
            GpioErrorKind::Timeout => 9,
            GpioErrorKind::InvalidMode => 10,
        }
    }

    /// The kind a code names; codes above 10 are `Unknown`.
    pub open spec fn spec_from_code(val: u32) -> GpioErrorKind {
        if val == 1 {
            GpioErrorKind::InvalidPort
        } else if val == 2 {
            GpioErrorKind::InvalidPin
        } else if val == 3 {
            GpioErrorKind::UnsupportedConfiguration
        } else if val == 4 {
            GpioErrorKind::ConfigurationFailed
        } else if val == 5 {
            GpioErrorKind::PinInUse
        } else if val == 6 {
            GpioErrorKind::InterruptConfigurationFailed
        } else if val == 7 {
            GpioErrorKind::PermissionDenied
        } else if val == 8 {
            GpioErrorKind::HardwareFailure
        } else if val == 9 {
            GpioErrorKind::Timeout
        } else if val == 10 {
            GpioErrorKind::InvalidMode
        } else {
            GpioErrorKind::Unknown
        }
    }

    /// The numeric code of the kind.
    pub fn code(self) -> (r: u32)
        ensures
            r == self.spec_code(),
    {
        match self {
            GpioErrorKind::Unknown => 0,
            GpioErrorKind::InvalidPort => 1,
            GpioErrorKind::InvalidPin => 2,
            GpioErrorKind::UnsupportedConfiguration => 3,
            GpioErrorKind::ConfigurationFailed => 4,
            GpioErrorKind::PinInUse => 5,
            GpioErrorKind::InterruptConfigurationFailed => 6,
            GpioErrorKind::PermissionDenied => 7,
            GpioErrorKind::HardwareFailure => 8,
            GpioErrorKind::Timeout => 9,
            GpioErrorKind::InvalidMode => 10,
        }
    }
}

impl From<u32> for GpioErrorKind {
    fn from(val: u32) -> (r: Self) {
        match val {
            1 => GpioErrorKind::InvalidPort,
            2 => GpioErrorKind::InvalidPin,
            3 => GpioErrorKind::UnsupportedConfiguration,
            4 => GpioErrorKind::ConfigurationFailed,
            5 => GpioErrorKind::PinInUse,
            6 => GpioErrorKind::InterruptConfigurationFailed,
            7 => GpioErrorKind::PermissionDenied,
            8 => GpioErrorKind::HardwareFailure,
            9 => GpioErrorKind::Timeout,
            10 => GpioErrorKind::InvalidMode,
            _ => GpioErrorKind::Unknown,
        }
    }
}

impl vstd::std_specs::convert::FromSpecImpl<u32> for GpioErrorKind {
    open spec fn obeys_from_spec() -> bool {
        true
    }

    open spec fn from_spec(val: u32) -> GpioErrorKind {
        GpioErrorKind::spec_from_code(val)
    }
}

/// Every kind converts to its code and back; a code converts to a kind and
/// back exactly when it is at most 10.
pub proof fn lemma_error_kind_code(k: GpioErrorKind, val: u32)
    ensures
        GpioErrorKind::spec_from_code(k.spec_code()) == k,
        k.spec_code() <= 10,
        (GpioErrorKind::spec_from_code(val).spec_code() == val) <==> val <= 10,
{
}

/// A GPIO error that maps to one of the common kinds.
pub trait GpioError {
    /// The common kind of the error.
    fn kind(&self) -> GpioErrorKind;
}

/// Edge sensitivity for interrupt configuration.
#[derive(Clone, Copy, PartialEq, Eq, Structural, Debug)]
pub enum EdgeSensitivity {
    /// Trigger on rising edge.
    RisingEdge,
    /// Trigger on falling edge.
    FallingEdge,
    /// Trigger on both rising and falling edges.
    BothEdges,
    /// Trigger on high level.
    HighLevel,
    /// Trigger on low level.
    LowLevel,
}

/// Operations for interrupt control.
#[derive(Clone, Copy, PartialEq, Eq, Structural, Debug)]
pub enum InterruptOperation {
    /// Enable interrupts.
    Enable,
    /// Disable interrupts.
    Disable,
    /// Clear pending interrupts.
    Clear,
    /// Check if interrupts are pending.
    IsPending,
}

/// Types that define an error type for GPIO operations.
pub trait GpioErrorType {
    /// Error type for GPIO operations.
    type Error: GpioError;
}

/// A set of pins.
pub trait PinMask: Copy {
    /// The empty mask (no pins selected).
    fn empty() -> Self;

    /// The mask with all pins selected.
    fn all() -> Self;

    /// Whether no pin is selected.
    fn is_empty(&self) -> bool;

    /// Whether every pin of `other` is selected.
    fn contains(&self, other: Self) -> bool;

    /// The pins of either mask.
    fn union(&self, other: Self) -> Self;

    /// The pins of both masks.
    fn intersection(&self, other: Self) -> Self;

    /// The pins not selected.
    fn toggle(&self) -> Self;
}

/// Base GPIO port operations.
pub trait GpioPort: GpioErrorType {
    /// Configuration type for GPIO pins.
    type Config;

    /// Mask type for pin identification.
    type Mask: PinMask;

    /// Configures the pins.
    fn configure(&mut self, pins: Self::Mask, config: Self::Config) -> Result<(), Self::Error>;

    /// Sets and clears pins at once.
    fn set_reset(&mut self, set_mask: Self::Mask, reset_mask: Self::Mask) -> Result<(), Self::Error>;

    /// Reads the input pins.
    fn read_input(&self) -> Result<Self::Mask, Self::Error>;

    /// Toggles the output pins.
    fn toggle(&mut self, pins: Self::Mask) -> Result<(), Self::Error>;
}

/// GPIO interrupt operations.
pub trait GpioInterrupt: GpioErrorType {
    /// Mask type for pin identification.
    type Mask: PinMask;

    /// Configures the interrupt sensitivity of the pins.
    fn irq_configure(&mut self, mask: Self::Mask, sensitivity: EdgeSensitivity) -> Result<(), Self::Error>;

    /// Enables, disables, clears or queries the interrupts of the pins.
    fn irq_control(&mut self, mask: Self::Mask, operation: InterruptOperation) -> Result<bool, Self::Error>;

    /// Registers a handler for the interrupts of the pins.
    fn register_interrupt_handler<F>(&mut self, mask: Self::Mask, handler: F) -> Result<(), Self::Error> where
        F: FnMut(Self::Mask) + Send + 'static,
    ;
}

/// Splitting a GPIO port into its pins.
pub trait SplitPort: GpioPort + Sized {
    /// Container type returned when splitting the port.
    type PortPins;

    /// Splits the port into its pins.
    fn split(self) -> Self::PortPins;
}

/// Full GPIO functionality.
pub trait GpioController: GpioPort + GpioInterrupt {

}

impl<T: GpioPort + GpioInterrupt> GpioController for T {

}

} // verus!
