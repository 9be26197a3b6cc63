//! Core enumerations shared by the board model and the USB layer, and the
//! selection of the diagnostic text shown on the fatal-shutdown path.

use vstd::prelude::*;

verus! {

/// Flash regions of the device, as the board firmware groups them.
#[derive(Clone, Copy, Debug, PartialEq, Eq, Structural)]
pub enum Allocation {
    FlashInvalid,
    FlashBootstrap,
    FlashStorage1,
    FlashStorage2,
    FlashStorage3,
    FlashUnused0,
    FlashBootloader,
    FlashApp,
}

/// Commands for the two status LEDs.
#[derive(Clone, Copy, Debug, PartialEq, Eq, Structural)]
pub enum LedAction {
    ClrGreenLed,
    SetGreenLed,
    TglGreenLed,
    ClrRedLed,
    SetRedLed,
    TglRedLed,
}

/// Reason handed to the irrecoverable-halt path.
#[derive(Clone, Copy, Debug, PartialEq, Eq, Structural)]
pub enum ShutdownError {
    NoError,
    RustPanic,
    StackSmashingProtection,
    ClockSecuritySystem,
    MemoryFault,
    NonMaskableInterrupt,
    ResetFailed,
    FaultInjectionDefense,
}

/// A fatal condition: a protocol-invariant violation or an unexpected
/// double acquisition. There is no recovery; the caller must route the
/// value into the shutdown path.
#[must_use]
#[derive(Clone, Copy, Debug, PartialEq, Eq, Structural)]
pub enum FatalError {
    /// The resource was already exclusively borrowed.
    ResourceBusy,
    /// Data arrived on the interrupt OUT endpoint without the hardware's
    /// own data-ready notification preceding it.
    UnexpectedOutData,
    /// The interrupt IN endpoint reported completion while none was
    /// outstanding.
    UnexpectedInCompletion,
    /// The non-blocking endpoint read failed with something other than
    /// "no data available".
    EndpointReadFailed,
}

/// The message rendered by the fatal-shutdown path.
pub enum ShutdownMessage {
    /// A specific diagnostic line.
    Text(String),
    /// A panic with no retained payload.
    Panic,
}

/// Chooses the text that the shutdown path renders for `message`.
pub fn shutdown_message_text(message: &ShutdownMessage) -> (r: &str)
    ensures
        message matches ShutdownMessage::Text(s) ==> r@ == s@,
        message is Panic ==> r@ == "Panic"@,
{
    match message {
        ShutdownMessage::Text(s) => s.as_str(),
        ShutdownMessage::Panic => "Panic",
    }
}

/// Maps a shutdown reason to the diagnostic line shown on the display.
///
/// `NoError` carries no message (the hook clears the LEDs instead), and a
/// Rust panic is rendered through [`shutdown_message_text`]; neither is a
/// valid input here.
pub fn shutdown_error_text(error: ShutdownError) -> (r: &'static str)
    requires
        error != ShutdownError::NoError,
        error != ShutdownError::RustPanic,
    ensures
        error == ShutdownError::StackSmashingProtection ==> r@ == "Stack Smashing Detected"@,
        error == ShutdownError::ClockSecuritySystem ==> r@ == "Clock Glitch Detected"@,
        error == ShutdownError::MemoryFault ==> r@ == "Memory Protection Fault"@,
        error == ShutdownError::NonMaskableInterrupt ==> r@ == "Non-Maskable Interupt Detected"@,
        error == ShutdownError::ResetFailed ==> r@ == "Board Reset Failed"@,
        error == ShutdownError::FaultInjectionDefense ==> r@ == "Fault Injection Detected"@,
{
    match error {
        ShutdownError::NoError => vstd::pervasive::unreached(),
        ShutdownError::RustPanic => vstd::pervasive::unreached(),
        ShutdownError::StackSmashingProtection => "Stack Smashing Detected",
        ShutdownError::ClockSecuritySystem => "Clock Glitch Detected",
        ShutdownError::MemoryFault => "Memory Protection Fault",
        ShutdownError::NonMaskableInterrupt => "Non-Maskable Interupt Detected",
        ShutdownError::ResetFailed => "Board Reset Failed",
        ShutdownError::FaultInjectionDefense => "Fault Injection Detected",
    }
}

} // verus!
