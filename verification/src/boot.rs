//! The bootstrap handshake: the strip configuration handed to the driver,
//! the one-shot boot outcome, and the readiness gate that keeps intake
//! closed until the strip capability exists.

use vstd::prelude::*;

verus! {

/// Channel index used when none is given on the command line.
pub const DEFAULT_CHANNEL_INDEX: usize = 1;

/// Signal pin used when none is given on the command line.
pub const DEFAULT_PIN: usize = 19;

/// Number of addressable LEDs on the strip.
pub const STRIP_LENGTH: usize = 300;

/// Signal frequency handed to the strip driver, in hertz.
pub const STRIP_FREQUENCY: u32 = 800_000;

/// DMA channel number handed to the strip driver.
pub const STRIP_DMA: usize = 10;

/// Fixed global brightness handed to the strip driver.
pub const STRIP_BRIGHTNESS: u8 = 55;

/// Everything the bootstrap hands to the strip driver when it constructs
/// the strip capability.
#[derive(PartialEq, Eq, Structural, Debug, Clone, Copy)]
pub struct StripConfig {
    pub pin: usize,
    pub channel_index: usize,
    pub strip_length: usize,
    pub frequency: u32,
    pub dma: usize,
    pub brightness: u8,
}

impl StripConfig {
    /// Builds the driver configuration from the optional command-line
    /// values, falling back to the defaults; the remaining fields are fixed
    /// at the system's design values.
    pub fn from_args(channel_index: Option<usize>, pin: Option<usize>) -> (c: StripConfig)
        ensures
            c.channel_index == (match channel_index {
                Some(v) => v,
                None => DEFAULT_CHANNEL_INDEX,
            }),
            c.pin == (match pin {
                Some(v) => v,
                None => DEFAULT_PIN,
            }),
            c.strip_length == STRIP_LENGTH,
            c.frequency == STRIP_FREQUENCY,
            c.dma == STRIP_DMA,
            c.brightness == STRIP_BRIGHTNESS,
    {
        let channel_v: usize = match channel_index {
            Some(v) => v,
            None => DEFAULT_CHANNEL_INDEX,
        };
        let pin_v: usize = match pin {
            Some(v) => v,
            None => DEFAULT_PIN,
        };
        StripConfig {
            pin: pin_v,
            channel_index: channel_v,
            strip_length: STRIP_LENGTH,
            frequency: STRIP_FREQUENCY,
            dma: STRIP_DMA,
            brightness: STRIP_BRIGHTNESS,
        }
    }
}

/// The one-shot outcome of constructing the strip capability, delivered
/// exactly once from the bootstrap to the process entry point. A failure is
/// fatal: the process must never open intake.
#[derive(PartialEq, Eq, Structural, Debug, Clone, Copy)]
pub enum BootResult {
    /// The strip capability exists; intake may open.
    Ready,
    /// Construction failed; intake never opens.
    Failed,
}

/// The readiness flag the entry point consults before it lets work in:
/// set exactly when bootstrap reported a working strip capability.
pub struct IntakeGate {
    open: bool,
}

impl IntakeGate {
    /// Whether intake may accept submissions.
    pub closed spec fn is_open(&self) -> bool {
        self.open
    }

    /// Builds the readiness flag from the boot outcome: intake may open
    /// only if the strip capability was constructed.
    pub fn from_boot(outcome: &BootResult) -> (g: IntakeGate)
        ensures
            g.is_open() == (*outcome is Ready),
    {
        match outcome {
            BootResult::Ready => IntakeGate { open: true },
            BootResult::Failed => IntakeGate { open: false },
        }
    }

    /// Run-time form of `is_open`.
    pub fn accepts_work(&self) -> (b: bool)
        ensures
            b == self.is_open(),
    {
        self.open
    }
}

} // verus!
