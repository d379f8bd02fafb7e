//! Control of the audio output device.

use vstd::prelude::*;

verus! {

/// The error type of `anyhow`, by which the audio device reports failures.
#[verifier::external_type_specification]
#[verifier::external_body]
pub struct ExAnyhowError(anyhow::Error);

/// An audio output device whose volume (in percent) and mute state can be
/// read and changed.
pub trait AudioControl {
    /// Opens the default output device.
    fn new() -> Result<Self, anyhow::Error> where Self: Sized;

    /// The current volume.
    fn get_volume(&self) -> Result<u8, anyhow::Error>;

    /// Sets the volume.
    fn set_volume(&mut self, volume: u8) -> Result<(), anyhow::Error>;

    /// Whether the sound is muted.
    fn get_mute(&self) -> Result<bool, anyhow::Error>;

    /// Mutes or unmutes the sound.
    fn set_mute(&mut self, mute: bool) -> Result<(), anyhow::Error>;
}

} // verus!
