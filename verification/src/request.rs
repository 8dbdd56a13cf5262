//! What a playback call is asked to do.

use vstd::prelude::*;

verus! {

/// The bit pattern of the gain and of the speed that leave the audio as it
/// is: the single-precision number one.
pub const UNITY_BITS: u32 = 0x3F80_0000;

/// What one playback call asks for, as the contracts speak of it.
pub struct PlaybackRequest {
    /// The name of the output device to play on.
    pub device_name: Seq<char>,
    /// The encoded audio; its format is found from the bytes themselves.
    pub data: Seq<u8>,
    /// The linear gain, as the bits of a single-precision number.
    pub volume_bits: u32,
    /// The speed multiplier, as the bits of a single-precision number.
    pub rate_bits: u32,
}

/// One request to play an audio buffer on a named output device.
///
/// Gain and speed are carried as the IEEE 754 bit patterns of the
/// single-precision numbers that the caller sent. The library hands them on
/// unchanged and never computes with them.
#[derive(Debug, PartialEq, Eq)]
pub struct RpcAudioPlayAsync {
    pub device_name: String,
    pub data: Vec<u8>,
    pub volume_bits: u32,
    pub rate_bits: u32,
}

impl View for RpcAudioPlayAsync {
    type V = PlaybackRequest;

    open spec fn view(&self) -> PlaybackRequest {
        PlaybackRequest {
            device_name: self.device_name@,
            data: self.data@,
            volume_bits: self.volume_bits,
            rate_bits: self.rate_bits,
        }
    }
}

} // verus!
