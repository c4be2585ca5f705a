use vstd::prelude::*;

use std::marker::PhantomData;

use crate::format::SupportedFormat;

verus! {

/// The devices that the backend offers: OpenSL ES does not enumerate any.
pub struct Devices;

impl Default for Devices {
    fn default() -> (r: Devices)
        ensures
            r == Devices,
    {
        Devices
    }
}

impl Devices {
    /// The next device of the enumeration: there is none.
    pub fn next(&mut self) -> (r: Option<Device>)
        ensures
            r is None,
    {
        None
    }
}

/// The default recording device: the backend names none.
pub fn default_input_device() -> (r: Option<Device>)
    ensures
        r is None,
{
    None
}

/// The default playback device: the backend names none.
pub fn default_output_device() -> (r: Option<Device>)
    ensures
        r is None,
{
    None
}

/// An audio device of the backend.
#[derive(Clone, Copy, Debug, PartialEq, Eq, Structural)]
pub struct Device;

impl Device {
    /// The device's name, which is always "null".
    pub fn name(&self) -> (r: String)
        ensures
            r@ == "null"@,
    {
        "null".to_string()
    }
}

/// The input formats of a device: none are listed.
pub struct SupportedInputFormats;

/// The output formats of a device: none are listed.
pub struct SupportedOutputFormats;

impl SupportedInputFormats {
    /// The next supported format: there is none.
    pub fn next(&mut self) -> (r: Option<SupportedFormat>)
        ensures
            r is None,
    {
        None
    }
}

impl SupportedOutputFormats {
    /// The next supported format: there is none.
    pub fn next(&mut self) -> (r: Option<SupportedFormat>)
        ensures
            r is None,
    {
        None
    }
}

/// A buffer of recorded samples handed to the user callback.
pub struct InputBuffer<'a, T: 'a> {
    marker: PhantomData<&'a T>,
}

/// A buffer of samples to be played, filled by the user callback.
pub struct OutputBuffer<'a, T: 'a> {
    marker: PhantomData<&'a mut T>,
}

impl<'a, T> InputBuffer<'a, T> {
    /// Hands the buffer back; nothing is left to do.
    pub fn finish(self) {
    }
}

impl<'a, T> OutputBuffer<'a, T> {
    /// The number of samples in the buffer, which is always 0.
    pub fn len(&self) -> (r: usize)
        ensures
            r == 0,
    {
        0
    }

    /// Hands the buffer back; nothing is left to do.
    pub fn finish(self) {
    }
}

} // verus!
