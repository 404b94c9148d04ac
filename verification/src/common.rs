//! Value types shared by the session and the capability prober.

use vstd::prelude::*;

verus! {

/// The number of adapter descriptors a trial can report for one vendor: the
/// capacity of the buffer handed to the foreign trial call.
pub const MAX_ADAPTER_NUM_ONE_VENDOR: usize = 4;

/// One vendor's hardware decode SDK. Selects the foreign call table.
#[derive(Clone, Copy, Debug, PartialEq, Eq, Hash)]
pub enum Driver {
    NV,
    AMF,
    VPL,
}

/// The bitstream syntax of the packets fed to a session.
#[derive(Clone, Copy, Debug, PartialEq, Eq, Hash)]
pub enum DataFormat {
    H264,
    H265,
    VP8,
    VP9,
    AV1,
}

impl DataFormat {
    /// The integer by which the foreign calls know this format: the position
    /// of the variant in the declaration.
    pub open spec fn code_spec(self) -> i32 {
        match self {
            DataFormat::H264 => 0i32,
            DataFormat::H265 => 1i32,
            DataFormat::VP8 => 2i32,
            DataFormat::VP9 => 3i32,
            DataFormat::AV1 => 4i32,
        }
    }

    #[verifier::when_used_as_spec(code_spec)]
    pub fn code(self) -> (c: i32)
        ensures
            c == self.code_spec(),
    {
        match self {
            DataFormat::H264 => 0,
            DataFormat::H265 => 1,
            DataFormat::VP8 => 2,
            DataFormat::VP9 => 3,
            DataFormat::AV1 => 4,
        }
    }
}

/// The native acceleration API variant a backend is asked to use. Nothing is
/// known of it here but the integer selector that the foreign calls take.
#[derive(Clone, Copy, Debug, PartialEq, Eq, Hash)]
pub struct API {
    pub selector: i32,
}

/// One GPU adapter as a trial reports it, reduced to its locally-unique
/// identifier.
#[derive(Clone, Copy, Debug, PartialEq, Eq, Hash)]
pub struct AdapterDesc {
    pub luid: u64,
}

/// An external device the caller lends to a session. Borrowed, never owned.
#[derive(Clone, Copy, Debug, PartialEq, Eq, Hash)]
pub struct DeviceHandle {
    pub addr: usize,
}

/// A backend decoder instance. Address zero is the null handle, which stands
/// for "no instance". A non-null handle belongs to exactly one session.
#[derive(Clone, Copy, Debug, PartialEq, Eq, Hash)]
pub struct CodecHandle {
    pub addr: usize,
}

/// A decoded surface in GPU memory. A reference only: the backend and the
/// consumer manage what it points to.
#[derive(Clone, Copy, Debug, PartialEq, Eq, Hash)]
pub struct TextureHandle {
    pub addr: usize,
}

impl DeviceHandle {
    /// The handle passed to a backend when the caller lends no device.
    pub fn null() -> (h: DeviceHandle)
        ensures
            h.addr == 0,
    {
        DeviceHandle { addr: 0 }
    }
}

impl CodecHandle {
    pub open spec fn is_null_spec(self) -> bool {
        self.addr == 0
    }

    pub fn null() -> (h: CodecHandle)
        ensures
            h.addr == 0,
    {
        CodecHandle { addr: 0 }
    }

    #[verifier::when_used_as_spec(is_null_spec)]
    pub fn is_null(self) -> (b: bool)
        ensures
            b == self.is_null_spec(),
    {
        self.addr == 0
    }
}

} // verus!
