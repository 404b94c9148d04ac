//! The descriptor of one constructible session.

use crate::common::{DataFormat, DeviceHandle, Driver, API};
use vstd::prelude::*;

verus! {

/// Everything that fixes one session: which driver, on which adapter, for
/// which codec and API, and whether decoded output must be shareable.
///
/// Two contexts are the same only if all fields agree. A context is built by
/// hand or comes out of capability discovery; it is not changed afterwards.
#[derive(Clone, Copy, Debug, PartialEq, Eq, Hash)]
pub struct DecodeContext {
    /// An external device to decode on, if the caller lends one.
    pub device: Option<DeviceHandle>,
    pub driver: Driver,
    pub data_format: DataFormat,
    pub api: API,
    pub output_shared_handle: bool,
    /// The adapter's locally-unique identifier; zero while unresolved.
    pub luid: u64,
}

/// The foreign constructor call that a context asks for: the driver whose
/// call table is to be used, and the five arguments in the order the
/// constructor takes them.
#[derive(Clone, Copy, Debug, PartialEq, Eq, Hash)]
pub struct CreateCall {
    pub driver: Driver,
    /// The lent device, or the null handle.
    pub device: DeviceHandle,
    pub luid: u64,
    pub api: i32,
    pub data_format: i32,
    pub output_shared_handle: bool,
}

impl DecodeContext {
    pub open spec fn create_call_spec(self) -> CreateCall {
        CreateCall {
            driver: self.driver,
            device: match self.device {
                Some(d) => d,
                None => DeviceHandle { addr: 0 },
            },
            luid: self.luid,
            api: self.api.selector,
            data_format: self.data_format.code_spec(),
            output_shared_handle: self.output_shared_handle,
        }
    }

    /// The constructor call for this context. The backend's answer, a codec
    /// handle, goes to [`crate::decode::Decoder::new`].
    #[verifier::when_used_as_spec(create_call_spec)]
    pub fn create_call(self) -> (call: CreateCall)
        ensures
            call == self.create_call_spec(),
    {
        let device = match self.device {
            Some(d) => d,
            None => DeviceHandle::null(),
        };
        CreateCall {
            driver: self.driver,
            device,
            luid: self.luid,
            api: self.api.selector,
            data_format: self.data_format.code(),
            output_shared_handle: self.output_shared_handle,
        }
    }

    pub open spec fn with_luid_spec(self, luid: u64) -> DecodeContext {
        DecodeContext { luid, ..self }
    }

    /// This context bound to the adapter `luid`; every other field is kept.
    #[verifier::when_used_as_spec(with_luid_spec)]
    pub fn with_luid(self, luid: u64) -> (ctx: DecodeContext)
        ensures
            ctx == self.with_luid_spec(luid),
    {
        DecodeContext {
            device: self.device,
            driver: self.driver,
            data_format: self.data_format,
            api: self.api,
            output_shared_handle: self.output_shared_handle,
            luid,
        }
    }
}

} // verus!
