//! Session and capability-discovery core for hardware video decoding.
//!
//! Three vendor drivers sit underneath a hardware decoder, each exposing the
//! same four foreign entry points (create, decode, destroy, trial). This
//! crate holds everything that is decided around those entry points and
//! nothing that calls them: it says which call is to be made with which
//! arguments, and what follows from each answer. The embedding program makes
//! the calls and hands the answers back.
//!
//! * [`common`] — drivers, codecs, opaque handles, adapter descriptors.
//! * [`context`] — the descriptor of one constructible session and the
//!   arguments of the foreign constructor derived from it.
//! * [`decode`] — the decode session: frame buffer, callback bridge,
//!   teardown.
//! * [`probe`] — capability discovery: candidate drafts, trial calls, and the
//!   harvest of adapters that accepted a trial.

pub mod common;
pub mod context;
pub mod decode;
pub mod probe;

pub use common::{
    AdapterDesc, CodecHandle, DataFormat, DeviceHandle, Driver, TextureHandle, API,
    MAX_ADAPTER_NUM_ONE_VENDOR,
};
pub use context::{CreateCall, DecodeContext};
pub use decode::{DecodeCall, DecodeFrame, Decoder, SessionState};
pub use probe::{
    available, candidates, draft, sample_for, trial_call, Candidate, Sample, TrialCall,
    TrialReport,
};
