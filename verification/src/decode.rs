//! The decode session.
//!
//! A session stands for one backend decoder instance. It holds the codec
//! handle, the context it was built from, and the buffer that collects the
//! frames of the current packet. The backend is driven from outside; the
//! session is told what happened, in the order in which it happens:
//!
//! 1. [`DecodeContext::create_call`] names the constructor call; its answer
//!    goes to [`Decoder::new`].
//! 2. For each packet, [`Decoder::decode`] empties the buffer and names the
//!    decode call. While that call runs, the backend's frame callback is
//!    forwarded to [`Decoder::callback`], once per frame. The call's status
//!    goes to [`Decoder::finish`], which hands out the frames.
//! 3. [`Decoder::close`] names the handle to destroy, once.

use crate::common::{CodecHandle, TextureHandle};
use crate::context::DecodeContext;
use vstd::prelude::*;

verus! {

/// One decoded frame: a reference to a surface in GPU memory. The frame does
/// not own the surface.
#[derive(Clone, Copy, Debug, PartialEq, Eq, Hash)]
pub struct DecodeFrame {
    pub texture: TextureHandle,
}

/// One foreign decode call: the instance to feed and the packet's length as
/// the call takes it.
#[derive(Clone, Copy, Debug, PartialEq, Eq, Hash)]
pub struct DecodeCall {
    pub codec: CodecHandle,
    pub data_len: u32,
}

/// What a session is, mathematically: its context, its codec handle (null
/// once closed), and the frames in its buffer, oldest first.
pub struct SessionState {
    pub ctx: DecodeContext,
    pub codec: CodecHandle,
    pub frames: Seq<DecodeFrame>,
}

/// The frames that a run of callbacks leaves, one per texture, in order.
pub open spec fn frames_of(textures: Seq<TextureHandle>) -> Seq<DecodeFrame> {
    Seq::new(textures.len(), |i: int| DecodeFrame { texture: textures[i] })
}

impl SessionState {
    /// A session is open from construction until it is closed.
    pub open spec fn is_open(self) -> bool {
        !self.codec.is_null_spec()
    }

    /// The session that construction gives.
    pub open spec fn created(ctx: DecodeContext, codec: CodecHandle) -> SessionState {
        SessionState { ctx, codec, frames: Seq::empty() }
    }

    /// The session at the start of a decode call: the buffer is empty.
    pub open spec fn cleared(self) -> SessionState {
        SessionState { frames: Seq::empty(), ..self }
    }

    /// The session after one callback: one more frame, at the end.
    pub open spec fn emitted(self, texture: TextureHandle) -> SessionState {
        SessionState { frames: self.frames.push(DecodeFrame { texture }), ..self }
    }

    /// The session after a run of callbacks, one per texture, in order.
    pub open spec fn emitted_all(self, textures: Seq<TextureHandle>) -> SessionState
        decreases textures.len(),
    {
        if textures.len() == 0 {
            self
        } else {
            self.emitted_all(textures.drop_last()).emitted(textures.last())
        }
    }

    /// The session after one whole decode call during which the backend
    /// reported `textures`.
    pub open spec fn decoded(self, textures: Seq<TextureHandle>) -> SessionState {
        self.cleared().emitted_all(textures)
    }

    /// The handle that closing this session asks to destroy, if any.
    pub open spec fn to_destroy(self) -> Option<CodecHandle> {
        if self.is_open() {
            Some(self.codec)
        } else {
            None
        }
    }

    /// The session after closing: no handle, no frames.
    pub open spec fn closed(self) -> SessionState {
        SessionState { codec: CodecHandle { addr: 0 }, frames: Seq::empty(), ..self }
    }
}

/// A decode session.
pub struct Decoder {
    codec: CodecHandle,
    frames: Vec<DecodeFrame>,
    ctx: DecodeContext,
}

impl View for Decoder {
    type V = SessionState;

    closed spec fn view(&self) -> SessionState {
        SessionState { ctx: self.ctx, codec: self.codec, frames: self.frames@ }
    }
}

impl Decoder {
    /// Builds the session for `ctx` from the handle that the backend's
    /// constructor returned for [`DecodeContext::create_call`].
    ///
    /// Fails if and only if the handle is null: the backend does not support
    /// this combination. Nothing else makes construction fail.
    pub fn new(ctx: DecodeContext, codec: CodecHandle) -> (r: Result<Decoder, ()>)
        ensures
            match r {
                Ok(session) => !codec.is_null() && session@ == SessionState::created(ctx, codec),
                Err(_) => codec.is_null(),
            },
    {
        if codec.is_null() {
            return Err(());
        }
        Ok(Decoder { codec, frames: Vec::new(), ctx })
    }

    /// The context this session was built from.
    pub fn ctx(&self) -> (ctx: &DecodeContext)
        ensures
            *ctx == self@.ctx,
    {
        &self.ctx
    }

    /// Whether the session still holds its backend instance.
    pub fn is_open(&self) -> (b: bool)
        ensures
            b == self@.is_open(),
    {
        !self.codec.is_null()
    }

    /// Starts decoding one packet: empties the frame buffer, so that every
    /// frame handed out before is gone, and names the foreign call to make.
    ///
    /// The call takes the packet's length as a 32-bit number; a longer
    /// packet's length is cut to its low 32 bits.
    pub fn decode(&mut self, packet: &[u8]) -> (call: DecodeCall)
        requires
            old(self)@.is_open(),
        ensures
            final(self)@ == old(self)@.cleared(),
            call.codec == old(self)@.codec,
            call.data_len == packet@.len() % 0x1_0000_0000,
    {
        self.frames.clear();
        let len: u64 = packet.len() as u64;
        let data_len: u32 = #[verifier::truncate] (len as u32);
        assert(data_len == len % 0x1_0000_0000) by (bit_vector)
            requires
                data_len == len as u32,
        ;
        DecodeCall { codec: self.codec, data_len }
    }

    /// The frame callback: appends one frame for the texture that the
    /// backend reports. Frames stay in the order in which they are reported.
    pub fn callback(&mut self, texture: TextureHandle)
        requires
            old(self)@.is_open(),
        ensures
            final(self)@ == old(self)@.emitted(texture),
    {
        self.frames.push(DecodeFrame { texture });
    }

    /// The frames in the buffer: those reported since the last call of
    /// [`Decoder::decode`], also when the decode call went on to fail.
    pub fn frames(&self) -> (frames: &Vec<DecodeFrame>)
        ensures
            frames@ == self@.frames,
    {
        &self.frames
    }

    /// Ends a decode call with the status that the backend returned.
    ///
    /// Status zero hands out the frame buffer. Any other status is the
    /// failure code of this packet and is given back as it is; the buffer
    /// keeps what was reported before the failure, and the session stays
    /// usable.
    pub fn finish(&mut self, status: i32) -> (r: Result<&mut Vec<DecodeFrame>, i32>)
        ensures
            match r {
                Ok(frames) => status == 0 && frames@ == old(self)@.frames && final(self)@ == (
                SessionState { frames: final(frames)@, ..old(self)@ }),
                Err(code) => status != 0 && code == status && final(self)@ == old(self)@,
            },
    {
        if status != 0 {
            Err(status)
        } else {
            Ok(&mut self.frames)
        }
    }

    /// Closes the session and names the handle to destroy.
    ///
    /// The first call on a session gives its handle, which the caller must
    /// destroy; every later call gives `None`. How the last decode call
    /// ended makes no difference.
    pub fn close(&mut self) -> (handle: Option<CodecHandle>)
        ensures
            handle == old(self)@.to_destroy(),
            final(self)@ == old(self)@.closed(),
    {
        let handle = if self.codec.is_null() {
            None
        } else {
            Some(self.codec)
        };
        self.codec = CodecHandle::null();
        self.frames = Vec::new();
        handle
    }
}

/// A run of callbacks appends its frames to the buffer, in callback order,
/// and leaves the handle and the context alone.
pub proof fn lemma_callbacks_append_in_order(s: SessionState, textures: Seq<TextureHandle>)
    ensures
        s.emitted_all(textures).frames == s.frames + frames_of(textures),
        s.emitted_all(textures).codec == s.codec,
        s.emitted_all(textures).ctx == s.ctx,
    decreases textures.len(),
{
    if textures.len() > 0 {
        lemma_callbacks_append_in_order(s, textures.drop_last());
        assert(frames_of(textures) == frames_of(textures.drop_last()).push(
            DecodeFrame { texture: textures.last() },
        ));
    }
}

/// Frame order is callback order: after a decode call during which the
/// backend reported `textures`, the buffer holds exactly one frame per
/// report, the `i`-th frame wrapping the `i`-th texture, whatever the buffer
/// held before.
pub proof fn lemma_decode_yields_reported_frames(s: SessionState, textures: Seq<TextureHandle>)
    ensures
        s.decoded(textures).frames == frames_of(textures),
        s.decoded(textures).frames.len() == textures.len(),
        forall|i: int|
            0 <= i < textures.len() ==> (#[trigger] s.decoded(textures).frames[i]).texture
                == textures[i],
{
    lemma_callbacks_append_in_order(s.cleared(), textures);
}

/// A decode call leaves nothing of the call before it: two calls in
/// sequence end in the same state as the second call alone, with the second
/// call's frames and no others.
pub proof fn lemma_decode_forgets_earlier_frames(
    s: SessionState,
    first: Seq<TextureHandle>,
    second: Seq<TextureHandle>,
)
    ensures
        s.decoded(first).decoded(second) == s.decoded(second),
        s.decoded(first).decoded(second).frames == frames_of(second),
{
    lemma_callbacks_append_in_order(s.cleared(), first);
    lemma_callbacks_append_in_order(s.cleared(), second);
    lemma_callbacks_append_in_order(s.decoded(first).cleared(), second);
    assert(s.decoded(first).cleared() == s.cleared());
}

/// An open session stays open, on the same handle and context, through
/// every decode call; only closing ends it.
pub proof fn lemma_open_until_closed(s: SessionState, textures: Seq<TextureHandle>)
    requires
        s.is_open(),
    ensures
        s.decoded(textures).is_open(),
        s.decoded(textures).codec == s.codec,
        s.decoded(textures).ctx == s.ctx,
        !s.closed().is_open(),
{
    lemma_callbacks_append_in_order(s.cleared(), textures);
}

/// The handle is destroyed exactly once. Closing an open session names its
/// handle, also right after a decode call that failed part-way with
/// `textures` already reported; closing it again names nothing.
pub proof fn lemma_close_names_handle_once(s: SessionState, textures: Seq<TextureHandle>)
    requires
        s.is_open(),
    ensures
        s.decoded(textures).to_destroy() == Some(s.codec),
        s.decoded(textures).closed().to_destroy() == None::<CodecHandle>,
        s.decoded(textures).closed().closed() == s.decoded(textures).closed(),
{
    lemma_open_until_closed(s, textures);
}

} // verus!
