//! Length-prefixed control frames: a little-endian `u32` payload length
//! followed by that many payload bytes.
//!
//! The library owns the frame buffer, the length prefix and every decision
//! a reader or writer makes between its I/O steps; the caller performs the
//! reads, the writes and the payload encoding.

use vstd::bytes::{spec_u32_from_le_bytes, spec_u32_to_le_bytes, u32_from_le_bytes, u32_to_le_bytes};
use vstd::prelude::*;

verus! {

/// Largest accepted control frame payload.
pub const MAX_CONTROL_FRAME_LEN: usize = 65536;

/// Number of bytes of the length prefix.
pub const FRAME_PREFIX_LEN: usize = 4;

/// Errors that can happen while encoding or decoding control frames.
///
/// `CodecError` is the error type of the payload codec (postcard).
#[derive(Debug)]
pub enum Error<CodecError> {
    /// The control frame length prefix could not be read.
    ReadFrameLength(std::io::Error),
    /// The incoming frame exceeded the maximum protocol size.
    ControlFrameTooLarge(usize),
    /// The control frame payload could not be read.
    ReadFramePayload(std::io::Error),
    /// The response could not be encoded into the control protocol.
    EncodeFrame(CodecError),
    /// The encoded response was too large for the length prefix.
    EncodeFrameTooLarge(core::num::TryFromIntError),
    /// The control frame length prefix could not be written.
    WriteFrameLength(std::io::Error),
    /// The control frame payload could not be written.
    WriteFramePayload(std::io::Error),
    /// The control frame could not be flushed to the socket.
    Flush(std::io::Error),
    /// The control frame payload could not be encoded/decoded.
    Postcard(CodecError),
}

/// The payload length that a length prefix announces.
pub open spec fn announced_len(prefix: Seq<u8>) -> nat {
    spec_u32_from_le_bytes(prefix) as nat
}

/// The length prefix written in front of a payload of `len` bytes.
pub open spec fn prefix_for(len: nat) -> Seq<u8> {
    spec_u32_to_le_bytes(len as u32)
}

/// Whether a payload of `len` bytes is accepted by a reader.
pub open spec fn acceptable_len(len: nat) -> bool {
    len <= MAX_CONTROL_FRAME_LEN
}

/// The complete frame that carries `payload`.
pub open spec fn frame_of(payload: Seq<u8>) -> Seq<u8> {
    prefix_for(payload.len()) + payload
}

/// What filling the length prefix of the next frame gave.
pub enum PrefixRead {
    /// All four prefix bytes arrived.
    Filled([u8; 4]),
    /// The stream ended before a new frame began.
    EndOfStream,
    /// Reading failed for another reason.
    Failed(std::io::Error),
}

/// Which write step of a frame an I/O result belongs to.
#[derive(Clone, Copy, Debug, PartialEq, Eq, Structural)]
pub enum WriteStep {
    /// Writing the length prefix.
    Prefix,
    /// Writing the payload bytes.
    Payload,
    /// Flushing the writer.
    Flush,
}

/// Encode the length prefix of a frame whose payload has `payload_len` bytes.
///
/// Fails when the length does not fit the `u32` prefix.
pub fn encode_frame_length<C>(payload_len: usize) -> (prefix: Result<Vec<u8>, Error<C>>)
    ensures
        match prefix {
            Ok(bytes) => payload_len <= u32::MAX && bytes@ == prefix_for(payload_len as nat)
                && bytes@.len() == FRAME_PREFIX_LEN,
            Err(e) => payload_len > u32::MAX && e is EncodeFrameTooLarge,
        },
{
    match u32::try_from(payload_len) {
        Ok(len) => Ok(u32_to_le_bytes(len)),
        Err(e) => Err(Error::EncodeFrameTooLarge(e)),
    }
}

/// Decode a length prefix and check it against [`MAX_CONTROL_FRAME_LEN`].
pub fn decode_frame_length<C>(prefix: &[u8]) -> (len: Result<usize, Error<C>>)
    requires
        prefix@.len() == FRAME_PREFIX_LEN,
    ensures
        match len {
            Ok(n) => n == announced_len(prefix@) && acceptable_len(n as nat),
            Err(e) => !acceptable_len(announced_len(prefix@)) && e == Error::<C>::ControlFrameTooLarge(
                announced_len(prefix@) as usize,
            ),
        },
{
    let len = u32_from_le_bytes(prefix) as usize;
    if len > MAX_CONTROL_FRAME_LEN {
        Err(Error::ControlFrameTooLarge(len))
    } else {
        Ok(len)
    }
}

/// Decide what follows the length prefix of a frame being read.
///
/// `Ok(None)` means the stream ended cleanly before a new frame began;
/// `Ok(Some(len))` asks the reader for exactly `len` payload bytes.
pub fn after_prefix<C>(read: PrefixRead) -> (next: Result<Option<usize>, Error<C>>)
    ensures
        match read {
            PrefixRead::Filled(bytes) => match next {
                Ok(Some(n)) => n == announced_len(bytes@) && acceptable_len(n as nat),
                Ok(None) => false,
                Err(e) => !acceptable_len(announced_len(bytes@)) && e
                    == Error::<C>::ControlFrameTooLarge(announced_len(bytes@) as usize),
            },
            PrefixRead::EndOfStream => next == Ok::<Option<usize>, Error<C>>(None),
            PrefixRead::Failed(source) => next == Err::<Option<usize>, Error<C>>(
                Error::ReadFrameLength(source),
            ),
        },
{
    match read {
        PrefixRead::Filled(bytes) => match decode_frame_length::<C>(bytes.as_slice()) {
            Ok(len) => Ok(Some(len)),
            Err(e) => Err(e),
        },
        PrefixRead::EndOfStream => Ok(None),
        PrefixRead::Failed(source) => Err(Error::ReadFrameLength(source)),
    }
}

/// Decide what follows reading the `len` payload bytes of a frame.
pub fn after_payload<C>(len: usize, read: Result<(), std::io::Error>) -> (next: Result<usize, Error<C>>)
    ensures
        match read {
            Ok(()) => next == Ok::<usize, Error<C>>(len),
            Err(source) => next == Err::<usize, Error<C>>(Error::ReadFramePayload(source)),
        },
{
    match read {
        Ok(()) => Ok(len),
        Err(source) => Err(Error::ReadFramePayload(source)),
    }
}

/// The result of a frame read once its payload has been decoded.
pub fn after_decode<T, C>(decoded: Result<T, C>) -> (frame: Result<Option<T>, Error<C>>)
    ensures
        match decoded {
            Ok(value) => frame == Ok::<Option<T>, Error<C>>(Some(value)),
            Err(source) => frame == Err::<Option<T>, Error<C>>(Error::Postcard(source)),
        },
{
    match decoded {
        Ok(value) => Ok(Some(value)),
        Err(source) => Err(Error::Postcard(source)),
    }
}

/// The payload length once the payload has been encoded into the buffer.
pub fn after_encode<C>(encoded: Result<usize, C>) -> (len: Result<usize, Error<C>>)
    ensures
        match encoded {
            Ok(n) => len == Ok::<usize, Error<C>>(n),
            Err(source) => len == Err::<usize, Error<C>>(Error::Postcard(source)),
        },
{
    match encoded {
        Ok(n) => Ok(n),
        Err(source) => Err(Error::Postcard(source)),
    }
}

/// The result of one write step of a frame.
pub fn after_write<C>(step: WriteStep, written: Result<(), std::io::Error>) -> (next: Result<(), Error<C>>)
    ensures
        match written {
            Ok(()) => next == Ok::<(), Error<C>>(()),
            Err(source) => next == Err::<(), Error<C>>(
                match step {
                    WriteStep::Prefix => Error::WriteFrameLength(source),
                    WriteStep::Payload => Error::WriteFramePayload(source),
                    WriteStep::Flush => Error::Flush(source),
                },
            ),
        },
{
    match written {
        Ok(()) => Ok(()),
        Err(source) => Err(
            match step {
                WriteStep::Prefix => Error::WriteFrameLength(source),
                WriteStep::Payload => Error::WriteFramePayload(source),
                WriteStep::Flush => Error::Flush(source),
            },
        ),
    }
}

/// A prefix written for a payload of acceptable length announces exactly
/// that length, and a reader accepts it.
pub proof fn lemma_prefix_roundtrip(len: nat)
    requires
        acceptable_len(len),
    ensures
        prefix_for(len).len() == FRAME_PREFIX_LEN,
        announced_len(prefix_for(len)) == len,
{
    vstd::bytes::lemma_auto_spec_u32_to_from_le_bytes();
    assert((len as u32) as nat == len);
}

/// Every four-byte prefix is the prefix written for the length it announces.
pub proof fn lemma_prefix_canonical(prefix: Seq<u8>)
    requires
        prefix.len() == FRAME_PREFIX_LEN,
    ensures
        prefix_for(announced_len(prefix)) == prefix,
{
    vstd::bytes::lemma_auto_spec_u32_to_from_le_bytes();
}

/// A frame carrying an acceptable payload splits back into its prefix,
/// which announces the payload's length, and the payload itself.
pub proof fn lemma_frame_roundtrip(payload: Seq<u8>)
    requires
        acceptable_len(payload.len()),
    ensures
        frame_of(payload).len() == FRAME_PREFIX_LEN + payload.len(),
        announced_len(frame_of(payload).take(FRAME_PREFIX_LEN as int)) == payload.len(),
        frame_of(payload).skip(FRAME_PREFIX_LEN as int) == payload,
{
    lemma_prefix_roundtrip(payload.len());
    assert(frame_of(payload).take(FRAME_PREFIX_LEN as int) =~= prefix_for(payload.len()));
    assert(frame_of(payload).skip(FRAME_PREFIX_LEN as int) =~= payload);
}

/// The bytes of a connection that carries one frame for each of `payloads`,
/// in order.
pub open spec fn stream_of(payloads: Seq<Seq<u8>>) -> Seq<u8>
    decreases payloads.len(),
{
    if payloads.len() == 0 {
        Seq::empty()
    } else {
        frame_of(payloads[0]) + stream_of(payloads.drop_first())
    }
}

/// What a reader takes from the front of `stream`: the payload of the first
/// frame and the bytes after it, or `None` when no complete frame begins
/// there.
pub open spec fn next_frame(stream: Seq<u8>) -> Option<(Seq<u8>, Seq<u8>)> {
    if stream.len() < FRAME_PREFIX_LEN {
        None
    } else {
        let len = announced_len(stream.take(FRAME_PREFIX_LEN as int));
        if stream.len() < FRAME_PREFIX_LEN + len {
            None
        } else {
            Some(
                (
                    stream.subrange(FRAME_PREFIX_LEN as int, FRAME_PREFIX_LEN + len),
                    stream.skip(FRAME_PREFIX_LEN + len),
                ),
            )
        }
    }
}

/// A connection that carries frames for acceptable payloads is read back
/// frame by frame, in order: each read takes exactly the next payload and
/// leaves the frames after it, and once all are read the stream is empty.
pub proof fn lemma_frames_read_in_order(payloads: Seq<Seq<u8>>)
    requires
        forall|i: int| 0 <= i < payloads.len() ==> acceptable_len(#[trigger] payloads[i].len()),
    ensures
        payloads.len() == 0 ==> stream_of(payloads).len() == 0,
        payloads.len() > 0 ==> next_frame(stream_of(payloads)) == Some(
            (payloads[0], stream_of(payloads.drop_first())),
        ),
{
    if payloads.len() > 0 {
        let p = payloads[0];
        let rest = stream_of(payloads.drop_first());
        let s = stream_of(payloads);
        assert(acceptable_len(payloads[0].len()));
        lemma_frame_roundtrip(p);
        let n = FRAME_PREFIX_LEN as int;
        assert(s == frame_of(p) + rest);
        assert(s.take(n) =~= frame_of(p).take(n));
        assert(s.subrange(n, n + p.len()) =~= frame_of(p).skip(n));
        assert(s.skip(n + p.len()) =~= rest);
    }
}

/// Reusable storage for one encoded or decoded control frame.
pub struct ControlFrameBuffer {
    /// Raw frame payload bytes.
    bytes: [u8; 65536],
}

impl ControlFrameBuffer {
    /// The stored bytes.
    pub closed spec fn contents(&self) -> Seq<u8> {
        self.bytes@
    }

    /// The storage always holds [`MAX_CONTROL_FRAME_LEN`] bytes.
    pub proof fn lemma_contents_len(&self)
        ensures
            self.contents().len() == MAX_CONTROL_FRAME_LEN,
    {
    }

    /// Create an empty frame buffer.
    pub fn new() -> (buffer: Self)
        ensures
            buffer.contents().len() == MAX_CONTROL_FRAME_LEN,
            forall|i: int| 0 <= i < MAX_CONTROL_FRAME_LEN ==> buffer.contents()[i] == 0u8,
    {
        ControlFrameBuffer { bytes: [0u8; 65536] }
    }

    /// The whole storage, for an encoder or a reader to fill.
    pub fn storage_mut(&mut self) -> (storage: &mut [u8; 65536])
        ensures
            storage@ == old(self).contents(),
            final(self).contents() == final(storage)@,
    {
        &mut self.bytes
    }

    /// The first `len` stored bytes: the payload of the current frame.
    pub fn payload(&self, len: usize) -> (payload: &[u8])
        requires
            len <= MAX_CONTROL_FRAME_LEN,
        ensures
            payload@ == self.contents().take(len as int),
    {
        let all = self.bytes.as_slice();
        vstd::slice::slice_subrange(all, 0, len)
    }
}

impl Default for ControlFrameBuffer {
    fn default() -> (buffer: Self)
        ensures
            buffer.contents().len() == MAX_CONTROL_FRAME_LEN,
            forall|i: int| 0 <= i < MAX_CONTROL_FRAME_LEN ==> buffer.contents()[i] == 0u8,
    {
        Self::new()
    }
}

} // verus!
