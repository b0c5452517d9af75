//! Length-delimited framing for the local IPC boundary.
//!
//! Every message is a big-endian `u32` byte length followed by that many bytes.
//! Frames are bounded so a hostile or buggy peer cannot force an unbounded
//! allocation; an over-long or truncated frame fails closed.
use vstd::prelude::*;

use crate::text::decimal;

verus! {

/// The largest frame body the broker will read or write, in bytes.
pub const MAX_FRAME_BYTES: u32 = 0x0010_0000;

/// What is wrong with a stream of frames.
#[derive(Clone, Debug)]
pub enum StreamFault {
    /// The stream ended inside a length prefix.
    TruncatedPrefix,
    /// The stream ended inside a frame body. The sentence is the one in which
    /// `tokio`'s exact reads report an early end.
    TruncatedBody,
    /// A frame declares no body.
    Empty,
    /// The transport failed, in these words.
    Transport(String),
}

/// A failure while reading or writing a length-delimited frame.
#[derive(Clone, Debug)]
pub enum FrameError {
    /// The underlying stream could not be read as a frame.
    Io(StreamFault),
    /// The declared or supplied frame length exceeds [`MAX_FRAME_BYTES`].
    TooLarge {
        /// The rejected frame length in bytes.
        length: u64,
    },
}

impl FrameError {
    /// The sentence that describes the failure.
    pub open spec fn sentence(&self) -> Seq<char> {
        match self {
            FrameError::Io(StreamFault::TruncatedPrefix) => "truncated frame length prefix"@,
            FrameError::Io(StreamFault::TruncatedBody) => "early eof"@,
            FrameError::Io(StreamFault::Empty) => "empty frame"@,
            FrameError::Io(StreamFault::Transport(why)) => why@,
            FrameError::TooLarge { length } => "frame length "@ + crate::text::decimal_digits(*length as nat)
                + " exceeds the "@ + crate::text::decimal_digits(MAX_FRAME_BYTES as nat) + " byte maximum"@,
        }
    }

    /// The sentence that describes the failure.
    pub fn message(&self) -> (text: String)
        ensures
            text@ == self.sentence(),
    {
        match self {
            FrameError::Io(StreamFault::TruncatedPrefix) => "truncated frame length prefix".to_owned(),
            FrameError::Io(StreamFault::TruncatedBody) => "early eof".to_owned(),
            FrameError::Io(StreamFault::Empty) => "empty frame".to_owned(),
            FrameError::Io(StreamFault::Transport(why)) => why.clone(),
            FrameError::TooLarge { length } => "frame length ".to_owned()
                .concat(decimal(*length).as_str())
                .concat(" exceeds the ")
                .concat(decimal(MAX_FRAME_BYTES as u64).as_str())
                .concat(" byte maximum"),
        }
    }
}

/// The length prefix of a body: its length, most significant byte first.
pub open spec fn prefix(length: nat) -> Seq<u8> {
    seq![
        (length / 0x100_0000 % 0x100) as u8,
        (length / 0x1_0000 % 0x100) as u8,
        (length / 0x100 % 0x100) as u8,
        (length % 0x100) as u8,
    ]
}

/// The length that a prefix declares.
pub open spec fn declared(bytes: Seq<u8>) -> nat {
    (bytes[0] * 0x100_0000 + bytes[1] * 0x1_0000 + bytes[2] * 0x100 + bytes[3]) as nat
}

/// The bytes that carry a body.
pub open spec fn framed(body: Seq<u8>) -> Seq<u8> {
    prefix(body.len()) + body
}

/// Where reading a frame stands once these bytes of the stream are in.
#[verifier::ext_equal]
pub enum Progress {
    /// At least this many more bytes belong to the frame.
    Wants(nat),
    /// The body is complete.
    Complete(Seq<u8>),
    /// The frame declares no body.
    Empty,
    /// The frame declares more than [`MAX_FRAME_BYTES`].
    TooLarge(nat),
}

/// Where reading a frame stands once these bytes of the stream are in.
pub open spec fn progress(bytes: Seq<u8>) -> Progress {
    if bytes.len() < 4 {
        Progress::Wants((4 - bytes.len()) as nat)
    } else if declared(bytes) == 0 {
        Progress::Empty
    } else if declared(bytes) > MAX_FRAME_BYTES {
        Progress::TooLarge(declared(bytes))
    } else if bytes.len() < 4 + declared(bytes) {
        Progress::Wants((4 + declared(bytes) - bytes.len()) as nat)
    } else {
        Progress::Complete(bytes.subrange(4, 4 + declared(bytes) as int))
    }
}

/// Puts a body in a frame.
pub fn write_frame(body: &Vec<u8>) -> (written: Result<Vec<u8>, FrameError>)
    ensures
        if body@.len() > MAX_FRAME_BYTES {
            written == Err::<Vec<u8>, FrameError>(FrameError::TooLarge { length: body@.len() as u64 })
        } else {
            written matches Ok(bytes) && bytes@ == framed(body@)
        },
{
    let length: u64 = body.len() as u64;
    if length > MAX_FRAME_BYTES as u64 {
        return Err(FrameError::TooLarge { length });
    }
    let mut bytes: Vec<u8> = Vec::new();
    bytes.push((length / 0x100_0000 % 0x100) as u8);
    bytes.push((length / 0x1_0000 % 0x100) as u8);
    bytes.push((length / 0x100 % 0x100) as u8);
    bytes.push((length % 0x100) as u8);
    assert(bytes@ =~= prefix(body@.len()));
    let mut i: usize = 0;
    while i < body.len()
        invariant
            i <= body.len(),
            bytes@ == prefix(body@.len()) + body@.take(i as int),
        decreases body.len() - i,
    {
        bytes.push(body[i]);
        i = i + 1;
        assert(bytes@ =~= prefix(body@.len()) + body@.take(i as int));
    }
    assert(body@.take(i as int) =~= body@);
    Ok(bytes)
}

/// Reads one frame off a stream that arrives in pieces.
#[derive(Debug)]
pub struct FrameReader {
    bytes: Vec<u8>,
}

/// What a frame reader needs next.
#[derive(Debug)]
pub enum ReadStep {
    /// Read at most this many more bytes.
    More(usize),
    /// The frame is read, or cannot be.
    Done(Result<Vec<u8>, FrameError>),
}

impl FrameReader {
    /// The bytes read so far.
    pub closed spec fn seen(&self) -> Seq<u8> {
        self.bytes@
    }

    /// A reader at a frame boundary.
    pub fn new() -> (reader: Self)
        ensures
            reader.seen() == Seq::<u8>::empty(),
    {
        FrameReader { bytes: Vec::new() }
    }

    /// What the reader needs next. A frame that declares too much is refused
    /// before any of its body is asked for.
    pub fn step(&self) -> (step: ReadStep)
        ensures
            match progress(self.seen()) {
                Progress::Wants(n) => step == ReadStep::More(n as usize) && n == n as usize && n > 0,
                Progress::Complete(body) => step matches ReadStep::Done(Ok(read)) && read@ == body,
                Progress::Empty => step == ReadStep::Done(Err(FrameError::Io(StreamFault::Empty))),
                Progress::TooLarge(n) => step == ReadStep::Done(Err(FrameError::TooLarge { length: n as u64 })) && n
                    == n as u64,
            },
    {
        if self.bytes.len() < 4 {
            return ReadStep::More(4 - self.bytes.len());
        }
        let length: u64 = self.bytes[0] as u64 * 0x100_0000 + self.bytes[1] as u64 * 0x1_0000 + self.bytes[2] as u64
            * 0x100 + self.bytes[3] as u64;
        if length == 0 {
            return ReadStep::Done(Err(FrameError::Io(StreamFault::Empty)));
        }
        if length > MAX_FRAME_BYTES as u64 {
            return ReadStep::Done(Err(FrameError::TooLarge { length }));
        }
        let total: usize = 4 + length as usize;
        if self.bytes.len() < total {
            return ReadStep::More(total - self.bytes.len());
        }
        let mut body: Vec<u8> = Vec::new();
        let mut i: usize = 4;
        while i < total
            invariant
                4 <= i <= total <= self.bytes@.len(),
                body@ == self.bytes@.subrange(4, i as int),
            decreases total - i,
        {
            body.push(self.bytes[i]);
            i = i + 1;
            assert(body@ =~= self.bytes@.subrange(4, i as int));
        }
        ReadStep::Done(Ok(body))
    }

    /// Takes in bytes that arrived.
    pub fn feed(&mut self, arrived: &Vec<u8>)
        ensures
            final(self).seen() == old(self).seen() + arrived@,
    {
        let mut i: usize = 0;
        assert(arrived@.take(0) =~= Seq::empty());
        while i < arrived.len()
            invariant
                i <= arrived.len(),
                self.bytes@ == old(self).bytes@ + arrived@.take(i as int),
            decreases arrived.len() - i,
        {
            self.bytes.push(arrived[i]);
            i = i + 1;
            assert(self.bytes@ =~= old(self).bytes@ + arrived@.take(i as int));
        }
        assert(arrived@.take(i as int) =~= arrived@);
    }

    /// What it means that the stream has ended here: at a frame boundary it is a
    /// clean disconnect, and inside a frame it is a fault.
    pub fn end(&self) -> (ended: Result<(), FrameError>)
        ensures
            ended == if self.seen().len() == 0 {
                Ok::<(), FrameError>(())
            } else if self.seen().len() < 4 {
                Err::<(), FrameError>(FrameError::Io(StreamFault::TruncatedPrefix))
            } else {
                Err::<(), FrameError>(FrameError::Io(StreamFault::TruncatedBody))
            },
    {
        if self.bytes.len() == 0 {
            Ok(())
        } else if self.bytes.len() < 4 {
            Err(FrameError::Io(StreamFault::TruncatedPrefix))
        } else {
            Err(FrameError::Io(StreamFault::TruncatedBody))
        }
    }
}

/// Reads one frame off the front of a stream that ends with these bytes;
/// `None` where it ends at the frame boundary.
pub fn read_frame(stream: &Vec<u8>) -> (read: Result<Option<Vec<u8>>, FrameError>)
    ensures
        match progress(stream@) {
            Progress::Complete(body) => read matches Ok(Some(bytes)) && bytes@ == body,
            Progress::Empty => read == Err::<Option<Vec<u8>>, FrameError>(FrameError::Io(StreamFault::Empty)),
            Progress::TooLarge(n) => read == Err::<Option<Vec<u8>>, FrameError>(
                FrameError::TooLarge { length: n as u64 },
            ),
            Progress::Wants(_) => if stream@.len() == 0 {
                read == Ok::<Option<Vec<u8>>, FrameError>(None)
            } else if stream@.len() < 4 {
                read == Err::<Option<Vec<u8>>, FrameError>(FrameError::Io(StreamFault::TruncatedPrefix))
            } else {
                read == Err::<Option<Vec<u8>>, FrameError>(FrameError::Io(StreamFault::TruncatedBody))
            },
        },
{
    let mut reader = FrameReader::new();
    reader.feed(stream);
    assert(reader.seen() =~= stream@);
    match reader.step() {
        ReadStep::Done(Ok(body)) => Ok(Some(body)),
        ReadStep::Done(Err(error)) => Err(error),
        ReadStep::More(_) => match reader.end() {
            Ok(()) => Ok(None),
            Err(error) => Err(error),
        },
    }
}

/// A prefix declares the length it was made of.
pub proof fn a_prefix_declares_its_length(length: nat, rest: Seq<u8>)
    requires
        length <= u32::MAX,
    ensures
        declared(prefix(length) + rest) == length,
{
    let bytes = prefix(length) + rest;
    assert(bytes[0] == prefix(length)[0] && bytes[1] == prefix(length)[1]);
    assert(bytes[2] == prefix(length)[2] && bytes[3] == prefix(length)[3]);
    assert(length / 0x100_0000 < 0x100) by (nonlinear_arith)
        requires
            length <= 0xffff_ffff,
    ;
    assert(length == length / 0x100_0000 % 0x100 * 0x100_0000 + length / 0x1_0000 % 0x100 * 0x1_0000 + length / 0x100
        % 0x100 * 0x100 + length % 0x100);
}

/// What is written as a frame is read back as the same body, whatever follows it
/// on the stream.
pub proof fn a_frame_is_read_back(body: Seq<u8>, rest: Seq<u8>)
    requires
        0 < body.len() <= MAX_FRAME_BYTES,
    ensures
        progress(framed(body) + rest) == Progress::Complete(body),
{
    let bytes = framed(body) + rest;
    assert(bytes =~= prefix(body.len()) + (body + rest));
    a_prefix_declares_its_length(body.len(), body + rest);
    assert(bytes.subrange(4, 4 + body.len() as int) =~= body);
}

/// However a frame arrives in pieces, the reader asks for more until it is
/// complete, and never for bytes that belong to what follows it.
pub proof fn a_reader_never_reads_past_its_frame(body: Seq<u8>, arrived: int)
    requires
        0 < body.len() <= MAX_FRAME_BYTES,
        0 <= arrived < framed(body).len(),
    ensures
        progress(framed(body).take(arrived)) matches Progress::Wants(n) && 0 < n && arrived + n <= framed(body).len(),
{
    let bytes = framed(body).take(arrived);
    if arrived >= 4 {
        assert(bytes =~= prefix(body.len()) + body.take(arrived - 4));
        a_prefix_declares_its_length(body.len(), body.take(arrived - 4));
    }
}

} // verus!
