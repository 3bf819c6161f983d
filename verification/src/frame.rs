//! One captured link-layer unit.

use vstd::prelude::*;

verus! {

/// The largest number of bytes that one frame holds. A receive buffer of
/// this length takes any frame a source can deliver.
pub const MAX_FRAME_LEN: usize = 65536;

/// A capture time: seconds, and microseconds within the second.
pub type CaptureTime = (i64, i64);

/// One captured frame: the bytes that were captured, the length the frame had
/// on the wire, and the time of capture where the source reports one.
///
/// The bytes are never changed after capture. A frame never holds more than
/// [`MAX_FRAME_LEN`] bytes.
#[derive(Debug, PartialEq, Eq)]
pub struct Frame {
    bytes: Vec<u8>,
    total_length: usize,
    timestamp: Option<CaptureTime>,
}

impl View for Frame {
    type V = Seq<u8>;

    /// The captured bytes.
    closed spec fn view(&self) -> Seq<u8> {
        self.bytes@
    }
}

impl Clone for Frame {
    /// A second frame with the same bytes, length and time.
    fn clone(&self) -> (copy: Frame)
        ensures
            copy@ == self@,
            copy.spec_total_length() == self.spec_total_length(),
            copy.spec_timestamp() == self.spec_timestamp(),
    {
        proof {
            use_type_invariant(self);
        }
        let bytes = self.bytes.clone();
        Frame { bytes, total_length: self.total_length, timestamp: self.timestamp }
    }
}

impl Frame {
    #[verifier::type_invariant]
    spec fn within_limit(self) -> bool {
        self.bytes@.len() <= MAX_FRAME_LEN
    }

    /// The length that the frame had on the wire.
    pub closed spec fn spec_total_length(&self) -> usize {
        self.total_length
    }

    /// The time of capture, where one is known.
    pub closed spec fn spec_timestamp(&self) -> Option<CaptureTime> {
        self.timestamp
    }

    /// A frame that was captured whole, at an unknown time. `None` exactly
    /// when `bytes` is longer than a frame can be.
    pub fn new(bytes: Vec<u8>) -> (frame: Option<Frame>)
        ensures
            frame is Some <==> bytes@.len() <= MAX_FRAME_LEN,
            frame matches Some(f) ==> {
                &&& f@ == bytes@
                &&& f.spec_total_length() == bytes@.len()
                &&& f.spec_timestamp() is None
            },
    {
        let total_length = bytes.len();
        Frame::captured(bytes, total_length, None)
    }

    /// A frame as a source reports it: the captured bytes, the length on the
    /// wire (which differs from the number of captured bytes when the source
    /// cut the frame short) and the time of capture. `None` exactly when
    /// `bytes` is longer than a frame can be.
    pub fn captured(bytes: Vec<u8>, total_length: usize, timestamp: Option<CaptureTime>) -> (frame:
        Option<Frame>)
        ensures
            frame is Some <==> bytes@.len() <= MAX_FRAME_LEN,
            frame matches Some(f) ==> {
                &&& f@ == bytes@
                &&& f.spec_total_length() == total_length
                &&& f.spec_timestamp() == timestamp
            },
    {
        if bytes.len() <= MAX_FRAME_LEN {
            Some(Frame { bytes, total_length, timestamp })
        } else {
            None
        }
    }

    /// The captured bytes.
    pub fn as_bytes(&self) -> (bytes: &[u8])
        ensures
            bytes@ == self@,
            bytes@.len() <= MAX_FRAME_LEN,
    {
        proof {
            use_type_invariant(self);
        }
        self.bytes.as_slice()
    }

    /// The number of captured bytes.
    pub fn captured_length(&self) -> (length: usize)
        ensures
            length == self@.len(),
            length <= MAX_FRAME_LEN,
    {
        proof {
            use_type_invariant(self);
        }
        self.bytes.len()
    }

    /// The length that the frame had on the wire.
    pub fn total_length(&self) -> (length: usize)
        ensures
            length == self.spec_total_length(),
    {
        self.total_length
    }

    /// The time of capture, where one is known.
    pub fn timestamp(&self) -> (timestamp: Option<CaptureTime>)
        ensures
            timestamp == self.spec_timestamp(),
    {
        self.timestamp
    }
}

} // verus!
