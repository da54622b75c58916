//! Paths in the encoding that the engine expects.

use vstd::prelude::*;
use vstd::slice::slice_to_vec;

verus! {

/// A path as the engine reads it: the path's bytes, followed by a terminator.
///
/// On byte-oriented platforms the bytes are those of the native path and the
/// terminator is one zero byte. On wide-character platforms the bytes are the
/// path's UTF-16 code units, low byte first, and the terminator is a zero
/// unit. No path is refused here: what the engine cannot open it reports
/// itself.
#[derive(Debug)]
pub struct TskPath {
    path: Vec<u8>,
}

/// The bytes of a sequence of 16-bit code units, low byte first.
pub open spec fn wide_bytes(units: Seq<u16>) -> Seq<u8> {
    Seq::new(
        2 * units.len(),
        |i: int|
            if i % 2 == 0 {
                (units[i / 2] % 256) as u8
            } else {
                (units[i / 2] / 256) as u8
            },
    )
}

impl View for TskPath {
    type V = Seq<u8>;

    /// The encoded bytes, terminator included.
    closed spec fn view(&self) -> Seq<u8> {
        self.path@
    }
}

impl TskPath {
    #[verifier::type_invariant]
    spec fn terminated(&self) -> bool {
        self.path@.len() > 0 && self.path@.last() == 0
    }

    /// Encodes a native path given as bytes.
    pub fn from_path(path: &[u8]) -> (encoded: TskPath)
        ensures
            encoded@ == path@.push(0),
    {
        let mut bytes = slice_to_vec(path);
        bytes.push(0);
        TskPath { path: bytes }
    }

    /// Encodes a native path given as UTF-16 code units.
    pub fn from_wide(path: &[u16]) -> (encoded: TskPath)
        ensures
            encoded@ == wide_bytes(path@.push(0)),
    {
        let mut bytes: Vec<u8> = Vec::new();
        let mut i: usize = 0;
        while i < path.len()
            invariant
                i <= path.len(),
                bytes@ == wide_bytes(path@.take(i as int)),
            decreases path.len() - i,
        {
            let unit = path[i];
            bytes.push((unit % 256) as u8);
            bytes.push((unit / 256) as u8);
            assert(path@.take(i + 1) == path@.take(i as int).push(unit));
            assert(bytes@ == wide_bytes(path@.take(i + 1)));
            i = i + 1;
        }
        assert(path@.take(i as int) == path@);
        bytes.push(0);
        bytes.push(0);
        assert(bytes@ == wide_bytes(path@.push(0)));
        TskPath { path: bytes }
    }

    /// The encoded bytes, for the duration of one foreign call.
    pub fn as_bytes(&self) -> (bytes: &[u8])
        ensures
            bytes@ == self@,
            bytes@.len() > 0,
            bytes@.last() == 0,
    {
        proof {
            use_type_invariant(self);
        }
        self.path.as_slice()
    }
}

} // verus!
