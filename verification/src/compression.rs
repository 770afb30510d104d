//! How requests are compressed.

use vstd::prelude::*;

verus! {

/// The compression of requests.
#[derive(Clone, Copy, Debug, PartialEq, Eq, Structural)]
pub enum VectorCompression {
    /// Requests go out as they are; a configuration calls this `none`.
    Uncompressed,
    /// `gzip`.
    Gzip,
    /// `zstd`.
    Zstd,
}

impl VectorCompression {
    /// The compression of a configuration that only switches it on or off.
    pub fn from_switch(on: bool) -> (compression: VectorCompression)
        ensures
            compression == if on {
                VectorCompression::Gzip
            } else {
                VectorCompression::Uncompressed
            },
    {
        if on {
            VectorCompression::Gzip
        } else {
            VectorCompression::Uncompressed
        }
    }
}

} // verus!
