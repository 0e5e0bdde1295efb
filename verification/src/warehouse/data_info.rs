//! Statistics about the stored data.

use bytes::BytesMut;
use crate::buffers::buffer_contents;
use vstd::prelude::*;

verus! {

/// Running statistics about the stored data. So far the number of keys is the
/// only one, and it is not yet kept up to date nor reported.
#[derive(Debug)]
pub struct DataInfo {
    total_keys: u32,
}

impl DataInfo {
    /// Statistics of an empty store.
    pub fn new() -> (info: Self)
        ensures
            info.total_keys() == 0,
    {
        Self { total_keys: 0 }
    }

    /// The number of keys on record.
    pub closed spec fn total_keys(&self) -> u32 {
        self.total_keys
    }

    /// The text that these statistics add to a report: nothing so far.
    pub open spec fn spec_info(&self) -> Seq<u8> {
        Seq::empty()
    }

    /// Appends the statistics' text to `info` and hands the buffer back.
    pub fn generate_info(&self, info: BytesMut) -> (out: BytesMut)
        ensures
            out == info,
            buffer_contents(out) == buffer_contents(info) + self.spec_info(),
    {
        assert(buffer_contents(info) + self.spec_info() =~= buffer_contents(info));
        info
    }
}

} // verus!
