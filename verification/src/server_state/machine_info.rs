//! Facts about the machine that the server runs on.

use bytes::BytesMut;
use crate::buffers::buffer_contents;
use vstd::prelude::*;

verus! {

/// A snapshot of facts about the host, taken when the server starts. No fact
/// is recorded yet, so the snapshot adds nothing to a report.
#[derive(Debug)]
pub struct MachineInfo {  }

impl MachineInfo {
    /// A snapshot of the host.
    pub fn new() -> (info: Self)
        ensures
            info == (MachineInfo {  }),
    {
        Self {  }
    }

    /// The text that the snapshot adds to a report: nothing so far.
    pub open spec fn spec_info(&self) -> Seq<u8> {
        Seq::empty()
    }

    /// Appends the snapshot's text to `info` and hands the buffer back.
    pub fn generate_info(&self, info: BytesMut) -> (out: BytesMut)
        ensures
            out == info,
            buffer_contents(out) == buffer_contents(info) + self.spec_info(),
    {
        assert(buffer_contents(info) + self.spec_info() =~= buffer_contents(info));
        info
    }
}

} // verus!
