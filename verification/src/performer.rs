//! The state that the VT-100 parser performer updates as it dispatches the
//! sequences of the PTY child's output.

use vstd::prelude::*;
use crate::offscreen_buffer::OffscreenBuffer;

verus! {

/// Applies parsed VT-100 sequences to an offscreen buffer.
#[derive(Debug)]
pub struct AnsiToOfsBufPerformer {
    pub ofs_buf: OffscreenBuffer,
}

impl AnsiToOfsBufPerformer {
    pub fn new(ofs_buf: OffscreenBuffer) -> (performer: AnsiToOfsBufPerformer)
        ensures
            performer.ofs_buf == ofs_buf,
    {
        AnsiToOfsBufPerformer { ofs_buf }
    }
}

} // verus!
