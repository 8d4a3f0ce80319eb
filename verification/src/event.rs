//! Buffered records of core callback occurrences, drained by the
//! application between execution calls.

use vstd::prelude::*;
use crate::types::{PrinterPage, VBlankType};

verus! {

/// One occurrence of a core callback, recorded in order.
#[derive(Clone, PartialEq, Eq, Debug)]
pub enum Event {
    /// A pair of audio samples was produced.
    Sample {
        /// Left channel sample.
        left: i16,
        /// Right channel sample.
        right: i16,
    },
    /// The rumble amplitude changed.
    Rumble {
        /// Raw IEEE 754 bits of the amplitude the core reported; the
        /// wrapper records them without interpreting them.
        amplitude_bits: u64,
    },
    /// A frame completed.
    VBlank {
        /// The kind of frame the core announced.
        vblank_type: VBlankType,
    },
    /// The emulated printer delivered a page.
    PrintedPage {
        /// The fully assembled page.
        page: PrinterPage,
    },
    /// Memory was read.
    MemoryRead {
        /// Address that was read.
        address: u16,
        /// Byte the core saw at that address.
        original_data: u8,
        /// Byte actually handed to the CPU after interception.
        final_data: u8,
    },
    /// Memory was written.
    MemoryWrite {
        /// Address that was written.
        address: u16,
        /// Byte the CPU tried to store.
        data: u8,
        /// Whether the write-permission verdict suppressed the store.
        prevented_by_callback: bool,
    },
}

} // verus!
