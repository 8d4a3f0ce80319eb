//! Assembly of pages delivered by the emulated printer.
//!
//! The core hands over a raw row-major content block plus separate top and
//! bottom margin heights; a full page is the content block centered between
//! blank-filled margins.

use vstd::prelude::*;
use crate::types::PrinterPage;

verus! {

/// Width in pixels of every printed page.
pub const PAGE_WIDTH: usize = 160;

/// The blank (white, fully opaque) pixel the margins are filled with.
pub const BLANK_PIXEL: u32 = 0xFFFFFFFF;

/// `data` is the page assembled from the content block `image` of `height`
/// rows: `(top + height + bottom)` rows of [`PAGE_WIDTH`] pixels, with the
/// margins blank-filled and the content block starting at row `top`.
pub open spec fn spec_page_data(data: Seq<u32>, image: Seq<u32>, height: int, top: int, bottom: int) -> bool {
    &&& data.len() == (top + height + bottom) * PAGE_WIDTH as int
    &&& forall|i: int| 0 <= i < top * PAGE_WIDTH as int ==> data[i] == BLANK_PIXEL
    &&& forall|i: int| 0 <= i < image.len() ==> data[top * PAGE_WIDTH as int + i] == image[i]
    &&& forall|i: int|
        (top + height) * PAGE_WIDTH as int <= i < data.len() ==> data[i] == BLANK_PIXEL
}

/// `page` is the fully assembled printer page for the given content block
/// and margins.
pub open spec fn spec_is_page(page: PrinterPage, image: Seq<u32>, height: u8, top_margin: u8, bottom_margin: u8, exposure: u8) -> bool {
    &&& page.width == PAGE_WIDTH
    &&& page.height == height as int
    &&& page.top_margin == top_margin as int
    &&& page.bottom_margin == bottom_margin as int
    &&& page.exposure == exposure
    &&& spec_page_data(page.data@, image, height as int, top_margin as int, bottom_margin as int)
}

/// Build a full page from a content block of `height` rows: the page is
/// `(top_margin + height + bottom_margin)` rows of [`PAGE_WIDTH`] pixels,
/// the margins hold [`BLANK_PIXEL`] and the middle holds the content block
/// exactly.
pub fn assemble_page(image: &[u32], height: u8, top_margin: u8, bottom_margin: u8) -> (page: Vec<
    u32,
>)
    requires
        image@.len() == height as int * PAGE_WIDTH as int,
    ensures
        spec_page_data(page@, image@, height as int, top_margin as int, bottom_margin as int),
{
    let t: usize = top_margin as usize;
    let h: usize = height as usize;
    let b: usize = bottom_margin as usize;

    let top_len: usize = t * PAGE_WIDTH;
    let content_len: usize = h * PAGE_WIDTH;
    let bottom_len: usize = b * PAGE_WIDTH;

    let mut page: Vec<u32> = Vec::new();

    let mut i: usize = 0;
    while i < top_len
        invariant
            i <= top_len,
            top_len == t * PAGE_WIDTH,
            page@.len() == i,
            forall|j: int| 0 <= j < i ==> page@[j] == BLANK_PIXEL,
        decreases top_len - i,
    {
        page.push(BLANK_PIXEL);
        i += 1;
    }

    let mut j: usize = 0;
    while j < content_len
        invariant
            j <= content_len,
            top_len == t * PAGE_WIDTH,
            content_len == h * PAGE_WIDTH,
            image@.len() == content_len,
            page@.len() == top_len + j,
            forall|k: int| 0 <= k < top_len ==> page@[k] == BLANK_PIXEL,
            forall|k: int| 0 <= k < j ==> page@[top_len + k] == image@[k],
        decreases content_len - j,
    {
        page.push(image[j]);
        j += 1;
    }

    let mut k: usize = 0;
    while k < bottom_len
        invariant
            k <= bottom_len,
            top_len == t * PAGE_WIDTH,
            content_len == h * PAGE_WIDTH,
            bottom_len == b * PAGE_WIDTH,
            image@.len() == content_len,
            page@.len() == top_len + content_len + k,
            forall|m: int| 0 <= m < top_len ==> page@[m] == BLANK_PIXEL,
            forall|m: int| 0 <= m < content_len ==> page@[top_len + m] == image@[m],
            forall|m: int| top_len + content_len <= m < page@.len() ==> page@[m] == BLANK_PIXEL,
        decreases bottom_len - k,
    {
        page.push(BLANK_PIXEL);
        k += 1;
    }

    page
}

} // verus!
