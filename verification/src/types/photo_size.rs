use vstd::prelude::*;

verus! {

/// One size of a photo, or the thumbnail of a file or sticker.
#[derive(Debug, Clone, PartialEq, Eq, Hash)]
pub struct PhotoSize {
    pub file_id: String,
    pub width: i32,
    pub height: i32,
    pub file_size: Option<u32>,
}

} // verus!
