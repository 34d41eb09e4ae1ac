use vstd::prelude::*;
use crate::types::photo_size::PhotoSize;

verus! {

/// A general file, as opposed to photos, voice messages and audio files.
#[derive(Debug, Clone, PartialEq, Eq, Hash)]
pub struct Document {
    pub file_id: String,
    pub thumb: Option<PhotoSize>,
    pub file_name: Option<String>,
    pub mime_type: Option<String>,
    pub file_size: Option<u32>,
}

} // verus!
