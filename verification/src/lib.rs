use vstd::prelude::*;

mod photo_file;

pub use crate::photo_file::lemma_developed_iff_both_flags;
pub use crate::photo_file::ClearError;
pub use crate::photo_file::PhotoFile;
pub use crate::photo_file::PhotoFileView;

verus! {

/// Enum that indicates whether a file is a raw photo, a developed photo or metadata.
#[derive(Clone, Copy, Debug)]
pub enum FileType {
    Raw,
    Img,
    Other,
}

} // verus!
