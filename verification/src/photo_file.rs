use vstd::prelude::*;
use vstd::string::StringExecFns;

use crate::FileType;

verus! {

/// Groups whether a photo has a raw file, a developed file or extra files linked to it.
#[derive(Debug)]
struct HashType {
    hash_raw: bool,
    hash_img: bool,
    hash_other: bool,
}

impl HashType {
    /// Initialises a `HashType` struct to all fields false.
    fn new() -> (ht: HashType)
        ensures
            !ht.hash_raw,
            !ht.hash_img,
            !ht.hash_other,
    {
        HashType { hash_raw: false, hash_img: false, hash_other: false }
    }
}

/// Error raised by [`PhotoFile::clear_target`] when the record's own flag
/// already says the variant's file does not exist: a logic-level guard,
/// returned before any path is built for the filesystem.
#[derive(Clone, Copy, Debug, PartialEq, Eq)]
pub enum ClearError {
    NotFound,
}

/// The mathematical content of a [`PhotoFile`]: the base name, the three
/// extension suffixes, and the three existence flags.
pub struct PhotoFileView {
    pub name: Seq<char>,
    pub raw_ext: Seq<char>,
    pub img_ext: Seq<char>,
    pub other_ext: Seq<char>,
    pub has_raw: bool,
    pub has_img: bool,
    pub has_other: bool,
}

impl PhotoFileView {
    /// The existence flag that belongs to one file variant.
    pub open spec fn flag_of(self, file_type: FileType) -> bool {
        match file_type {
            FileType::Raw => self.has_raw,
            FileType::Img => self.has_img,
            FileType::Other => self.has_other,
        }
    }

    /// The extension suffix that belongs to one file variant.
    pub open spec fn ext_of(self, file_type: FileType) -> Seq<char> {
        match file_type {
            FileType::Raw => self.raw_ext,
            FileType::Img => self.img_ext,
            FileType::Other => self.other_ext,
        }
    }

    /// The path of one variant's file: the base name with the variant's
    /// extension appended directly, no separator in between.
    pub open spec fn path_of(self, file_type: FileType) -> Seq<char> {
        self.name + self.ext_of(file_type)
    }

    /// A photo counts as developed exactly when both the raw file and the
    /// developed file have been seen.
    pub open spec fn is_developed(self) -> bool {
        self.has_raw && self.has_img
    }
}

/// This `struct` models a physical file in a directory with pictures.
///
/// A folder with pictures might contain the following types of files:
/// - _raw_ files with the extension used by the camera's manufacturer.
/// - _developed_ files, usually _.jpg_.
/// - _other_ files, such as descriptors created by 3rd party SW like Darktable.
pub struct PhotoFile {
    /// Name of the file (not including the extension).
    name: String,
    /// What files with the name _name_ have been found in a directory.
    types_found: HashType,
    raw_ext: String,
    img_ext: String,
    other_ext: String,
}

impl View for PhotoFile {
    type V = PhotoFileView;

    closed spec fn view(&self) -> PhotoFileView {
        PhotoFileView {
            name: self.name@,
            raw_ext: self.raw_ext@,
            img_ext: self.img_ext@,
            other_ext: self.other_ext@,
            has_raw: self.types_found.hash_raw,
            has_img: self.types_found.hash_img,
            has_other: self.types_found.hash_other,
        }
    }
}

impl PhotoFile {
    /// Creates a **PhotoFile** with default values.
    ///
    /// The _name_ identifies the photo file and should not contain the
    /// extension: for a picture _DSCF10992.RAF_ pass _DSCF10992_.
    ///
    /// Each extension argument overrides the default suffix for its variant;
    /// `None` keeps the default (_RAF_ for raw, _JPG_ for developed, _xmp_
    /// for other), the convention of Fujifilm cameras. All three existence
    /// flags start out false.
    pub fn new(
        name: &str,
        raw_ext: Option<&str>,
        img_ext: Option<&str>,
        other_ext: Option<&str>,
    ) -> (pf: PhotoFile)
        ensures
            pf@.name == name@,
            pf@.raw_ext == (match raw_ext {
                Some(e) => e@,
                None => "RAF"@,
            }),
            pf@.img_ext == (match img_ext {
                Some(e) => e@,
                None => "JPG"@,
            }),
            pf@.other_ext == (match other_ext {
                Some(e) => e@,
                None => "xmp"@,
            }),
            !pf@.has_raw,
            !pf@.has_img,
            !pf@.has_other,
    {
        let rext: String = match raw_ext {
            Some(e) => e.to_owned(),
            None => "RAF".to_owned(),
        };

        let iext: String = match img_ext {
            Some(e) => e.to_owned(),
            None => "JPG".to_owned(),
        };

        let oext: String = match other_ext {
            Some(e) => e.to_owned(),
            None => "xmp".to_owned(),
        };

        PhotoFile {
            name: name.to_owned(),
            types_found: HashType::new(),
            raw_ext: rext,
            img_ext: iext,
            other_ext: oext,
        }
    }

    /// Reads, and optionally overwrites, the raw-file existence flag.
    ///
    /// With `Some(value)` the flag is set to `value` first; with `None` the
    /// record is left as it was. Either way the flag's current value is
    /// returned. Nothing but that one flag ever changes.
    pub fn hash_raw(&mut self, raw_exists: Option<bool>) -> (r: bool)
        ensures
            final(self)@ == (PhotoFileView {
                has_raw: match raw_exists {
                    Some(b) => b,
                    None => old(self)@.has_raw,
                },
                ..old(self)@
            }),
            r == final(self)@.has_raw,
    {
        if let Some(re) = raw_exists {
            self.types_found.hash_raw = re;
        }

        self.types_found.hash_raw
    }

    /// Reads, and optionally overwrites, the developed-file existence flag.
    ///
    /// Same contract as [`PhotoFile::hash_raw`], for the developed variant.
    pub fn hash_img(&mut self, img_exists: Option<bool>) -> (r: bool)
        ensures
            final(self)@ == (PhotoFileView {
                has_img: match img_exists {
                    Some(b) => b,
                    None => old(self)@.has_img,
                },
                ..old(self)@
            }),
            r == final(self)@.has_img,
    {
        if let Some(ie) = img_exists {
            self.types_found.hash_img = ie;
        }

        self.types_found.hash_img
    }

    /// Reads, and optionally overwrites, the other-file existence flag.
    ///
    /// Same contract as [`PhotoFile::hash_raw`], for the sidecar variant.
    pub fn hash_other(&mut self, other_exists: Option<bool>) -> (r: bool)
        ensures
            final(self)@ == (PhotoFileView {
                has_other: match other_exists {
                    Some(b) => b,
                    None => old(self)@.has_other,
                },
                ..old(self)@
            }),
            r == final(self)@.has_other,
    {
        if let Some(oe) = other_exists {
            self.types_found.hash_other = oe;
        }

        self.types_found.hash_other
    }

    /// Whether the photo counts as developed: true exactly when both the
    /// raw-file and the developed-file flags are set. The sidecar flag plays
    /// no part.
    pub fn is_developed(&self) -> (r: bool)
        ensures
            r == self@.is_developed(),
    {
        if self.types_found.hash_raw && self.types_found.hash_img {
            true
        } else {
            false
        }
    }

    /// Names the file that deleting one variant must remove.
    ///
    /// When the variant's existence flag is set, the result is the path of
    /// that variant's file: the base name with the variant's extension
    /// appended directly, no separator in between. When the flag is clear,
    /// the record itself says there is nothing to delete, and the guard
    /// error [`ClearError::NotFound`] comes back instead.
    ///
    /// The record is read, never changed: in particular, asking for the
    /// target does not clear the flag, so a later call for the same variant
    /// names the same path again.
    pub fn clear_target(&self, image_type: FileType) -> (r: Result<String, ClearError>)
        ensures
            r is Ok <==> self@.flag_of(image_type),
            r matches Ok(filepath) ==> filepath@ == self@.path_of(image_type),
            r matches Err(e) ==> e == ClearError::NotFound,
    {
        let (extra, exists): (&String, bool) = match image_type {
            FileType::Raw => (&self.raw_ext, self.types_found.hash_raw),
            FileType::Img => (&self.img_ext, self.types_found.hash_img),
            FileType::Other => (&self.other_ext, self.types_found.hash_other),
        };

        if !exists {
            Err(ClearError::NotFound)
        } else {
            let mut filepath = self.name.clone();
            filepath.append(extra.as_str());
            Ok(filepath)
        }
    }
}

/// A record reports developed status exactly when both the raw and the
/// developed flags are set; with any other combination of the three flags it
/// does not.
pub proof fn lemma_developed_iff_both_flags(v: PhotoFileView)
    ensures
        v.is_developed() <==> (v.has_raw && v.has_img),
        !v.has_raw || !v.has_img ==> !v.is_developed(),
{
}

} // verus!
