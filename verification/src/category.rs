//! The two media categories and the extensions that belong to each.

use vstd::prelude::*;

verus! {

/// A kind of media, which names the top-level folder its files are sorted into.
#[derive(Clone, Copy, Debug, PartialEq, Eq, Structural)]
pub enum MediaCategory {
    Images,
    Videos,
}

/// Whether `ext`, already in lower case, is an image extension.
pub open spec fn is_image_extension(ext: Seq<char>) -> bool {
    ext == "jpg"@ || ext == "jpeg"@ || ext == "png"@ || ext == "gif"@ || ext == "bmp"@ || ext
        == "webp"@
}

/// Whether `ext`, already in lower case, is a video extension.
pub open spec fn is_video_extension(ext: Seq<char>) -> bool {
    ext == "mp4"@ || ext == "mov"@ || ext == "avi"@ || ext == "mkv"@ || ext == "wmv"@ || ext
        == "flv"@
}

/// The category of a lower-case extension, if it has one.
pub open spec fn category_of(ext: Seq<char>) -> Option<MediaCategory> {
    if is_image_extension(ext) {
        Some(MediaCategory::Images)
    } else if is_video_extension(ext) {
        Some(MediaCategory::Videos)
    } else {
        None
    }
}

impl MediaCategory {
    /// The name of the folder for this category, as a sequence of characters.
    pub open spec fn folder(self) -> Seq<char> {
        match self {
            MediaCategory::Images => "images"@,
            MediaCategory::Videos => "videos"@,
        }
    }

    /// The name of the folder, directly below the root, that holds this category.
    pub fn folder_name(&self) -> (name: &'static str)
        ensures
            name@ == self.folder(),
    {
        match self {
            MediaCategory::Images => "images",
            MediaCategory::Videos => "videos",
        }
    }
}

/// Whether two strings hold the same characters.
pub fn same_text(a: &str, b: &str) -> (same: bool)
    ensures
        same == (a@ == b@),
{
    let left = a.to_owned();
    let right = b.to_owned();
    left == right
}

/// Whether `ext` is one of the image extensions.
pub fn is_image(ext: &str) -> (found: bool)
    ensures
        found == is_image_extension(ext@),
{
    same_text(ext, "jpg") || same_text(ext, "jpeg") || same_text(ext, "png") || same_text(
        ext,
        "gif",
    ) || same_text(ext, "bmp") || same_text(ext, "webp")
}

/// Whether `ext` is one of the video extensions.
pub fn is_video(ext: &str) -> (found: bool)
    ensures
        found == is_video_extension(ext@),
{
    same_text(ext, "mp4") || same_text(ext, "mov") || same_text(ext, "avi") || same_text(
        ext,
        "mkv",
    ) || same_text(ext, "wmv") || same_text(ext, "flv")
}

/// Looks a lower-case extension up in the table of media extensions.
///
/// The lookup is exact: an extension in upper or mixed case is in neither set.
pub fn classify(ext: &str) -> (category: Option<MediaCategory>)
    ensures
        category == category_of(ext@),
{
    if is_image(ext) {
        Some(MediaCategory::Images)
    } else if is_video(ext) {
        Some(MediaCategory::Videos)
    } else {
        None
    }
}

/// No extension belongs to both categories.
pub proof fn lemma_categories_disjoint(ext: Seq<char>)
    ensures
        !(is_image_extension(ext) && is_video_extension(ext)),
{
    reveal_strlit("jpg");
    reveal_strlit("jpeg");
    reveal_strlit("png");
    reveal_strlit("gif");
    reveal_strlit("bmp");
    reveal_strlit("webp");
    reveal_strlit("mp4");
    reveal_strlit("mov");
    reveal_strlit("avi");
    reveal_strlit("mkv");
    reveal_strlit("wmv");
    reveal_strlit("flv");
    if is_image_extension(ext) && is_video_extension(ext) {
        assert(ext.len() >= 3);
        assert(ext[0] == 'j' || ext[0] == 'p' || ext[0] == 'g' || ext[0] == 'b' || ext[0] == 'w');
        assert(ext[0] == 'm' || ext[0] == 'a' || ext[0] == 'w' || ext[0] == 'f');
        assert(ext[0] == 'w');
        assert(ext == "webp"@);
        assert(ext == "wmv"@);
        assert(ext.len() == 4 && ext.len() == 3);
    }
}

} // verus!
