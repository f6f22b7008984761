//! Image formats, as the `image` crate knows them.

use vstd::prelude::*;
use image::ImageFormat;
use crate::text::{extension, extension_of, str_equal};

verus! {

/// `image::ImageFormat`, taken as it is: nothing is known of a format but
/// what the functions below say of it.
#[verifier::external_type_specification]
#[verifier::external_body]
pub struct ExImageFormat(ImageFormat);

/// The format that `image` assigns to a file extension, if it knows one.
pub uninterp spec fn extension_format(extension: Seq<char>) -> Option<ImageFormat>;

/// The format that `image` assigns to a MIME type, if it knows one.
pub uninterp spec fn mime_format(mime_type: Seq<char>) -> Option<ImageFormat>;

/// The file extensions that `image` lists for a format, the usual one first.
pub uninterp spec fn format_extensions(format: ImageFormat) -> Seq<Seq<char>>;

/// Calls `image::ImageFormat::from_extension`: the format is a function of
/// the extension alone.
#[verifier::external_body]
pub(crate) fn format_from_extension(extension: &str) -> (format: Option<ImageFormat>)
    ensures
        format == extension_format(extension@),
{
    ImageFormat::from_extension(extension)
}

/// Calls `image::ImageFormat::from_mime_type`: the format is a function of
/// the MIME type alone.
#[verifier::external_body]
pub(crate) fn format_from_mime_type(mime_type: &str) -> (format: Option<ImageFormat>)
    ensures
        format == mime_format(mime_type@),
{
    ImageFormat::from_mime_type(mime_type)
}

/// Whether an extension is a plain word that names the format.
pub open spec fn is_extension_of(extension: Seq<char>, format: ImageFormat) -> bool {
    &&& extension.len() > 0
    &&& !extension.contains('.')
    &&& !extension.contains('/')
    &&& extension_format(extension) == Some(format)
}

/// Whether a format's usual extension is a plain word that names the format
/// again.
pub open spec fn has_plain_extension(format: ImageFormat) -> bool {
    is_extension_of(canonical_extension(format), format)
}

/// Calls `image::ImageFormat::extensions_str`: the list depends on the format
/// alone. Every format of the crate has at least one extension, and each
/// extension it lists is a word without `.` or `/` that
/// `ImageFormat::from_extension` takes for that format again.
#[verifier::external_body]
pub(crate) fn extensions_of(format: ImageFormat) -> (extensions: Vec<String>)
    ensures
        extensions.deep_view() == format_extensions(format),
        extensions@.len() > 0,
        forall|i: int|
            0 <= i < extensions@.len() ==> is_extension_of(#[trigger] extensions@[i]@, format),
{
    format.extensions_str().iter().map(|e| e.to_string()).collect()
}

/// Compares two formats with the `==` of `image::ImageFormat`, an enum
/// without fields.
#[verifier::external_body]
pub(crate) fn same_format(a: ImageFormat, b: ImageFormat) -> (same: bool)
    ensures
        same == (a == b),
{
    a == b
}

/// The format that a path's extension names.
pub open spec fn path_format(path: Seq<char>) -> Option<ImageFormat> {
    match extension_of(path) {
        Some(extension) => extension_format(extension),
        None => None,
    }
}

/// The extension that files of a format usually carry: the first that
/// `image` lists for it.
pub open spec fn canonical_extension(format: ImageFormat) -> Seq<char> {
    format_extensions(format)[0]
}

/// The format of the file that `path` names, judged by its extension.
pub fn format_of_path(path: &str) -> (format: Option<ImageFormat>)
    ensures
        format == path_format(path@),
{
    match extension(path) {
        Some(ext) => format_from_extension(ext),
        None => None,
    }
}

/// The usual extension of `format`: a plain word that names the format.
pub fn extension_for(format: ImageFormat) -> (ext: String)
    ensures
        ext@ == canonical_extension(format),
        has_plain_extension(format),
{
    let mut extensions = extensions_of(format);
    assert(extensions.deep_view()[0] == extensions@[0]@);
    extensions.swap_remove(0)
}

/// Whether `path` carries the usual extension of `format`, letter for letter.
pub open spec fn has_canonical_extension(path: Seq<char>, format: ImageFormat) -> bool {
    extension_of(path) == Some(canonical_extension(format))
}

/// Whether `path` carries the usual extension of `format`.
pub fn path_matches_format(path: &str, format: ImageFormat) -> (matches: bool)
    ensures
        matches == has_canonical_extension(path@, format),
{
    match extension(path) {
        Some(ext) => {
            let usual = extension_for(format);
            str_equal(ext, usual.as_str())
        },
        None => false,
    }
}

} // verus!
