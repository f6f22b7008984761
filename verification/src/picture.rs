//! Images: on disk, freshly fetched, and the references that lead to them.

use vstd::prelude::*;
use vstd::string::StringExecFns;
use image::ImageFormat;
use crate::format::{
    canonical_extension, extension_for, format_of_path, has_canonical_extension,
    has_plain_extension, path_format, path_matches_format, same_format,
};
use crate::cache::ImageCache;
use crate::text::{
    file_name, file_name_of, file_stem, file_stem_of, is_safe_stem, stem_is_safe, str_equal,
};
use crate::web::{is_url, is_web_url, url_is_valid, url_is_web};

verus! {

/// What to look for at an image supplier.
pub struct SearchParameters {
    pub tags: Vec<String>,
    pub aspect_ratios: Vec<String>,
    /// Whether to pass over images that the cache already holds, if possible.
    pub skip_cache: bool,
}

/// Why an image could not be had.
#[derive(Debug)]
pub enum ImageError {
    /// The image doesn't exist.
    NotFound,
    /// The format of the image is not supported, or it is not an image.
    InvalidFormat,
    /// The image cannot be stored under the requested format without
    /// re-encoding it.
    IncompatibleFormat,
    /// The file system failed; the message says how.
    FsError(String),
    /// Writing the image to its file failed.
    WriteFailed,
    /// Fetching the image from its url failed; the message says how.
    FetchError(String),
    /// The url is invalid.
    InvalidUrl,
    /// The location is neither a url nor a file.
    InvalidExternal,
}

impl ImageError {
    /// The message of the error, as a text.
    pub open spec fn message_of(self) -> Seq<char> {
        match self {
            ImageError::NotFound => "The image doesn't exist"@,
            ImageError::InvalidFormat =>
                "The format of the image is not supported, or not an image"@,
            ImageError::IncompatibleFormat => "Cannot convert the image to the specified format"@,
            ImageError::FsError(reason) => "An internal file system error occured: "@ + reason@,
            ImageError::WriteFailed => "Failed to write image to file"@,
            ImageError::FetchError(reason) => "Failed to fetch image from url: "@ + reason@,
            ImageError::InvalidUrl => "The supplied url is invalid"@,
            ImageError::InvalidExternal => "The supplied external image location is invalid"@,
        }
    }

    /// The message of the error.
    pub fn message(&self) -> (text: String)
        ensures
            text@ == self.message_of(),
    {
        match self {
            ImageError::NotFound => String::from_str("The image doesn't exist"),
            ImageError::InvalidFormat => String::from_str(
                "The format of the image is not supported, or not an image",
            ),
            ImageError::IncompatibleFormat => String::from_str(
                "Cannot convert the image to the specified format",
            ),
            ImageError::FsError(reason) => String::from_str(
                "An internal file system error occured: ",
            ).concat(reason.as_str()),
            ImageError::WriteFailed => String::from_str("Failed to write image to file"),
            ImageError::FetchError(reason) => String::from_str(
                "Failed to fetch image from url: ",
            ).concat(reason.as_str()),
            ImageError::InvalidUrl => String::from_str("The supplied url is invalid"),
            ImageError::InvalidExternal => String::from_str(
                "The supplied external image location is invalid",
            ),
        }
    }
}

/// What the file system says of one path, as observed by the caller.
pub struct FileFacts {
    /// Whether the path leads to a regular file.
    pub is_file: bool,
    /// The canonical, absolute form of the path, where it could be resolved.
    pub absolute: Option<String>,
}

/// Whether a file with these facts can be taken for an image.
pub open spec fn loads(path: Seq<char>, facts: FileFacts) -> bool {
    facts.is_file && path_format(path) is Some
}

/// What taking the file at `path` for an image comes to: no file, not found;
/// no image extension, an invalid format; else the image at that path, with
/// the format that the extension names.
pub open spec fn is_load_result(
    path: Seq<char>,
    facts: FileFacts,
    image: Result<SavedImage, ImageError>,
) -> bool {
    if !facts.is_file {
        image matches Err(ImageError::NotFound)
    } else if path_format(path) is None {
        image matches Err(ImageError::InvalidFormat)
    } else {
        image matches Ok(saved) && saved.path() == path && saved.format() == path_format(path)->0
            && saved.absolute() == match facts.absolute {
            Some(p) => Some(p@),
            None => None,
        }
    }
}

/// An image on disk.
pub struct SavedImage {
    path: String,
    absolute: Option<String>,
    format: ImageFormat,
}

impl SavedImage {
    #[verifier::type_invariant]
    spec fn well_formed(self) -> bool {
        path_format(self.path@) == Some(self.format)
    }

    /// The path under which the image was found.
    pub closed spec fn path(self) -> Seq<char> {
        self.path@
    }

    /// The absolute path of the image, where the file system gave one.
    pub closed spec fn absolute(self) -> Option<Seq<char>> {
        match self.absolute {
            Some(p) => Some(p@),
            None => None,
        }
    }

    /// The format of the image.
    pub closed spec fn format(self) -> ImageFormat {
        self.format
    }

    /// Takes the file at `path` for an image: it has to be a regular file,
    /// and its extension has to name an image format.
    pub fn from_path(path: &str, facts: &FileFacts) -> (image: Result<Self, ImageError>)
        ensures
            is_load_result(path@, *facts, image),
    {
        if !facts.is_file {
            return Err(ImageError::NotFound);
        }
        let format = match format_of_path(path) {
            Some(format) => format,
            None => return Err(ImageError::InvalidFormat),
        };
        let absolute = match &facts.absolute {
            Some(p) => Some(p.clone()),
            None => None,
        };
        Ok(SavedImage { path: String::from_str(path), absolute, format })
    }

    /// The absolute path of the image; a file system error that names the
    /// image's path, where that could not be resolved.
    pub fn get_absolute_path_as_string(&self) -> (path: Result<String, ImageError>)
        ensures
            match self.absolute() {
                Some(p) => path matches Ok(s) && s@ == p,
                None => path matches Err(ImageError::FsError(reason)) && reason@ == self.path(),
            },
    {
        match &self.absolute {
            Some(p) => Ok(p.clone()),
            None => Err(ImageError::FsError(self.path.clone())),
        }
    }

    /// The path under which the image was found.
    pub fn get_path(&self) -> (path: &str)
        ensures
            path@ == self.path(),
    {
        self.path.as_str()
    }

    /// The name of the image: its file name without the extension.
    pub fn get_name(&self) -> (name: Result<String, ImageError>)
        ensures
            file_stem_of(self.path()) is Some,
            name matches Ok(s) && s@ == file_stem_of(self.path())->0,
    {
        proof {
            use_type_invariant(self);
        }
        match file_stem(self.path.as_str()) {
            Some(stem) => Ok(String::from_str(stem)),
            None => Err(ImageError::NotFound),
        }
    }

    /// The format of the image: the one that the extension of its path names.
    pub fn get_format(&self) -> (format: ImageFormat)
        ensures
            format == self.format(),
            path_format(self.path()) == Some(format),
    {
        proof {
            use_type_invariant(self);
        }
        self.format
    }

    /// What copying the image to `path` comes to: a copy of its file where
    /// the extension of `path` names the image's own format; an
    /// incompatible format where it names another; an invalid format where
    /// it names none.
    pub open spec fn is_copy_result(self, path: Seq<char>, plan: Result<CopyPlan, ImageError>)
        -> bool {
        match path_format(path) {
            None => plan matches Err(ImageError::InvalidFormat),
            Some(format) => if format == self.format() {
                plan matches Ok(copy) && copy.from@ == self.path() && copy.to@ == path
            } else {
                plan matches Err(ImageError::IncompatibleFormat)
            },
        }
    }

    /// Plans a copy of the image to `path`, whose extension has to name the
    /// image's own format.
    pub fn copy_to(&self, path: &str) -> (plan: Result<CopyPlan, ImageError>)
        ensures
            self.is_copy_result(path@, plan),
    {
        match format_of_path(path) {
            Some(format) => {
                if same_format(format, self.format) {
                    Ok(CopyPlan { from: self.path.clone(), to: String::from_str(path) })
                } else {
                    Err(ImageError::IncompatibleFormat)
                }
            },
            None => Err(ImageError::InvalidFormat),
        }
    }
}

/// A copy to be made, byte for byte, from one file to another.
pub struct CopyPlan {
    pub from: String,
    pub to: String,
}

/// The image that a supplier or a user points to: where it is, what it is,
/// and the stem under which the cache keeps it. The stem can name a file.
pub struct ImageUrl {
    stem: String,
    url: String,
    image_format: ImageFormat,
}

/// What reading a url as an image reference comes to.
pub open spec fn is_url_reading(url: Seq<char>, reference: Result<ImageUrl, ImageError>) -> bool {
    if file_name_of(url) is None || !is_safe_stem(file_name_of(url)->0) {
        reference matches Err(ImageError::InvalidUrl)
    } else if path_format(url) is None {
        reference matches Err(ImageError::InvalidFormat)
    } else if !is_url(url) {
        reference matches Err(ImageError::InvalidUrl)
    } else {
        reference matches Ok(r) && r.stem() == file_name_of(url)->0 && r.url() == url
            && r.format() == path_format(url)->0
    }
}

impl ImageUrl {
    #[verifier::type_invariant]
    spec fn well_formed(self) -> bool {
        is_safe_stem(self.stem@) && has_plain_extension(self.image_format)
    }

    /// The stem under which the cache keeps the image.
    pub closed spec fn stem(self) -> Seq<char> {
        self.stem@
    }

    /// The url of the image.
    pub closed spec fn url(self) -> Seq<char> {
        self.url@
    }

    /// The format of the image.
    pub closed spec fn format(self) -> ImageFormat {
        self.image_format
    }

    /// The reference made of a stem that can name a file, a url and a
    /// format.
    pub(crate) fn assemble(stem: String, url: String, image_format: ImageFormat) -> (reference:
        Self)
        requires
            is_safe_stem(stem@),
        ensures
            reference.stem() == stem@,
            reference.url() == url@,
            reference.format() == image_format,
    {
        let _ = extension_for(image_format);
        ImageUrl { stem, url, image_format }
    }

    /// The reference to the image of a format at a url, under a stem: there
    /// is one where the stem can name a file and the url is one.
    pub fn new(stem: &str, url: &str, image_format: ImageFormat) -> (reference: Option<Self>)
        ensures
            is_safe_stem(stem@) && is_url(url@) ==> (reference matches Some(r) && r.stem() == stem@
                && r.url() == url@ && r.format() == image_format),
            !(is_safe_stem(stem@) && is_url(url@)) ==> reference is None,
    {
        if stem_is_safe(stem) && url_is_valid(url) {
            Some(Self::assemble(String::from_str(stem), String::from_str(url), image_format))
        } else {
            None
        }
    }

    /// Reads a url as an image reference: the stem is the file name that the
    /// url ends in, which has to be one that can name a file; the format is
    /// the one that its extension names.
    pub fn from_str(url: &str) -> (reference: Result<Self, ImageError>)
        ensures
            is_url_reading(url@, reference),
    {
        let stem = match file_name(url) {
            Some(name) => String::from_str(name),
            None => return Err(ImageError::InvalidUrl),
        };
        if !stem_is_safe(stem.as_str()) {
            return Err(ImageError::InvalidUrl);
        }
        let image_format = match format_of_path(url) {
            Some(format) => format,
            None => return Err(ImageError::InvalidFormat),
        };
        if !url_is_valid(url) {
            return Err(ImageError::InvalidUrl);
        }
        Ok(Self::assemble(stem, String::from_str(url), image_format))
    }

    /// The stem under which the cache keeps the image: a text that can name
    /// a file.
    pub fn get_stem(&self) -> (stem: &str)
        ensures
            stem@ == self.stem(),
            is_safe_stem(stem@),
    {
        proof {
            use_type_invariant(self);
        }
        self.stem.as_str()
    }

    /// The url of the image.
    pub fn get_url(&self) -> (url: &str)
        ensures
            url@ == self.url(),
    {
        self.url.as_str()
    }

    /// The format of the image.
    pub fn get_format(&self) -> (format: ImageFormat)
        ensures
            format == self.format(),
            has_plain_extension(format),
    {
        proof {
            use_type_invariant(self);
        }
        self.image_format
    }
}

/// Where the bytes of a fetched image are.
pub enum FetchedImageType {
    /// In the cache already.
    Storage(SavedImage),
    /// In memory, as they came from the source.
    Memory(Vec<u8>),
}

/// An image that was resolved, and is either in memory or in the cache. Its
/// stem can name a file.
pub struct FetchedImage {
    stem: String,
    data: FetchedImageType,
    format: ImageFormat,
}

/// The first step of fetching an image.
pub enum Fetch {
    /// The cache holds the image: nothing is downloaded.
    Cached(FetchedImage),
    /// The cache does not hold it: the source has to be downloaded.
    Download(ImageUrl),
}

/// What it takes to put a fetched image at a path.
pub enum SavePlan<'a> {
    /// Write these bytes to the path as they are.
    Write { path: String, bytes: &'a Vec<u8> },
    /// Copy the cached file to the path, byte for byte.
    Copy { source: String, path: String },
    /// Nothing: the image is the file at the path already.
    Keep { path: String },
    /// Decode the image in its format `from` and encode it again as `to`
    /// at the path.
    Transcode { path: String, from: ImageFormat, to: ImageFormat },
}

/// The name of the file that holds an image: stem, a dot, the extension.
pub open spec fn file_name_for(stem: Seq<char>, format: ImageFormat) -> Seq<char> {
    stem + seq!['.'] + canonical_extension(format)
}

impl FetchedImage {
    #[verifier::type_invariant]
    spec fn well_formed(self) -> bool {
        is_safe_stem(self.stem@) && has_plain_extension(self.format)
    }

    /// The stem under which the cache keeps the image.
    pub closed spec fn stem(self) -> Seq<char> {
        self.stem@
    }

    /// Where the bytes of the image are.
    pub closed spec fn data(self) -> FetchedImageType {
        self.data
    }

    /// The format of the image.
    pub closed spec fn format(self) -> ImageFormat {
        self.format
    }

    /// Whether `plan` stores the image at `path` without touching its bytes:
    /// bytes in memory are written as they are; a cached file is copied,
    /// unless it is the file at `path` itself, which is kept.
    pub open spec fn is_verbatim_plan(self, path: Seq<char>, plan: SavePlan) -> bool {
        match self.data() {
            FetchedImageType::Memory(bytes) => plan matches SavePlan::Write { path: p, bytes: b }
                && p@ == path && b@ == bytes@,
            FetchedImageType::Storage(saved) => if saved.path() == path {
                plan matches SavePlan::Keep { path: p } && p@ == path
            } else {
                plan matches SavePlan::Copy { source, path: p } && p@ == path && source@
                    == saved.path()
            },
        }
    }

    /// What saving the image to `path` comes to.
    pub open spec fn is_save_result(
        self,
        path: Seq<char>,
        plan: Result<SavePlan, ImageError>,
    ) -> bool {
        if has_canonical_extension(path, self.format()) {
            plan matches Ok(p) && self.is_verbatim_plan(path, p)
        } else {
            plan matches Err(ImageError::IncompatibleFormat)
        }
    }

    /// What saving the image to `path`, in the format of that path, comes to.
    pub open spec fn is_save_to_format_result(
        self,
        path: Seq<char>,
        plan: Result<SavePlan, ImageError>,
    ) -> bool {
        if has_canonical_extension(path, self.format()) {
            self.is_save_result(path, plan)
        } else {
            match path_format(path) {
                Some(target) => plan matches Ok(SavePlan::Transcode { path: p, from, to })
                    && p@ == path && from == self.format() && to == target,
                None => plan matches Err(ImageError::InvalidFormat),
            }
        }
    }

    /// Saves the image as it is: `path` has to carry the usual extension of
    /// the image's format, and the bytes that go there are the image's own.
    /// A cached image that is asked to go where it is stays as it is.
    pub fn save<'a>(&'a self, path: &str) -> (plan: Result<SavePlan<'a>, ImageError>)
        ensures
            self.is_save_result(path@, plan),
    {
        if !path_matches_format(path, self.format) {
            return Err(ImageError::IncompatibleFormat);
        }
        match &self.data {
            FetchedImageType::Memory(bytes) => Ok(
                SavePlan::Write { path: String::from_str(path), bytes },
            ),
            FetchedImageType::Storage(saved) => {
                if str_equal(saved.get_path(), path) {
                    Ok(SavePlan::Keep { path: String::from_str(path) })
                } else {
                    Ok(
                        SavePlan::Copy {
                            source: String::from_str(saved.get_path()),
                            path: String::from_str(path),
                        },
                    )
                }
            },
        }
    }

    /// Saves the image in the format that the extension of `path` names:
    /// as it is where that is its own format, re-encoded where it is not.
    pub fn save_to_format<'a>(&'a self, path: &str) -> (plan: Result<SavePlan<'a>, ImageError>)
        ensures
            self.is_save_to_format_result(path@, plan),
    {
        if path_matches_format(path, self.format) {
            return self.save(path);
        }
        match format_of_path(path) {
            Some(target) => Ok(
                SavePlan::Transcode { path: String::from_str(path), from: self.format, to: target },
            ),
            None => Err(ImageError::InvalidFormat),
        }
    }

    /// Fetches an image cache first: where the cache holds an image under
    /// the stem of the reference, that image is taken, in the format that
    /// its file has, and nothing is downloaded; only where it holds none is
    /// the source to be downloaded.
    pub fn fetch_from_url(image_url: ImageUrl, cache: &ImageCache) -> (fetch: Fetch)
        ensures
            cache.holds(image_url.stem()) ==> (fetch matches Fetch::Cached(image) && image.stem()
                == image_url.stem() && (image.data() matches FetchedImageType::Storage(saved)
                && image.format() == saved.format() && cache.is_find_result(
                image_url.stem(),
                Ok(saved),
            ))),
            !cache.holds(image_url.stem()) ==> (fetch matches Fetch::Download(reference)
                && reference == image_url),
    {
        proof {
            use_type_invariant(&image_url);
        }
        match cache.find(image_url.stem.as_str()) {
            Ok(cached_image) => {
                let format = cached_image.get_format();
                let _ = extension_for(format);
                Fetch::Cached(
                    FetchedImage {
                        stem: image_url.stem,
                        format,
                        data: FetchedImageType::Storage(cached_image),
                    },
                )
            },
            Err(_) => Fetch::Download(image_url),
        }
    }

    /// The stem under which the cache keeps the image: a text that can name
    /// a file.
    pub fn get_stem(&self) -> (stem: &str)
        ensures
            stem@ == self.stem(),
            is_safe_stem(stem@),
    {
        proof {
            use_type_invariant(self);
        }
        self.stem.as_str()
    }

    /// Where the bytes of the image are.
    pub fn get_data(&self) -> (data: &FetchedImageType)
        ensures
            *data == self.data(),
    {
        &self.data
    }

    /// The format of the image.
    pub fn get_format(&self) -> (format: ImageFormat)
        ensures
            format == self.format(),
            has_plain_extension(format),
    {
        proof {
            use_type_invariant(self);
        }
        self.format
    }

    /// The extension that the image's file carries.
    pub fn get_file_extension(&self) -> (ext: String)
        ensures
            ext@ == canonical_extension(self.format()),
    {
        extension_for(self.format)
    }

    /// The name of the image's file in the cache.
    pub fn get_file_name(&self) -> (name: String)
        ensures
            name@ == file_name_for(self.stem(), self.format()),
    {
        let ext = self.get_file_extension();
        proof {
            reveal_strlit(".");
            assert("."@ =~= seq!['.']);
        }
        self.stem.clone().concat(".").concat(ext.as_str())
    }

    /// The image that a download of `image_url` brought: its bytes, under the
    /// stem and format of the reference; the failure of the download else.
    pub fn downloaded(image_url: ImageUrl, body: Result<Vec<u8>, String>) -> (image: Result<
        Self,
        ImageError,
    >)
        ensures
            match body {
                Ok(bytes) => image matches Ok(fetched) && fetched.stem() == image_url.stem()
                    && fetched.format() == image_url.format() && (
                fetched.data() matches FetchedImageType::Memory(b) && b@ == bytes@),
                Err(reason) => image matches Err(ImageError::FetchError(r)) && r@ == reason@,
            },
    {
        proof {
            use_type_invariant(&image_url);
        }
        match body {
            Ok(bytes) => Ok(
                FetchedImage {
                    stem: image_url.stem,
                    data: FetchedImageType::Memory(bytes),
                    format: image_url.image_format,
                },
            ),
            Err(reason) => Err(ImageError::FetchError(reason)),
        }
    }
}

/// Saving under the image's own extension keeps the bytes: for an image in
/// memory, what is written to the path is what was fetched, byte for byte.
pub proof fn lemma_save_keeps_the_bytes(image: FetchedImage, path: Seq<char>, plan: SavePlan)
    requires
        has_canonical_extension(path, image.format()),
        image.is_save_result(path, Ok(plan)),
        image.data() is Memory,
    ensures
        plan matches SavePlan::Write { path: p, bytes } && p@ == path && bytes@
            == image.data()->Memory_0@,
{
}

/// Saving to a path of the image's own extension is the same, whichever of
/// the two ways of saving is taken.
pub proof fn lemma_own_format_is_saved_as_is(
    image: FetchedImage,
    path: Seq<char>,
    plan: Result<SavePlan, ImageError>,
)
    requires
        has_canonical_extension(path, image.format()),
    ensures
        image.is_save_to_format_result(path, plan) == image.is_save_result(path, plan),
{
}

/// Saving to a path of another extension re-encodes the image in the format
/// that the extension names; an extension that names none is an error.
pub proof fn lemma_other_format_is_transcoded(
    image: FetchedImage,
    path: Seq<char>,
    plan: Result<SavePlan, ImageError>,
)
    requires
        !has_canonical_extension(path, image.format()),
        image.is_save_to_format_result(path, plan),
    ensures
        path_format(path) is Some ==> (plan matches Ok(SavePlan::Transcode { path: p, from, to })
            && p@ == path && from == image.format() && Some(to) == path_format(path)),
        path_format(path) is None ==> plan matches Err(ImageError::InvalidFormat),
{
}

/// An image somewhere outside: at a url, or at a path.
pub struct ExternalImage {
    path: String,
}

/// Where an outside image turned out to be.
pub enum ExternalSource {
    /// On the web: it has to be fetched and cached.
    Remote(ImageUrl),
    /// On disk already.
    Local(SavedImage),
}

impl ExternalImage {
    /// The location that was given.
    pub closed spec fn location(self) -> Seq<char> {
        self.path@
    }

    /// What loading the image at `location` comes to: an `http` or `https`
    /// url is read as an image reference; any other location is taken as a
    /// path if a file is there, and is invalid else.
    pub open spec fn is_load_outcome(
        location: Seq<char>,
        facts: FileFacts,
        source: Result<ExternalSource, ImageError>,
    ) -> bool {
        if is_web_url(location) {
            match source {
                Ok(ExternalSource::Remote(reference)) => is_url_reading(location, Ok(reference)),
                Ok(ExternalSource::Local(_)) => false,
                Err(e) => is_url_reading(location, Err(e)),
            }
        } else if facts.is_file {
            match source {
                Ok(ExternalSource::Local(saved)) => is_load_result(location, facts, Ok(saved)),
                Ok(ExternalSource::Remote(_)) => false,
                Err(e) => is_load_result(location, facts, Err(e)),
            }
        } else {
            source matches Err(ImageError::InvalidExternal)
        }
    }

    pub fn new(path: &str) -> (image: Self)
        ensures
            image.location() == path@,
    {
        ExternalImage { path: String::from_str(path) }
    }

    /// Finds out what the location is; `facts` is what the file system says
    /// of it, taken as a path.
    pub fn load(&self, facts: &FileFacts) -> (source: Result<ExternalSource, ImageError>)
        ensures
            Self::is_load_outcome(self.location(), *facts, source),
    {
        let location = self.path.as_str();
        if url_is_web(location) {
            match ImageUrl::from_str(location) {
                Ok(reference) => Ok(ExternalSource::Remote(reference)),
                Err(e) => Err(e),
            }
        } else if facts.is_file {
            match SavedImage::from_path(location, facts) {
                Ok(saved) => Ok(ExternalSource::Local(saved)),
                Err(e) => Err(e),
            }
        } else {
            Err(ImageError::InvalidExternal)
        }
    }
}

} // verus!
