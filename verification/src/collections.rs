//! Collections: named directories of images, kept by hand.

use vstd::prelude::*;
use vstd::string::StringExecFns;
use crate::chance::take_one;
use crate::format::{canonical_extension, extension_for, has_plain_extension, path_format};
use crate::picture::{is_load_result, loads, CopyPlan, FileFacts, ImageError, SavedImage};
use crate::text::{
    contains_char, file_stem, file_stem_of, is_safe_stem, lemma_file_in_directory, lowercase,
    lowercase_of,
    str_equal,
};

verus! {

/// Why something could not be done with a collection.
#[derive(Debug)]
pub enum CollectionError {
    /// The collection already exists.
    CollectionAlreadyExists,
    /// The requested collection cannot be found.
    CollectionNotFound,
    /// The requested image cannot be found.
    ImageNotFound,
    /// The name is invalid; the reason says why.
    InvalidName(String),
    /// The collection does not have a git repository initialized.
    NoGitFound,
    /// Git failed; the message says how.
    GitError(String),
    /// The file system failed; the message says how.
    FsError(String),
    /// There are no files to be found in the collection.
    CollectionEmpty,
    /// There is no storage location for collections.
    NoStorageLocation,
    /// The collection repository could not be initialized.
    DecodeError(String),
    /// The collection repository could not be saved.
    EncodeError(String),
}

/// What the file system says of the place of a collection.
pub struct PlaceFacts {
    /// Whether anything is at the path of the storage directory.
    pub storage_exists: bool,
    /// Whether the storage directory is a directory.
    pub storage_is_dir: bool,
    /// Whether the directory of the collection is there.
    pub collection_is_dir: bool,
}

/// One file of a directory, as the caller found it.
pub struct ListedFile {
    pub path: String,
    pub facts: FileFacts,
}

/// The directory under which all collections lie.
pub open spec fn storage_directory(data_dir: Seq<char>) -> Seq<char> {
    data_dir + "/collections"@
}

/// The place of a collection on disk.
pub struct CollectionPath {
    path: String,
    is_dir: bool,
    storage_missing: bool,
}

impl CollectionPath {
    /// The path of the collection's directory.
    pub closed spec fn path(self) -> Seq<char> {
        self.path@
    }

    /// Whether the directory was there when the place was looked at.
    pub closed spec fn is_there(self) -> bool {
        self.is_dir
    }

    /// Whether the storage directory has yet to be made.
    pub closed spec fn lacks_storage(self) -> bool {
        self.storage_missing
    }

    /// The directory under which all collections lie.
    pub fn get_storage_directory(data_dir: &str) -> (path: String)
        ensures
            path@ == storage_directory(data_dir@),
    {
        String::from_str(data_dir).concat("/collections")
    }

    /// The place of the collection of a name: its directory lies in the
    /// storage directory, under its name. A storage directory that is not
    /// there has to be made; one that is no directory is an error.
    pub fn from_name(data_dir: &str, name: &str, facts: &PlaceFacts) -> (place: Result<
        Self,
        CollectionError,
    >)
        ensures
            facts.storage_exists && !facts.storage_is_dir ==> place matches Err(
                CollectionError::NoStorageLocation,
            ),
            !(facts.storage_exists && !facts.storage_is_dir) ==> (place matches Ok(p) && p.path()
                == storage_directory(data_dir@) + seq!['/'] + name@ && p.is_there()
                == facts.collection_is_dir && p.lacks_storage() == !facts.storage_exists),
    {
        if facts.storage_exists && !facts.storage_is_dir {
            return Err(CollectionError::NoStorageLocation);
        }
        proof {
            reveal_strlit("/");
            assert("/"@ =~= seq!['/']);
        }
        let path = Self::get_storage_directory(data_dir).concat("/").concat(name);
        Ok(
            CollectionPath {
                path,
                is_dir: facts.collection_is_dir,
                storage_missing: !facts.storage_exists,
            },
        )
    }

    /// The path of the collection's directory.
    pub fn as_ref(&self) -> (path: &str)
        ensures
            path@ == self.path(),
    {
        self.path.as_str()
    }

    /// Whether the directory of the collection is there.
    pub fn exists_on_disk(&self) -> (there: bool)
        ensures
            there == self.is_there(),
    {
        self.is_dir
    }

    /// Whether the directory of the collection has yet to be made.
    pub fn create_directory(&self) -> (make: bool)
        ensures
            make == !self.is_there(),
    {
        !self.exists_on_disk()
    }

    /// Whether the storage directory has yet to be made.
    pub fn create_storage(&self) -> (make: bool)
        ensures
            make == self.lacks_storage(),
    {
        self.storage_missing
    }

    /// The path that the collection gives an image: in its directory, the
    /// image's name, a dot, and the usual extension of the image's format.
    pub open spec fn image_place(self, image: SavedImage) -> Seq<char> {
        self.path() + seq!['/'] + (file_stem_of(image.path())->0 + seq!['.']
            + canonical_extension(image.format()))
    }

    /// The path of an image in the collection: its name and the usual
    /// extension of its format, in the collection's directory.
    pub fn get_image_path(&self, image: &SavedImage) -> (path: Result<String, CollectionError>)
        ensures
            file_stem_of(image.path()) is Some,
            path matches Ok(p) && p@ == self.image_place(*image),
    {
        let name = match image.get_name() {
            Ok(name) => name,
            Err(_) => return Err(CollectionError::ImageNotFound),
        };
        let extension = extension_for(image.get_format());
        proof {
            reveal_strlit("/");
            reveal_strlit(".");
            assert("/"@ =~= seq!['/']);
            assert("."@ =~= seq!['.']);
        }
        let goal_path = self.path.clone().concat("/").concat(name.as_str()).concat(".").concat(
            extension.as_str(),
        );
        assert(goal_path@ =~= self.path() + seq!['/'] + (name@ + seq!['.'] + extension@));
        Ok(goal_path)
    }
}

/// What is wrong with a name for a collection.
#[derive(Clone, Copy, Debug, PartialEq, Eq, Structural)]
pub enum NameFault {
    /// It holds a space.
    Spaces,
    /// It is not in lower case.
    Uppercase,
}

/// What is wrong with a name, if anything: spaces come before case.
pub open spec fn name_fault(name: Seq<char>) -> Option<NameFault> {
    if name.contains(' ') {
        Some(NameFault::Spaces)
    } else if lowercase_of(name) != name {
        Some(NameFault::Uppercase)
    } else {
        None
    }
}

/// Whether a pattern, read as a regular expression, finds a match in a
/// text; nothing where the pattern is no regular expression.
pub uninterp spec fn regex_finds(pattern: Seq<char>, text: Seq<char>) -> Option<bool>;

/// Calls `regex::Regex::new` on the pattern and `Regex::is_match` on the
/// text: whether there is a match depends on the two alone.
#[verifier::external_body]
pub(crate) fn regex_is_match(pattern: &str, text: &str) -> (found: Option<bool>)
    ensures
        found == regex_finds(pattern@, text@),
{
    regex::Regex::new(pattern).ok().map(|expression| expression.is_match(text))
}

/// The pattern that the url of a git remote has to hold.
pub open spec fn remote_pattern() -> Seq<char> {
    r#"((git|ssh|http(s)?)|(git@[\w\.]+))(:(//)?)([\w\.@\:/\-~]+)(\.git)(/)?"#@
}

/// Whether a text can be the url of a git remote.
pub fn is_remote_url(value: &str) -> (valid: Option<bool>)
    ensures
        valid == regex_finds(remote_pattern(), value@),
{
    regex_is_match(
        r#"((git|ssh|http(s)?)|(git@[\w\.]+))(:(//)?)([\w\.@\:/\-~]+)(\.git)(/)?"#,
        value,
    )
}

/// Whether a result is the refusal of an invalid name, with the reason.
pub open spec fn refuses_name<T>(name: Seq<char>, result: Result<T, CollectionError>) -> bool {
    match name_fault(name) {
        None => false,
        Some(NameFault::Spaces) => result matches Err(CollectionError::InvalidName(reason))
            && reason@ == "Name cannot contain spaces"@,
        Some(NameFault::Uppercase) => result matches Err(CollectionError::InvalidName(reason))
            && reason@ == "Name must be lowercase"@,
    }
}

/// How a repository was found when a collection was opened.
pub enum RepositoryOpening {
    /// There is a repository.
    Opened,
    /// There is none.
    NotFound,
    /// Git failed otherwise; the message says how.
    Failed(String),
}

/// What is to be done about the repository of a collection.
pub enum RepositoryStep {
    /// Nothing: the collection has no repository.
    Nothing,
    /// A repository is to be initialized, with this remote.
    Initialize { remote_url: String },
    /// The repository is to be opened, if there is one.
    Open,
    /// The repository is to be cloned from this remote.
    Clone { remote_url: String },
}

/// What it takes to set a collection up on disk.
pub struct Setup {
    pub path: CollectionPath,
    /// Whether the storage directory has to be made first.
    pub make_storage: bool,
    /// Whether the collection's directory has to be made.
    pub make_directory: bool,
    pub repository: RepositoryStep,
}

/// A collection's directory: its place, and the files found in it.
pub struct CollectionDirectory {
    path: CollectionPath,
    has_repository: bool,
    files: Vec<ListedFile>,
}

/// The files that can be taken for images among the first `n` files, in
/// order.
pub open spec fn image_files(files: Seq<ListedFile>, n: nat) -> Seq<ListedFile>
    recommends
        n <= files.len(),
    decreases n,
{
    if n == 0 {
        Seq::empty()
    } else {
        let before = image_files(files, (n - 1) as nat);
        if loads(files[n - 1].path@, files[n - 1].facts) {
            before.push(files[n - 1])
        } else {
            before
        }
    }
}

/// Whether an image is the one that a file gives: it has the file's path,
/// the format that the path names, and the absolute path that was found for
/// the file.
pub open spec fn is_image_of(image: SavedImage, file: ListedFile) -> bool {
    is_load_result(file.path@, file.facts, Ok(image))
}

/// Whether the images are those that the files give, one for one.
pub open spec fn are_images_of(images: Seq<SavedImage>, files: Seq<ListedFile>) -> bool {
    &&& images.len() == files.len()
    &&& forall|k: int| 0 <= k < images.len() ==> is_image_of(#[trigger] images[k], files[k])
}

/// Whether a file is an image of the name.
pub open spec fn is_image_named(file: ListedFile, name: Seq<char>) -> bool {
    loads(file.path@, file.facts) && file_stem_of(file.path@) == Some(name)
}

impl CollectionDirectory {
    /// The place of the directory.
    pub closed spec fn place(self) -> CollectionPath {
        self.path
    }

    /// The files found in the directory.
    pub closed spec fn files(self) -> Seq<ListedFile> {
        self.files@
    }

    /// Whether the directory holds a repository.
    pub closed spec fn is_synchronized(self) -> bool {
        self.has_repository
    }

    /// Checks a name for a collection: it may not hold spaces, and has to
    /// be in lower case.
    pub fn is_collection_name_valid(name: &str) -> (valid: Result<(), &'static str>)
        ensures
            match name_fault(name@) {
                None => valid is Ok,
                Some(NameFault::Spaces) => valid matches Err(reason) && reason@
                    == "Name cannot contain spaces"@,
                Some(NameFault::Uppercase) => valid matches Err(reason) && reason@
                    == "Name must be lowercase"@,
            },
    {
        if contains_char(name, ' ') {
            return Err("Name cannot contain spaces");
        }
        if !str_equal(lowercase(name).as_str(), name) {
            return Err("Name must be lowercase");
        }
        Ok(())
    }

    /// Checks a name for a collection; the error says what is wrong with it.
    pub fn check_name(name: &str) -> (valid: Result<(), CollectionError>)
        ensures
            match name_fault(name@) {
                None => valid is Ok,
                Some(NameFault::Spaces) => valid matches Err(CollectionError::InvalidName(reason))
                    && reason@ == "Name cannot contain spaces"@,
                Some(NameFault::Uppercase) => valid matches Err(
                    CollectionError::InvalidName(reason),
                ) && reason@ == "Name must be lowercase"@,
            },
    {
        match Self::is_collection_name_valid(name) {
            Ok(()) => Ok(()),
            Err(reason) => Err(CollectionError::InvalidName(String::from_str(reason))),
        }
    }

    /// What comes before any plan: an invalid name is refused, with the
    /// reason; then a storage location that is no directory.
    pub open spec fn is_refusal<T>(
        name: Seq<char>,
        facts: PlaceFacts,
        result: Result<T, CollectionError>,
    ) -> bool {
        if name_fault(name) is Some {
            refuses_name(name, result)
        } else {
            result matches Err(CollectionError::NoStorageLocation)
        }
    }

    /// Whether a collection of the name can be placed.
    pub open spec fn is_placeable(name: Seq<char>, facts: PlaceFacts) -> bool {
        name_fault(name) is None && !(facts.storage_exists && !facts.storage_is_dir)
    }

    /// Whether a setup is at the place of the collection of the name, and
    /// makes the storage directory where it is missing.
    pub open spec fn is_placed(
        data_dir: Seq<char>,
        name: Seq<char>,
        facts: PlaceFacts,
        setup: Setup,
    ) -> bool {
        &&& setup.path.path() == storage_directory(data_dir) + seq!['/'] + name
        &&& setup.path.is_there() == facts.collection_is_dir
        &&& setup.make_storage == !facts.storage_exists
    }

    /// What planning a new collection comes to: its directory is made where
    /// it is not there, and a repository is initialized where a remote is
    /// given.
    pub open spec fn is_creation(
        data_dir: Seq<char>,
        name: Seq<char>,
        remote_url: Option<Seq<char>>,
        facts: PlaceFacts,
        setup: Result<Setup, CollectionError>,
    ) -> bool {
        if !Self::is_placeable(name, facts) {
            Self::is_refusal(name, facts, setup)
        } else {
            setup matches Ok(s) && Self::is_placed(data_dir, name, facts, s) && s.make_directory
                == !facts.collection_is_dir && match remote_url {
                Some(url) => s.repository matches RepositoryStep::Initialize { remote_url: r }
                    && r@ == url,
                None => s.repository is Nothing,
            }
        }
    }

    /// What planning the opening of a collection comes to: its directory is
    /// made where it is not there, and its repository is opened, if it has
    /// one.
    pub open spec fn is_opening(
        data_dir: Seq<char>,
        name: Seq<char>,
        facts: PlaceFacts,
        setup: Result<Setup, CollectionError>,
    ) -> bool {
        if !Self::is_placeable(name, facts) {
            Self::is_refusal(name, facts, setup)
        } else {
            setup matches Ok(s) && Self::is_placed(data_dir, name, facts, s) && s.make_directory
                == !facts.collection_is_dir && s.repository is Open
        }
    }

    /// What planning the cloning of a collection comes to: there may be no
    /// collection of the name yet; the clone makes its directory itself.
    pub open spec fn is_cloning(
        data_dir: Seq<char>,
        remote_url: Seq<char>,
        name: Seq<char>,
        facts: PlaceFacts,
        setup: Result<Setup, CollectionError>,
    ) -> bool {
        if !Self::is_placeable(name, facts) {
            Self::is_refusal(name, facts, setup)
        } else if facts.collection_is_dir {
            setup matches Err(CollectionError::CollectionAlreadyExists)
        } else {
            setup matches Ok(s) && Self::is_placed(data_dir, name, facts, s) && !s.make_directory
                && (s.repository matches RepositoryStep::Clone { remote_url: r } && r@
                == remote_url)
        }
    }

    /// Plans a new collection.
    pub(crate) fn create(
        data_dir: &str,
        name: &str,
        remote_url: Option<&str>,
        facts: &PlaceFacts,
    ) -> (setup: Result<Setup, CollectionError>)
        ensures
            Self::is_creation(
                data_dir@,
                name@,
                match remote_url {
                    Some(url) => Some(url@),
                    None => None,
                },
                *facts,
                setup,
            ),
    {
        match Self::check_name(name) {
            Ok(()) => {},
            Err(e) => return Err(e),
        }
        let path = match CollectionPath::from_name(data_dir, name, facts) {
            Ok(path) => path,
            Err(e) => return Err(e),
        };
        let repository = match remote_url {
            Some(url) => RepositoryStep::Initialize { remote_url: String::from_str(url) },
            None => RepositoryStep::Nothing,
        };
        let make_storage = path.create_storage();
        let make_directory = path.create_directory();
        Ok(Setup { path, make_storage, make_directory, repository })
    }

    /// Plans the opening of a collection.
    pub(crate) fn open(data_dir: &str, name: &str, facts: &PlaceFacts) -> (setup: Result<
        Setup,
        CollectionError,
    >)
        ensures
            Self::is_opening(data_dir@, name@, *facts, setup),
    {
        match Self::check_name(name) {
            Ok(()) => {},
            Err(e) => return Err(e),
        }
        let path = match CollectionPath::from_name(data_dir, name, facts) {
            Ok(path) => path,
            Err(e) => return Err(e),
        };
        let make_storage = path.create_storage();
        let make_directory = path.create_directory();
        Ok(Setup { path, make_storage, make_directory, repository: RepositoryStep::Open })
    }

    /// Plans the cloning of a collection from a remote.
    pub(crate) fn clone(data_dir: &str, remote_url: &str, name: &str, facts: &PlaceFacts) -> (setup:
        Result<Setup, CollectionError>)
        ensures
            Self::is_cloning(data_dir@, remote_url@, name@, *facts, setup),
    {
        match Self::check_name(name) {
            Ok(()) => {},
            Err(e) => return Err(e),
        }
        let path = match CollectionPath::from_name(data_dir, name, facts) {
            Ok(path) => path,
            Err(e) => return Err(e),
        };
        if path.exists_on_disk() {
            return Err(CollectionError::CollectionAlreadyExists);
        }
        let make_storage = path.create_storage();
        Ok(
            Setup {
                path,
                make_storage,
                make_directory: false,
                repository: RepositoryStep::Clone { remote_url: String::from_str(remote_url) },
            },
        )
    }

    /// The directory of a collection that was set up: whether it holds a
    /// repository follows from how the opening of one went, and only a
    /// failure other than there being none is an error.
    pub fn opened(path: CollectionPath, repository: RepositoryOpening, files: Vec<ListedFile>) -> (directory:
        Result<Self, CollectionError>)
        ensures
            match repository {
                RepositoryOpening::Opened => directory matches Ok(d) && d.place() == path
                    && d.files() == files@ && d.is_synchronized(),
                RepositoryOpening::NotFound => directory matches Ok(d) && d.place() == path
                    && d.files() == files@ && !d.is_synchronized(),
                RepositoryOpening::Failed(why) => directory matches Err(
                    CollectionError::GitError(reason),
                ) && reason@ == why@,
            },
    {
        match repository {
            RepositoryOpening::Opened => Ok(
                CollectionDirectory { path, has_repository: true, files },
            ),
            RepositoryOpening::NotFound => Ok(
                CollectionDirectory { path, has_repository: false, files },
            ),
            RepositoryOpening::Failed(why) => Err(CollectionError::GitError(why)),
        }
    }

    /// Whether the directory holds a repository.
    pub fn get_repository(&self) -> (has: bool)
        ensures
            has == self.is_synchronized(),
    {
        self.has_repository
    }

    /// The place of the directory.
    pub fn get_path(&self) -> (path: &CollectionPath)
        ensures
            *path == self.place(),
    {
        &self.path
    }

    /// The images of the collection: one for every file that can be taken
    /// for an image, in the order of the listing, each with the path, the
    /// format and the absolute path of its file.
    pub fn get_images(&self) -> (images: Vec<SavedImage>)
        ensures
            are_images_of(images@, image_files(self.files(), self.files().len())),
    {
        let mut images: Vec<SavedImage> = Vec::new();
        let mut i: usize = 0;
        while i < self.files.len()
            invariant
                i <= self.files.len(),
                are_images_of(images@, image_files(self.files@, i as nat)),
            decreases self.files.len() - i,
        {
            let file = &self.files[i];
            match SavedImage::from_path(file.path.as_str(), &file.facts) {
                Ok(image) => {
                    images.push(image);
                },
                Err(_) => {},
            }
            i = i + 1;
        }
        images
    }

    /// One image of the collection, picked at random: the image of one of
    /// the files that can be taken for images; an error where the
    /// collection holds none.
    pub fn get_random_image(&self) -> (image: Result<SavedImage, CollectionError>)
        ensures
            image_files(self.files(), self.files().len()).len() == 0 ==> image matches Err(
                CollectionError::CollectionEmpty,
            ),
            image_files(self.files(), self.files().len()).len() > 0 ==> (image matches Ok(picked)
                && exists|k: int|
                0 <= k < image_files(self.files(), self.files().len()).len() && is_image_of(
                    picked,
                    #[trigger] image_files(self.files(), self.files().len())[k],
                )),
    {
        let images = self.get_images();
        let ghost all = images@;
        match take_one(images) {
            Some(image) => {
                proof {
                    let k = choose|k: int| 0 <= k < all.len() && all[k] == image;
                    assert(is_image_of(
                        all[k],
                        image_files(self.files(), self.files().len())[k],
                    ));
                }
                Ok(image)
            },
            None => Err(CollectionError::CollectionEmpty),
        }
    }

    /// The image of the collection with the name: the first file that is an
    /// image and whose stem is exactly the name.
    pub fn find_image(&self, name: &str) -> (image: Result<SavedImage, CollectionError>)
        ensures
            (forall|j: int|
                0 <= j < self.files().len() ==> !is_image_named(#[trigger] self.files()[j], name@))
                ==> image matches Err(CollectionError::ImageNotFound),
            forall|i: int|
                0 <= i < self.files().len() && is_image_named(#[trigger] self.files()[i], name@)
                    && (forall|j: int|
                    0 <= j < i ==> !is_image_named(#[trigger] self.files()[j], name@)) ==> (
                image matches Ok(found) && is_image_of(found, self.files()[i])),
    {
        let mut i: usize = 0;
        while i < self.files.len()
            invariant
                i <= self.files.len(),
                forall|j: int| 0 <= j < i ==> !is_image_named(#[trigger] self.files@[j], name@),
            decreases self.files.len() - i,
        {
            let file = &self.files[i];
            let named = match file_stem(file.path.as_str()) {
                Some(stem) => str_equal(stem, name),
                None => false,
            };
            if named {
                match SavedImage::from_path(file.path.as_str(), &file.facts) {
                    Ok(image) => {
                        assert(is_image_named(self.files()[i as int], name@));
                        assert(is_image_of(image, self.files()[i as int]));
                        return Ok(image);
                    },
                    Err(_) => {},
                }
            }
            i = i + 1;
        }
        Err(CollectionError::ImageNotFound)
    }

    /// Plans the adding of an image to the collection: a copy of its file
    /// to the path that the collection gives it. The copy is owed where that
    /// path is read back as a file of the image's own format; where it is
    /// read as another format, or as none, that is the error.
    pub fn add_image(&self, image: &SavedImage) -> (plan: Result<CopyPlan, ImageError>)
        ensures
            image.is_copy_result(self.place().image_place(*image), plan),
    {
        match self.path.get_image_path(image) {
            Ok(goal_path) => image.copy_to(goal_path.as_str()),
            Err(_) => Err(ImageError::NotFound),
        }
    }
}

/// An image is always added where its name and format are regular: if the
/// image's name is not empty and holds no separator, and the usual extension
/// of its format is a plain word that names the format again, the path that
/// a collection gives the image is read back as a file of that format.
pub proof fn lemma_image_place_keeps_format(place: CollectionPath, image: SavedImage)
    requires
        file_stem_of(image.path()) matches Some(stem) && is_safe_stem(stem),
        has_plain_extension(image.format()),
    ensures
        path_format(place.image_place(image)) == Some(image.format()),
        file_stem_of(place.image_place(image)) == file_stem_of(image.path()),
{
    lemma_file_in_directory(
        place.path(),
        file_stem_of(image.path())->0,
        canonical_extension(image.format()),
    );
}

/// A collection: its name and its directory.
pub struct Collection {
    name: String,
    directory: CollectionDirectory,
}

impl Collection {
    /// The name of the collection.
    pub closed spec fn name(self) -> Seq<char> {
        self.name@
    }

    /// The directory of the collection.
    pub closed spec fn directory(self) -> CollectionDirectory {
        self.directory
    }

    /// Plans a new collection of the name: its directory is made where it
    /// is not there, and a repository is initialized where a remote is given.
    pub fn create(data_dir: &str, name: &str, remote_url: Option<&str>, facts: &PlaceFacts) -> (setup:
        Result<Setup, CollectionError>)
        ensures
            CollectionDirectory::is_creation(
                data_dir@,
                name@,
                match remote_url {
                    Some(url) => Some(url@),
                    None => None,
                },
                *facts,
                setup,
            ),
    {
        CollectionDirectory::create(data_dir, name, remote_url, facts)
    }

    /// Plans the opening of the collection of the name: its directory is
    /// made where it is not there, and its repository is opened, if it has
    /// one.
    pub fn open(data_dir: &str, name: &str, facts: &PlaceFacts) -> (setup: Result<
        Setup,
        CollectionError,
    >)
        ensures
            CollectionDirectory::is_opening(data_dir@, name@, *facts, setup),
    {
        CollectionDirectory::open(data_dir, name, facts)
    }

    /// Plans the cloning of a remote into a new collection of the name.
    pub fn clone(data_dir: &str, remote_url: &str, name: &str, facts: &PlaceFacts) -> (setup:
        Result<Setup, CollectionError>)
        ensures
            CollectionDirectory::is_cloning(data_dir@, remote_url@, name@, *facts, setup),
    {
        CollectionDirectory::clone(data_dir, remote_url, name, facts)
    }

    /// The collection of a name, with its directory.
    pub fn new(name: &str, directory: CollectionDirectory) -> (collection: Self)
        ensures
            collection.name() == name@,
            collection.directory() == directory,
    {
        Collection { name: String::from_str(name), directory }
    }

    /// The directory of the collection.
    pub fn get_directory(&self) -> (directory: &CollectionDirectory)
        ensures
            *directory == self.directory(),
    {
        &self.directory
    }

    /// The name of the collection.
    pub fn get_name(&self) -> (name: &str)
        ensures
            name@ == self.name(),
    {
        self.name.as_str()
    }

    /// Whether the collection is kept in a repository.
    pub fn get_repository(&self) -> (has: bool)
        ensures
            has == self.directory().is_synchronized(),
    {
        self.get_directory().get_repository()
    }

    /// The path of the directory to remove, with all that is in it, when the
    /// collection is deleted.
    pub fn delete(self) -> (path: String)
        ensures
            path@ == self.directory().place().path(),
    {
        String::from_str(self.directory.get_path().as_ref())
    }
}

} // verus!
