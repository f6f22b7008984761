//! The image cache: a flat directory of files named by stem and extension.
//!
//! The cache works on a listing of its directory that the caller took; it
//! says which file answers a stem, which files are due for removal, and where
//! a new image goes.

use vstd::prelude::*;
use vstd::string::StringExecFns;
use image::ImageFormat;
use crate::format::{canonical_extension, format_of_path, has_plain_extension, path_format};
use crate::picture::{
    file_name_for, is_load_result, loads, FetchedImage, FileFacts, ImageError, SavePlan,
    SavedImage,
};
use crate::text::{
    clone_strings, file_stem, file_stem_of, is_safe_stem, lemma_file_in_directory, str_equal,
    views,
};

verus! {

/// How long ago something happened: whole seconds, and the nanoseconds of
/// the second that has begun.
pub struct Elapsed {
    pub secs: u64,
    pub nanos: u32,
}

/// One entry of the cache directory, as the caller found it.
pub struct CacheEntry {
    /// The path of the entry.
    pub path: String,
    /// What the file system says of it.
    pub facts: FileFacts,
    /// The time since it was last modified, where that could be told.
    pub age: Option<Elapsed>,
}

/// The number of seconds that a cached image is kept: seven days.
pub const RETENTION_SECONDS: u64 = 604800;

/// Whether an age is beyond the time that cached images are kept.
pub open spec fn exceeds_retention(age: Elapsed) -> bool {
    age.secs > RETENTION_SECONDS || (age.secs == RETENTION_SECONDS && age.nanos > 0)
}

/// Whether an entry is due for removal: it is named as an image, its age is
/// known, and it is older than images are kept.
pub open spec fn is_stale(entry: CacheEntry) -> bool {
    &&& path_format(entry.path@) is Some
    &&& entry.age is Some
    &&& exceeds_retention(entry.age->0)
}

/// The paths of the stale entries among the first `n`, in listing order.
pub open spec fn stale_paths(entries: Seq<CacheEntry>, n: nat) -> Seq<Seq<char>>
    recommends
        n <= entries.len(),
    decreases n,
{
    if n == 0 {
        Seq::empty()
    } else {
        let before = stale_paths(entries, (n - 1) as nat);
        if is_stale(entries[n - 1]) {
            before.push(entries[n - 1].path@)
        } else {
            before
        }
    }
}

/// The entries that are not stale among the first `n`, in listing order.
pub open spec fn fresh_entries(entries: Seq<CacheEntry>, n: nat) -> Seq<CacheEntry>
    recommends
        n <= entries.len(),
    decreases n,
{
    if n == 0 {
        Seq::empty()
    } else {
        let before = fresh_entries(entries, (n - 1) as nat);
        if is_stale(entries[n - 1]) {
            before
        } else {
            before.push(entries[n - 1])
        }
    }
}

/// Whether an entry's file name, without its extension, is `stem`.
pub open spec fn has_stem(entry: CacheEntry, stem: Seq<char>) -> bool {
    file_stem_of(entry.path@) == Some(stem)
}

/// Whether entry `i` is the first of the listing with the stem.
pub open spec fn is_first_with_stem(entries: Seq<CacheEntry>, stem: Seq<char>, i: int) -> bool {
    &&& 0 <= i < entries.len()
    &&& has_stem(entries[i], stem)
    &&& forall|j: int| 0 <= j < i ==> !has_stem(#[trigger] entries[j], stem)
}

/// The path of a file in a directory.
pub open spec fn path_in(directory: Seq<char>, file_name: Seq<char>) -> Seq<char> {
    directory + seq!['/'] + file_name
}

/// An attempt to remove one file, and how it went.
pub struct Removal {
    pub path: String,
    /// The reason of the failure, where the file could not be removed.
    pub failure: Option<String>,
}

/// The failures among the first `n` removals, in order.
pub open spec fn failed_removals(removals: Seq<Removal>, n: nat) -> Seq<Seq<char>>
    recommends
        n <= removals.len(),
    decreases n,
{
    if n == 0 {
        Seq::empty()
    } else {
        let before = failed_removals(removals, (n - 1) as nat);
        match removals[n - 1].failure {
            Some(reason) => before.push(reason@),
            None => before,
        }
    }
}

/// The reasons that a list of file system errors carries.
pub open spec fn fs_reasons(errors: Seq<ImageError>) -> Seq<Seq<char>> {
    Seq::new(
        errors.len(),
        |i: int|
            match errors[i] {
                ImageError::FsError(reason) => reason@,
                _ => Seq::empty(),
            },
    )
}

/// An image cache manager: finds images by stem, places new ones, and names
/// the stale ones.
pub struct ImageCache {
    path: String,
    entries: Vec<CacheEntry>,
    evicted: Vec<String>,
}

impl ImageCache {
    /// The directory of the cache.
    pub closed spec fn directory(self) -> Seq<char> {
        self.path@
    }

    /// The listing that the cache works on: what the directory holds once
    /// the cleanup of the opening is done.
    pub closed spec fn entries(self) -> Seq<CacheEntry> {
        self.entries@
    }

    /// The paths of the files that the cleanup of the opening removes.
    pub closed spec fn evicted(self) -> Seq<Seq<char>> {
        views(self.evicted@)
    }

    /// Whether entry `i` answers a search for `stem`: it is the first with
    /// that stem, and it can be taken for an image.
    pub open spec fn is_hit(self, stem: Seq<char>, i: int) -> bool {
        &&& is_first_with_stem(self.entries(), stem, i)
        &&& loads(self.entries()[i].path@, self.entries()[i].facts)
    }

    /// Whether the cache holds an image for `stem`.
    pub open spec fn holds(self, stem: Seq<char>) -> bool {
        exists|i: int| self.is_hit(stem, i)
    }

    /// What a search for `stem` comes to: the image at the first entry with
    /// that stem, if it can be taken for one, and the reason why not else;
    /// not found, where no entry has the stem.
    pub open spec fn is_find_result(
        self,
        stem: Seq<char>,
        found: Result<SavedImage, ImageError>,
    ) -> bool {
        &&& (forall|j: int| 0 <= j < self.entries().len() ==> !has_stem(
            #[trigger] self.entries()[j],
            stem,
        )) ==> (found matches Err(ImageError::NotFound))
        &&& forall|i: int|
            is_first_with_stem(self.entries(), stem, i) ==> is_load_result(
                self.entries()[i].path@,
                self.entries()[i].facts,
                found,
            )
    }

    /// Opens the cache over the directory at `path`, which was found to
    /// hold `entries`. Opening cleans up: the stale entries are set apart
    /// for removal, and the cache works on those that are left, in the order
    /// of the listing.
    pub fn open(path: &str, entries: Vec<CacheEntry>) -> (cache: Self)
        ensures
            cache.directory() == path@,
            cache.entries() == fresh_entries(entries@, entries@.len()),
            cache.evicted() == stale_paths(entries@, entries@.len()),
    {
        let ghost all = entries@;
        let mut kept: Vec<CacheEntry> = Vec::new();
        let mut evicted: Vec<String> = Vec::new();
        assert(views(evicted@) =~= Seq::<Seq<char>>::empty());
        for entry in it: entries.into_iter()
            invariant
                it.seq() == all,
                kept@ == fresh_entries(all, it.index() as nat),
                views(evicted@) == stale_paths(all, it.index() as nat),
        {
            if should_cull(&entry) {
                let ghost before = evicted@;
                evicted.push(entry.path);
                assert(views(evicted@) =~= views(before).push(entry.path@));
            } else {
                kept.push(entry);
            }
        }
        ImageCache { path: String::from_str(path), entries: kept, evicted }
    }

    /// Looks for the image with the stem `name`: the first entry whose file
    /// name, without its extension, is exactly `name`.
    pub fn find(&self, name: &str) -> (found: Result<SavedImage, ImageError>)
        ensures
            self.is_find_result(name@, found),
            found is Ok == self.holds(name@),
    {
        let mut i: usize = 0;
        while i < self.entries.len()
            invariant
                i <= self.entries.len(),
                forall|j: int| 0 <= j < i ==> !has_stem(#[trigger] self.entries@[j], name@),
            decreases self.entries.len() - i,
        {
            let entry = &self.entries[i];
            let matches = match file_stem(entry.path.as_str()) {
                Some(stem) => str_equal(stem, name),
                None => false,
            };
            if matches {
                assert(is_first_with_stem(self.entries@, name@, i as int));
                let found = SavedImage::from_path(entry.path.as_str(), &entry.facts);
                proof {
                    if found is Ok {
                        assert(self.is_hit(name@, i as int));
                    }
                }
                return found;
            }
            i = i + 1;
        }
        Err(ImageError::NotFound)
    }

    /// The paths of the files to remove: those that the opening found
    /// stale, named as images and last changed more than seven days ago.
    pub fn cleanup_cache(&self) -> (doomed: Vec<String>)
        ensures
            views(doomed@) == self.evicted(),
    {
        clone_strings(&self.evicted)
    }

    /// The errors of a cleanup: one for every removal that failed, in order.
    /// A failure does not keep the other files from being removed.
    pub fn cleanup_failures(removals: &Vec<Removal>) -> (errors: Vec<ImageError>)
        ensures
            fs_reasons(errors@) == failed_removals(removals@, removals@.len()),
            forall|k: int| 0 <= k < errors@.len() ==> #[trigger] errors@[k] is FsError,
    {
        let mut errors: Vec<ImageError> = Vec::new();
        let mut i: usize = 0;
        assert(fs_reasons(errors@) =~= Seq::<Seq<char>>::empty());
        while i < removals.len()
            invariant
                i <= removals.len(),
                fs_reasons(errors@) == failed_removals(removals@, i as nat),
                forall|k: int| 0 <= k < errors@.len() ==> #[trigger] errors@[k] is FsError,
            decreases removals.len() - i,
        {
            match &removals[i].failure {
                Some(reason) => {
                    let ghost before = errors@;
                    errors.push(ImageError::FsError(reason.clone()));
                    assert(fs_reasons(errors@) =~= fs_reasons(before).push(reason@));
                },
                None => {},
            }
            i = i + 1;
        }
        errors
    }

    /// The path at which the cache keeps the image of a stem and a format.
    pub open spec fn place_of(self, stem: Seq<char>, format: ImageFormat) -> Seq<char> {
        path_in(self.directory(), file_name_for(stem, format))
    }

    /// The path of a file of the cache, by its name.
    pub fn place(&self, file_name: &str) -> (path: String)
        ensures
            path@ == path_in(self.directory(), file_name@),
    {
        proof {
            reveal_strlit("/");
            assert("/"@ =~= seq!['/']);
        }
        self.path.clone().concat("/").concat(file_name)
    }

    /// Plans the saving of a fetched image into the cache, under the file
    /// name made of its stem and the usual extension of its format. There is
    /// always such a plan, and it keeps the bytes of the image: the file in
    /// the cache is read back under the image's stem and format. An image
    /// that is that file already is kept as it is.
    pub fn cache<'a>(&self, image: &'a FetchedImage) -> (plan: Result<SavePlan<'a>, ImageError>)
        ensures
            plan matches Ok(p) && image.is_verbatim_plan(
                self.place_of(image.stem(), image.format()),
                p,
            ),
            is_safe_stem(image.stem()),
            has_plain_extension(image.format()),
            file_stem_of(self.place_of(image.stem(), image.format())) == Some(image.stem()),
            path_format(self.place_of(image.stem(), image.format())) == Some(image.format()),
    {
        let _ = image.get_stem();
        let format = image.get_format();
        proof {
            lemma_file_in_directory(self.directory(), image.stem(), canonical_extension(format));
        }
        let file_name = image.get_file_name();
        let file_path = self.place(file_name.as_str());
        image.save(file_path.as_str())
    }
}

/// Whether an entry of the cache directory is due for removal.
pub fn should_cull(entry: &CacheEntry) -> (cull: bool)
    ensures
        cull == is_stale(*entry),
{
    if format_of_path(entry.path.as_str()).is_none() {
        return false;
    }
    match &entry.age {
        Some(age) => age.secs > RETENTION_SECONDS || (age.secs == RETENTION_SECONDS && age.nanos
            > 0),
        None => false,
    }
}

/// Every stale entry of a listing is named for removal.
pub proof fn lemma_stale_is_removed(entries: Seq<CacheEntry>, n: nat, i: int)
    requires
        n <= entries.len(),
        0 <= i < n,
        is_stale(entries[i]),
    ensures
        stale_paths(entries, n).contains(entries[i].path@),
    decreases n,
{
    let now = stale_paths(entries, n);
    if i == n - 1 {
        assert(now[now.len() - 1] == entries[i].path@);
    } else {
        let before = stale_paths(entries, (n - 1) as nat);
        lemma_stale_is_removed(entries, (n - 1) as nat, i);
        let k = choose|k: int| 0 <= k < before.len() && before[k] == entries[i].path@;
        assert(now[k] == entries[i].path@);
    }
}

/// Only stale entries are named for removal: every path that is named
/// belongs to an entry of the listing that is stale.
pub proof fn lemma_removed_is_stale(entries: Seq<CacheEntry>, n: nat, k: int) -> (i: int)
    requires
        n <= entries.len(),
        0 <= k < stale_paths(entries, n).len(),
    ensures
        0 <= i < n,
        is_stale(entries[i]),
        entries[i].path@ == stale_paths(entries, n)[k],
    decreases n,
{
    let before = stale_paths(entries, (n - 1) as nat);
    if k < before.len() {
        lemma_removed_is_stale(entries, (n - 1) as nat, k)
    } else {
        n - 1
    }
}

/// Every entry of a listing that is not stale is left after the cleanup.
pub proof fn lemma_fresh_is_kept(entries: Seq<CacheEntry>, n: nat, i: int)
    requires
        n <= entries.len(),
        0 <= i < n,
        !is_stale(entries[i]),
    ensures
        fresh_entries(entries, n).contains(entries[i]),
    decreases n,
{
    let now = fresh_entries(entries, n);
    if i == n - 1 {
        assert(now[now.len() - 1] == entries[i]);
    } else {
        let before = fresh_entries(entries, (n - 1) as nat);
        lemma_fresh_is_kept(entries, (n - 1) as nat, i);
        let k = choose|k: int| 0 <= k < before.len() && before[k] == entries[i];
        assert(now[k] == entries[i]);
    }
}

/// Only entries that are not stale are left after the cleanup: each of them
/// is an entry of the listing, and is not stale.
pub proof fn lemma_kept_is_fresh(entries: Seq<CacheEntry>, n: nat, k: int) -> (i: int)
    requires
        n <= entries.len(),
        0 <= k < fresh_entries(entries, n).len(),
    ensures
        0 <= i < n,
        !is_stale(entries[i]),
        entries[i] == fresh_entries(entries, n)[k],
    decreases n,
{
    let before = fresh_entries(entries, (n - 1) as nat);
    if k < before.len() {
        lemma_kept_is_fresh(entries, (n - 1) as nat, k)
    } else {
        n - 1
    }
}

/// An image that is a week old or younger is kept, an older one is not: the
/// threshold is seven days to the nanosecond.
pub proof fn lemma_retention_threshold(age: Elapsed)
    ensures
        age.secs < 7 * 24 * 60 * 60 ==> !exceeds_retention(age),
        age.secs == 7 * 24 * 60 * 60 && age.nanos == 0 ==> !exceeds_retention(age),
        age.secs > 7 * 24 * 60 * 60 ==> exceeds_retention(age),
{
}

/// Once an image lies in the cache, a search for its stem finds it: if the
/// listing holds the file that the cache keeps for the stem and format, and
/// no entry before it has the same stem, the search answers with that file.
pub proof fn lemma_cached_image_is_found(
    cache: ImageCache,
    stem: Seq<char>,
    format: ImageFormat,
    i: int,
)
    requires
        is_safe_stem(stem),
        has_plain_extension(format),
        0 <= i < cache.entries().len(),
        cache.entries()[i].path@ == path_in(cache.directory(), file_name_for(stem, format)),
        cache.entries()[i].facts.is_file,
        forall|j: int| 0 <= j < i ==> !has_stem(#[trigger] cache.entries()[j], stem),
    ensures
        cache.is_hit(stem, i),
        cache.holds(stem),
        path_format(cache.entries()[i].path@) == Some(format),
{
    lemma_file_in_directory(cache.directory(), stem, canonical_extension(format));
    assert(cache.is_hit(stem, i));
}

/// The first entry of a stem stays the first of that stem through the
/// cleanup, if it is not stale itself.
proof fn lemma_first_stays_first(entries: Seq<CacheEntry>, n: nat, i: int, stem: Seq<char>) -> (k:
    int)
    requires
        n <= entries.len(),
        0 <= i < n,
        !is_stale(entries[i]),
        forall|j: int| 0 <= j < i ==> !has_stem(#[trigger] entries[j], stem),
    ensures
        0 <= k < fresh_entries(entries, n).len(),
        fresh_entries(entries, n)[k] == entries[i],
        forall|j: int| 0 <= j < k ==> !has_stem(#[trigger] fresh_entries(entries, n)[j], stem),
    decreases n,
{
    let before = fresh_entries(entries, (n - 1) as nat);
    let now = fresh_entries(entries, n);
    if i == n - 1 {
        let k = before.len() as int;
        assert forall|j: int| 0 <= j < k implies !has_stem(#[trigger] now[j], stem) by {
            let m = lemma_kept_is_fresh(entries, (n - 1) as nat, j);
            assert(now[j] == entries[m]);
        }
        k
    } else {
        let k = lemma_first_stays_first(entries, (n - 1) as nat, i, stem);
        assert forall|j: int| 0 <= j < k implies !has_stem(#[trigger] now[j], stem) by {
            assert(now[j] == before[j]);
        }
        k
    }
}

/// An image that was written to the cache is served from it from then on:
/// if the directory is listed again with the file that the cache keeps for
/// the stem and format, not stale and with no entry of the same stem before
/// it, then the cache that is opened on that listing holds the stem and
/// answers with that file, so that nothing is fetched again.
pub proof fn lemma_written_image_is_served(
    cache: ImageCache,
    listing: Seq<CacheEntry>,
    stem: Seq<char>,
    format: ImageFormat,
    i: int,
) -> (k: int)
    requires
        is_safe_stem(stem),
        has_plain_extension(format),
        cache.entries() == fresh_entries(listing, listing.len()),
        0 <= i < listing.len(),
        listing[i].path@ == cache.place_of(stem, format),
        listing[i].facts.is_file,
        !is_stale(listing[i]),
        forall|j: int| 0 <= j < i ==> !has_stem(#[trigger] listing[j], stem),
    ensures
        cache.is_hit(stem, k),
        cache.entries()[k] == listing[i],
        cache.holds(stem),
{
    let k = lemma_first_stays_first(listing, listing.len(), i, stem);
    lemma_file_in_directory(cache.directory(), stem, canonical_extension(format));
    assert(cache.is_hit(stem, k));
    k
}

} // verus!
