//! The commands of the program: what each one decides before anything is
//! fetched, written or run.

use vstd::prelude::*;
use vstd::string::StringExecFns;
use crate::category::{Category, CategoryError};
use crate::chance::pick;
use crate::config::{GlobalConfig, SupplierFile};
use crate::finder::{find_best_by_value, is_best_match};
use crate::collections::{image_files, is_image_of, Collection, CollectionError};
use crate::picture::{FileFacts, ImageError, SavedImage, SearchParameters};
use crate::state::{ImageStateType, State};
use crate::text::{chars_of, clone_strings, extension, extension_of, file_stem, file_stem_of, views};

verus! {

/// The arguments of `fetch`.
pub struct FetchArgs {
    /// Whether to assign the wallpaper with the configured command.
    pub assign: bool,
    /// Where to put the image; it goes into the cache if not set.
    pub output: Option<String>,
    /// Which configured category to search with.
    pub category: Option<String>,
    /// Which supplier to ask; one is picked at random if not set.
    pub supplier: Option<String>,
    /// Tags to search with, besides those of the category.
    pub tags: Vec<String>,
    /// Whether to print nothing but the path of the image.
    pub simple: bool,
    /// Whether to pass over images that the cache already holds.
    pub skip_cache: bool,
}

/// Why a fetch could not be planned.
#[derive(Debug)]
pub enum FetchError {
    /// The category was not found.
    Category(CategoryError),
    /// No supplier is configured.
    NoSuppliers,
    /// No supplier has the name; the closest one is suggested.
    SupplierDidYouMean { name: String, suggestion: String },
}

/// What a fetch is to do.
pub struct FetchPlan {
    /// What to search for.
    pub parameters: SearchParameters,
    /// The supplier to ask.
    pub supplier: SupplierFile,
    /// Where to put the image; into the cache if not set.
    pub output: Option<String>,
    pub assign: bool,
    pub simple: bool,
}

/// The names of a list of suppliers.
pub open spec fn supplier_names(suppliers: Seq<SupplierFile>) -> Seq<Seq<char>> {
    suppliers.map_values(|supplier: SupplierFile| supplier.name@)
}

/// The names of the suppliers.
fn names_of_suppliers(suppliers: &Vec<SupplierFile>) -> (names: Vec<String>)
    ensures
        views(names@) == supplier_names(suppliers@),
{
    let mut names: Vec<String> = Vec::new();
    let mut i: usize = 0;
    while i < suppliers.len()
        invariant
            i <= suppliers.len(),
            views(names@) == supplier_names(suppliers@.take(i as int)),
        decreases suppliers.len() - i,
    {
        let ghost before = names@;
        names.push(suppliers[i].name.clone());
        assert(views(names@) =~= views(before).push(suppliers@[i as int].name@));
        assert(supplier_names(suppliers@.take(i + 1)) =~= supplier_names(
            suppliers@.take(i as int),
        ).push(suppliers@[i as int].name@));
        i = i + 1;
    }
    assert(suppliers@.take(suppliers@.len() as int) =~= suppliers@);
    names
}

/// A copy of a supplier entry.
fn copy_supplier(supplier: &SupplierFile) -> (copy: SupplierFile)
    ensures
        copy.name@ == supplier.name@,
        copy.file@ == supplier.file@,
{
    SupplierFile { name: supplier.name.clone(), file: supplier.file.clone() }
}

/// What the choice of a supplier comes to. With none configured, that is
/// the error. With a name, it is the closest supplier where its name is
/// exactly that, and a suggestion of it else. Without a name, it is any one
/// of the configured suppliers.
pub open spec fn is_supplier_choice(
    name: Option<Seq<char>>,
    suppliers: Seq<SupplierFile>,
    choice: Result<SupplierFile, FetchError>,
) -> bool {
    if suppliers.len() == 0 {
        choice matches Err(FetchError::NoSuppliers)
    } else {
        match name {
            Some(wanted) => exists|best: int|
                #![trigger suppliers[best]]
                is_best_match(wanted, supplier_names(suppliers), best) && if wanted
                    == suppliers[best].name@ {
                    choice matches Ok(supplier) && supplier.name@ == suppliers[best].name@
                        && supplier.file@ == suppliers[best].file@
                } else {
                    choice matches Err(FetchError::SupplierDidYouMean { name: n, suggestion })
                        && n@ == wanted && suggestion@ == suppliers[best].name@
                },
            None => choice matches Ok(supplier) && exists|i: int|
                #![trigger suppliers[i]]
                0 <= i < suppliers.len() && supplier.name@ == suppliers[i].name@ && supplier.file@
                    == suppliers[i].file@,
        }
    }
}

/// Chooses the supplier to ask.
pub fn choose_supplier(name: Option<&str>, suppliers: &Vec<SupplierFile>) -> (choice: Result<
    SupplierFile,
    FetchError,
>)
    requires
        name is Some ==> name->0@.len() <= u32::MAX,
    ensures
        is_supplier_choice(
            match name {
                Some(n) => Some(n@),
                None => None,
            },
            suppliers@,
            choice,
        ),
{
    if suppliers.len() == 0 {
        return Err(FetchError::NoSuppliers);
    }
    match name {
        Some(supplier_name) => {
            let names = names_of_suppliers(suppliers);
            let (equal, best_value) = find_best_by_value(supplier_name, &names);
            match best_value {
                Some(best) => {
                    let value = &suppliers[best];
                    assert(views(names@)[best as int] == names@[best as int]@);
                    if equal {
                        Ok(copy_supplier(value))
                    } else {
                        Err(
                            FetchError::SupplierDidYouMean {
                                name: supplier_name.to_owned(),
                                suggestion: value.name.clone(),
                            },
                        )
                    }
                },
                None => Err(FetchError::NoSuppliers),
            }
        },
        None => {
            match pick(suppliers) {
                Some(supplier) => {
                    proof {
                        let i = choose|i: int|
                            0 <= i < suppliers@.len() && suppliers@[i] == *supplier;
                        assert(suppliers@[i].name@ == supplier.name@);
                    }
                    Ok(copy_supplier(supplier))
                },
                None => Err(FetchError::NoSuppliers),
            }
        },
    }
}

/// The tags to search with: those given, then those of the category.
pub open spec fn search_tags(given: Seq<Seq<char>>, category: Option<Category>) -> Seq<Seq<char>> {
    match category {
        Some(c) => given + views(c.tags@),
        None => given,
    }
}

/// The aspect ratios to search with: those of the category, or the
/// general ones.
pub open spec fn search_ratios(general: Seq<Seq<char>>, category: Option<Category>) -> Seq<
    Seq<char>,
> {
    match category {
        Some(c) => views(c.aspect_ratios@),
        None => general,
    }
}

/// Puts the search parameters together.
pub fn search_parameters(
    tags: Vec<String>,
    category: Option<Category>,
    general_ratios: &Vec<String>,
    skip_cache: bool,
) -> (parameters: SearchParameters)
    ensures
        views(parameters.tags@) == search_tags(views(tags@), category),
        views(parameters.aspect_ratios@) == search_ratios(views(general_ratios@), category),
        parameters.skip_cache == skip_cache,
{
    match category {
        Some(category) => {
            let mut all = tags;
            let mut i: usize = 0;
            while i < category.tags.len()
                invariant
                    i <= category.tags.len(),
                    views(all@) == views(tags@) + views(category.tags@).take(i as int),
                decreases category.tags.len() - i,
            {
                let ghost before = all@;
                all.push(category.tags[i].clone());
                assert(views(all@) =~= views(before).push(category.tags@[i as int]@));
                assert(views(category.tags@).take(i + 1) =~= views(category.tags@).take(
                    i as int,
                ).push(category.tags@[i as int]@));
                assert(views(all@) =~= views(tags@) + views(category.tags@).take(i + 1));
                i = i + 1;
            }
            assert(views(category.tags@).take(category.tags@.len() as int) =~= views(
                category.tags@,
            ));
            SearchParameters { tags: all, aspect_ratios: category.aspect_ratios, skip_cache }
        },
        None => SearchParameters {
            tags,
            aspect_ratios: clone_strings(general_ratios),
            skip_cache,
        },
    }
}

impl FetchArgs {
    /// The name of the supplier that was asked for, if any.
    pub open spec fn wanted_supplier(self) -> Option<Seq<char>> {
        match self.supplier {
            Some(name) => Some(name@),
            None => None,
        }
    }

    /// What planning comes to once the category is settled: the plan, or the
    /// error of the choice of the supplier.
    pub open spec fn is_outcome(
        self,
        config: GlobalConfig,
        category: Option<Category>,
        plan: Result<FetchPlan, FetchError>,
    ) -> bool {
        match plan {
            Ok(fetch) => self.is_plan(config, category, fetch),
            Err(FetchError::Category(_)) => false,
            Err(other) => is_supplier_choice(
                self.wanted_supplier(),
                config.suppliers@,
                Err(other),
            ),
        }
    }

    /// Plans a fetch: finds the category, where one is named; chooses the
    /// supplier; and puts the search parameters together. A category that
    /// is not found comes before a supplier that is not.
    pub fn run(self, config: &GlobalConfig) -> (plan: Result<FetchPlan, FetchError>)
        requires
            self.category is Some ==> self.category->0@.len() <= u32::MAX,
            self.supplier is Some ==> self.supplier->0@.len() <= u32::MAX,
        ensures
            match self.category {
                None => self.is_outcome(*config, None, plan),
                Some(name) => (plan matches Err(FetchError::Category(error))
                    && Category::is_lookup(name@, *config, Err(error))) || (exists|
                    category: Category,
                |
                    #![trigger Category::is_lookup(name@, *config, Ok(category))]
                    Category::is_lookup(name@, *config, Ok(category)) && self.is_outcome(
                        *config,
                        Some(category),
                        plan,
                    )),
            },
    {
        let category = match &self.category {
            Some(category_name) => match Category::find_in_config(category_name.as_str(), config) {
                Ok(category) => Some(category),
                Err(error) => return Err(FetchError::Category(error)),
            },
            None => None,
        };
        let ghost found = category;
        let supplier_name = match &self.supplier {
            Some(name) => Some(name.as_str()),
            None => None,
        };
        let supplier = match choose_supplier(supplier_name, &config.suppliers) {
            Ok(supplier) => supplier,
            Err(error) => return Err(error),
        };
        let parameters = search_parameters(
            self.tags,
            category,
            &config.aspect_ratios,
            self.skip_cache,
        );
        let fetch = FetchPlan {
            parameters,
            supplier,
            output: self.output,
            assign: self.assign,
            simple: self.simple,
        };
        assert(self.is_plan(*config, found, fetch));
        Ok(fetch)
    }

    /// Whether `fetch` is the plan for these arguments, given the category
    /// that was found.
    pub open spec fn is_plan(
        self,
        config: GlobalConfig,
        category: Option<Category>,
        fetch: FetchPlan,
    ) -> bool {
        &&& views(fetch.parameters.tags@) == search_tags(views(self.tags@), category)
        &&& views(fetch.parameters.aspect_ratios@) == search_ratios(
            views(config.aspect_ratios@),
            category,
        )
        &&& fetch.parameters.skip_cache == self.skip_cache
        &&& is_supplier_choice(self.wanted_supplier(), config.suppliers@, Ok(fetch.supplier))
        &&& fetch.output == self.output
        &&& fetch.assign == self.assign
        &&& fetch.simple == self.simple
    }
}

/// The arguments of `get`.
pub struct GetArgs {}

/// The arguments of `set`.
pub struct SetArgs {
    /// Whether to apply the last wallpaper again.
    pub reapply: bool,
    /// The url, path or collection to set the wallpaper from.
    pub name: Option<String>,
}

/// What `set` is to do.
pub enum SetPlan {
    /// Assign the image of the state again, as it is.
    Reapply,
    /// Draw a fresh image from the collection of the state, record it, and
    /// assign it.
    Redraw { collection: String },
    /// Find the image that the name stands for, record it, and assign it.
    Resolve { name: String },
}

/// Why `set` can do nothing.
#[derive(Debug)]
pub enum SetError {
    /// There is no state to apply again.
    NothingToReapply,
    /// The image of the state is no longer there.
    TargetGone,
    /// Neither a name nor `reapply` was given.
    NoArgument,
}

impl SetArgs {
    /// What `set` comes to. Applying again needs a state: an image is
    /// applied as it is, if its file is still there; for a collection, a
    /// fresh image is drawn from it. Else the name is resolved, and there
    /// has to be one.
    pub open spec fn is_plan(
        self,
        state: State,
        facts: FileFacts,
        plan: Result<SetPlan, SetError>,
    ) -> bool {
        if self.reapply {
            match state.current() {
                None => plan matches Err(SetError::NothingToReapply),
                Some(ImageStateType::Image { path }) => if facts.is_file {
                    plan matches Ok(SetPlan::Reapply)
                } else {
                    plan matches Err(SetError::TargetGone)
                },
                Some(ImageStateType::Collection { name, image_path }) => plan matches Ok(
                    SetPlan::Redraw { collection },
                ) && collection@ == name@,
            }
        } else {
            match self.name {
                Some(name) => plan matches Ok(SetPlan::Resolve { name: n }) && n@ == name@,
                None => plan matches Err(SetError::NoArgument),
            }
        }
    }

    /// Plans a `set`; `facts` is what the file system says of the image of
    /// the state. The state is read, not changed.
    pub fn run(self, state: &State, facts: &FileFacts) -> (plan: Result<SetPlan, SetError>)
        ensures
            self.is_plan(*state, *facts, plan),
    {
        if self.reapply {
            match state.get_state() {
                Some(ImageStateType::Image { path: _ }) => {
                    if !facts.is_file {
                        return Err(SetError::TargetGone);
                    }
                    Ok(SetPlan::Reapply)
                },
                Some(ImageStateType::Collection { name, image_path: _ }) => Ok(
                    SetPlan::Redraw { collection: name.clone() },
                ),
                None => Err(SetError::NothingToReapply),
            }
        } else {
            match self.name {
                Some(name) => Ok(SetPlan::Resolve { name }),
                None => Err(SetError::NoArgument),
            }
        }
    }
}

/// What a name turned out to stand for.
pub enum FetchImageResultData {
    /// An image, at a url or a path.
    Image(SavedImage),
    /// A collection, and the image drawn from it.
    Collection(Collection, SavedImage),
}

/// Why a name stands for no image.
#[derive(Debug)]
pub enum ResolveError {
    /// The name is neither a url, nor a path, nor a collection.
    Unresolved { name: String },
    /// The name is a collection, and no image could be drawn from it.
    Collection(CollectionError),
}

impl SetArgs {
    /// Settles what a name stands for, in this order: the image at the url
    /// or path, where there is one; else the collection of that name, from
    /// which an image is drawn at random; else nothing.
    pub fn fetch_image(
        name: &str,
        external: Result<SavedImage, ImageError>,
        collection: Option<Collection>,
    ) -> (found: Result<FetchImageResultData, ResolveError>)
        ensures
            match external {
                Ok(image) => found matches Ok(FetchImageResultData::Image(i)) && i == image,
                Err(_) => match collection {
                    Some(c) => {
                        let files = image_files(
                            c.directory().files(),
                            c.directory().files().len(),
                        );
                        if files.len() == 0 {
                            found matches Err(
                                ResolveError::Collection(CollectionError::CollectionEmpty),
                            )
                        } else {
                            found matches Ok(FetchImageResultData::Collection(from, drawn)) && from
                                == c && exists|k: int|
                                0 <= k < files.len() && is_image_of(drawn, #[trigger] files[k])
                        }
                    },
                    None => found matches Err(ResolveError::Unresolved { name: n }) && n@ == name@,
                },
            },
    {
        if let Ok(image) = external {
            return Ok(FetchImageResultData::Image(image));
        }
        if let Some(collection) = collection {
            return match collection.get_directory().get_random_image() {
                Ok(image) => Ok(FetchImageResultData::Collection(collection, image)),
                Err(error) => Err(ResolveError::Collection(error)),
            };
        }
        Err(ResolveError::Unresolved { name: name.to_owned() })
    }
}

/// The arguments of `collections create`.
pub struct CreateCollectionArgs {
    /// Whether to keep the collection in a git repository.
    pub git: bool,
    pub name: String,
}

/// The arguments of `collections delete`.
pub struct DeleteArgs {
    /// Whether to delete without asking.
    pub force: bool,
    pub name: String,
}

impl DeleteArgs {
    /// Whether the collection is to be deleted, given the answer to the
    /// question: yes where no question is asked, or the answer starts with
    /// `y`.
    pub fn confirmed(&self, answer: &str) -> (yes: bool)
        ensures
            yes == (self.force || (answer@.len() > 0 && answer@[0] == 'y')),
    {
        if self.force {
            return true;
        }
        let chars = chars_of(answer);
        chars.len() > 0 && chars[0] == 'y'
    }
}

/// The arguments of `collections from`.
pub struct FromArgs {
    /// The name of the collection, if not that of the repository.
    pub output_name: Option<String>,
    /// The url of the repository.
    pub url: String,
}

/// A repository to clone into a collection.
pub struct CloneRequest {
    pub url: String,
    pub name: String,
}

/// Why a collection cannot be made from a url.
#[derive(Debug)]
pub enum FromError {
    /// The url has no extension: it names no repository.
    NoExtension,
    /// The url does not end in `.git`.
    NotARepository,
}

/// Whether an extension is `git`, in any case of its letters.
pub open spec fn is_git_extension(extension: Seq<char>) -> bool {
    &&& extension.len() == 3
    &&& (extension[0] == 'g' || extension[0] == 'G')
    &&& (extension[1] == 'i' || extension[1] == 'I')
    &&& (extension[2] == 't' || extension[2] == 'T')
}

impl FromArgs {
    /// What making a collection from a url comes to: the url has to end
    /// in `.git`; the collection gets the name that was given, or that of
    /// the repository.
    pub open spec fn is_request(self, request: Result<CloneRequest, FromError>) -> bool {
        match extension_of(self.url@) {
            None => request matches Err(FromError::NoExtension),
            Some(ext) => if is_git_extension(ext) {
                request matches Ok(clone) && clone.url@ == self.url@ && clone.name@
                    == match self.output_name {
                    Some(name) => name@,
                    None => file_stem_of(self.url@)->0,
                }
            } else {
                request matches Err(FromError::NotARepository)
            },
        }
    }

    /// Plans the making of a collection from a repository.
    pub fn run(self) -> (request: Result<CloneRequest, FromError>)
        ensures
            self.is_request(request),
    {
        let ext = match extension(self.url.as_str()) {
            Some(ext) => chars_of(ext),
            None => return Err(FromError::NoExtension),
        };
        let git = ext.len() == 3 && (ext[0] == 'g' || ext[0] == 'G') && (ext[1] == 'i' || ext[1]
            == 'I') && (ext[2] == 't' || ext[2] == 'T');
        if !git {
            return Err(FromError::NotARepository);
        }
        let name = match self.output_name {
            Some(name) => name,
            None => match file_stem(self.url.as_str()) {
                Some(stem) => String::from_str(stem),
                None => return Err(FromError::NoExtension),
            },
        };
        Ok(CloneRequest { url: self.url, name })
    }
}

/// The arguments of `collections list`.
pub struct ListArgs {}

/// The arguments of `collections save`.
pub struct SaveImageArgs {
    /// The collection to save to.
    pub collection: String,
    /// The path or url of an image; the current wallpaper if not set.
    pub which: Option<String>,
}

/// The arguments of `collections sync`.
pub struct SyncArgs {
    /// The name of the collection to sync.
    pub name: String,
}

/// What synchronizing a collection takes.
pub enum SyncPlan {
    /// Commit all that changed, under a message to ask for, then fetch and
    /// push.
    CommitAndSync,
    /// Ask for a remote, make the repository, then fetch and push.
    InitializeAndSync,
}

impl SyncArgs {
    /// Plans the synchronizing of a collection: one that has a repository
    /// commits to it first, one that has none gets one first.
    pub fn run(&self, has_repository: bool) -> (plan: SyncPlan)
        ensures
            has_repository ==> plan is CommitAndSync,
            !has_repository ==> plan is InitializeAndSync,
    {
        if has_repository {
            SyncPlan::CommitAndSync
        } else {
            SyncPlan::InitializeAndSync
        }
    }
}

/// The arguments of `collections use`.
pub struct UseArgs {
    /// The name of the collection to use.
    pub collection: String,
}

/// The commands on collections.
pub enum CollectionCommands {
    Create(CreateCollectionArgs),
    Delete(DeleteArgs),
    Save(SaveImageArgs),
    From(FromArgs),
    Sync(SyncArgs),
    List(ListArgs),
}

/// What a command on collections is to do.
pub enum CollectionTask {
    /// Make a collection, asking for a remote where it is to be kept in git.
    Create { name: String, git: bool },
    /// Delete a collection, asking first where it is not forced.
    Delete(DeleteArgs),
    /// Save an image to a collection.
    Save(SaveImageArgs),
    /// Clone a repository into a collection.
    Clone(CloneRequest),
    /// Synchronize a collection with its remote.
    Sync { name: String },
    /// List the collections.
    List,
}

impl CollectionCommands {
    /// What the command is to do. Only making a collection from a url can
    /// fail before anything is done.
    pub fn run(self) -> (task: Result<CollectionTask, FromError>)
        ensures
            match self {
                CollectionCommands::Create(args) => task matches Ok(
                    CollectionTask::Create { name, git },
                ) && name@ == args.name@ && git == args.git,
                CollectionCommands::Delete(args) => task matches Ok(CollectionTask::Delete(a))
                    && a == args,
                CollectionCommands::Save(args) => task matches Ok(CollectionTask::Save(a)) && a
                    == args,
                CollectionCommands::From(args) => match task {
                    Ok(CollectionTask::Clone(request)) => args.is_request(Ok(request)),
                    Ok(_) => false,
                    Err(error) => args.is_request(Err(error)),
                },
                CollectionCommands::Sync(args) => task matches Ok(CollectionTask::Sync { name })
                    && name@ == args.name@,
                CollectionCommands::List(_) => task matches Ok(CollectionTask::List),
            },
    {
        match self {
            CollectionCommands::Create(args) => Ok(
                CollectionTask::Create { name: args.name, git: args.git },
            ),
            CollectionCommands::Delete(args) => Ok(CollectionTask::Delete(args)),
            CollectionCommands::Save(args) => Ok(CollectionTask::Save(args)),
            CollectionCommands::From(args) => match args.run() {
                Ok(request) => Ok(CollectionTask::Clone(request)),
                Err(error) => Err(error),
            },
            CollectionCommands::Sync(args) => Ok(CollectionTask::Sync { name: args.name }),
            CollectionCommands::List(_) => Ok(CollectionTask::List),
        }
    }
}

} // verus!
