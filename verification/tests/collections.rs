use walltz::collections::{
    is_remote_url, Collection, CollectionDirectory, CollectionError, CollectionPath, ListedFile,
    PlaceFacts, RepositoryOpening, RepositoryStep,
};
use walltz::picture::{FileFacts, ImageError, SavedImage};

fn place(storage_exists: bool, storage_is_dir: bool, collection_is_dir: bool) -> PlaceFacts {
    PlaceFacts { storage_exists, storage_is_dir, collection_is_dir }
}

fn file(path: &str) -> ListedFile {
    ListedFile {
        path: path.to_string(),
        facts: FileFacts { is_file: true, absolute: Some(path.to_string()) },
    }
}

fn directory(files: Vec<ListedFile>) -> CollectionDirectory {
    let path = CollectionPath::from_name("/data", "nature", &place(true, true, true)).ok().unwrap();
    CollectionDirectory::opened(path, RepositoryOpening::NotFound, files).ok().unwrap()
}

#[test]
fn collections_lie_in_the_storage_directory() {
    assert_eq!(CollectionPath::get_storage_directory("/data"), "/data/collections");
    let path = CollectionPath::from_name("/data", "nature", &place(true, true, false)).ok().unwrap();
    assert_eq!(path.as_ref(), "/data/collections/nature");
    assert!(!path.exists_on_disk());
    assert!(path.create_directory());
    assert!(!path.create_storage());
    let path = CollectionPath::from_name("/data", "nature", &place(false, false, false)).ok().unwrap();
    assert!(path.create_storage());
    let path = CollectionPath::from_name("/data", "nature", &place(true, true, true)).ok().unwrap();
    assert!(path.exists_on_disk());
    assert!(!path.create_directory());
}

#[test]
fn storage_that_is_no_directory_is_an_error() {
    assert!(matches!(
        CollectionPath::from_name("/data", "nature", &place(true, false, false)),
        Err(CollectionError::NoStorageLocation)
    ));
}

#[test]
fn image_path_is_name_and_usual_extension() {
    let path = CollectionPath::from_name("/data", "nature", &place(true, true, true)).ok().unwrap();
    let facts = FileFacts { is_file: true, absolute: Some("/cache/42.jpeg".to_string()) };
    let image = SavedImage::from_path("/cache/42.jpeg", &facts).ok().unwrap();
    assert_eq!(path.get_image_path(&image).ok().unwrap(), "/data/collections/nature/42.jpg");
}

#[test]
fn names_may_not_hold_spaces_or_upper_case() {
    assert!(CollectionDirectory::is_collection_name_valid("nature").is_ok());
    assert!(CollectionDirectory::is_collection_name_valid("nature_2-b").is_ok());
    assert_eq!(
        CollectionDirectory::is_collection_name_valid("my walls"),
        Err("Name cannot contain spaces")
    );
    assert_eq!(CollectionDirectory::is_collection_name_valid("Nature"), Err("Name must be lowercase"));
    assert_eq!(CollectionDirectory::is_collection_name_valid("ÄRGER"), Err("Name must be lowercase"));
    assert_eq!(
        CollectionDirectory::is_collection_name_valid("My Walls"),
        Err("Name cannot contain spaces")
    );
    assert!(matches!(
        CollectionDirectory::check_name("My"),
        Err(CollectionError::InvalidName(ref reason)) if reason == "Name must be lowercase"
    ));
    assert!(CollectionDirectory::check_name("my").is_ok());
}

#[test]
fn create_makes_directory_and_repository() {
    let setup =
        Collection::create("/data", "nature", Some("git@h:a/b.git"), &place(false, false, false))
            .ok()
            .unwrap();
    assert_eq!(setup.path.as_ref(), "/data/collections/nature");
    assert!(setup.make_storage && setup.make_directory);
    assert!(matches!(
        setup.repository,
        RepositoryStep::Initialize { ref remote_url } if remote_url == "git@h:a/b.git"
    ));
    let setup = Collection::create("/data", "nature", None, &place(true, true, true)).ok().unwrap();
    assert!(!setup.make_storage && !setup.make_directory);
    assert!(matches!(setup.repository, RepositoryStep::Nothing));
    assert!(matches!(
        Collection::create("/data", "Na ture", None, &place(true, true, true)),
        Err(CollectionError::InvalidName(_))
    ));
}

#[test]
fn open_and_clone_plan_their_steps() {
    let setup = Collection::open("/data", "nature", &place(true, true, false)).ok().unwrap();
    assert!(setup.make_directory);
    assert!(matches!(setup.repository, RepositoryStep::Open));
    assert!(matches!(
        Collection::open("/data", "nature", &place(true, false, false)),
        Err(CollectionError::NoStorageLocation)
    ));
    let setup =
        Collection::clone("/data", "https://h/a.git", "nature", &place(true, true, false))
            .ok()
            .unwrap();
    assert!(!setup.make_directory);
    assert!(matches!(
        setup.repository,
        RepositoryStep::Clone { ref remote_url } if remote_url == "https://h/a.git"
    ));
    assert!(matches!(
        Collection::clone("/data", "https://h/a.git", "nature", &place(true, true, true)),
        Err(CollectionError::CollectionAlreadyExists)
    ));
    assert!(matches!(
        Collection::clone("/data", "https://h/a.git", "NATURE", &place(true, true, true)),
        Err(CollectionError::InvalidName(_))
    ));
}

#[test]
fn a_missing_repository_is_no_error() {
    let path = || CollectionPath::from_name("/data", "n", &place(true, true, true)).ok().unwrap();
    assert!(CollectionDirectory::opened(path(), RepositoryOpening::Opened, vec![])
        .ok()
        .unwrap()
        .get_repository());
    assert!(!CollectionDirectory::opened(path(), RepositoryOpening::NotFound, vec![])
        .ok()
        .unwrap()
        .get_repository());
    assert!(matches!(
        CollectionDirectory::opened(path(), RepositoryOpening::Failed("corrupt".to_string()), vec![]),
        Err(CollectionError::GitError(ref reason)) if reason == "corrupt"
    ));
}

#[test]
fn images_are_the_files_named_as_images() {
    let mut folder = file("/c/sub.png");
    folder.facts.is_file = false;
    let images = directory(vec![file("/c/a.png"), file("/c/notes.txt"), folder, file("/c/b.JPEG")])
        .get_images();
    let paths: Vec<&str> = images.iter().map(|i| i.get_path()).collect();
    assert_eq!(paths, vec!["/c/a.png", "/c/b.JPEG"]);
}

#[test]
fn random_image_is_one_of_the_collection() {
    let collection = directory(vec![file("/c/a.png"), file("/c/notes.txt"), file("/c/b.gif")]);
    for _ in 0..20 {
        let image = collection.get_random_image().ok().unwrap();
        assert!(image.get_path() == "/c/a.png" || image.get_path() == "/c/b.gif");
    }
    assert!(matches!(
        directory(vec![file("/c/notes.txt")]).get_random_image(),
        Err(CollectionError::CollectionEmpty)
    ));
    assert!(matches!(directory(vec![]).get_random_image(), Err(CollectionError::CollectionEmpty)));
}

#[test]
fn image_is_found_by_its_name() {
    let collection = directory(vec![file("/c/a.txt"), file("/c/b.png"), file("/c/a.gif"), file("/c/a.png")]);
    assert_eq!(collection.find_image("a").ok().unwrap().get_path(), "/c/a.gif");
    assert_eq!(collection.find_image("b").ok().unwrap().get_path(), "/c/b.png");
    assert!(matches!(collection.find_image("c"), Err(CollectionError::ImageNotFound)));
    assert!(matches!(collection.find_image("A"), Err(CollectionError::ImageNotFound)));
}

#[test]
fn adding_an_image_copies_it_into_the_collection() {
    let facts = FileFacts { is_file: true, absolute: Some("/cache/42.png".to_string()) };
    let image = SavedImage::from_path("/cache/42.png", &facts).ok().unwrap();
    let plan = directory(vec![]).add_image(&image).ok().unwrap();
    assert_eq!(plan.from, "/cache/42.png");
    assert_eq!(plan.to, "/data/collections/nature/42.png");
    let facts = FileFacts { is_file: true, absolute: None };
    let image = SavedImage::from_path("/cache/a/b.tif", &facts).ok().unwrap();
    let plan = directory(vec![]).add_image(&image).ok().unwrap();
    assert_eq!(plan.to, "/data/collections/nature/b.tiff");
    let _: Result<(), ImageError> = Ok(());
}

#[test]
fn collection_keeps_name_and_directory() {
    let collection = Collection::new("nature", directory(vec![file("/c/a.png")]));
    assert_eq!(collection.get_name(), "nature");
    assert!(!collection.get_repository());
    assert_eq!(collection.get_directory().get_images().len(), 1);
    assert_eq!(collection.get_directory().get_path().as_ref(), "/data/collections/nature");
    assert_eq!(collection.delete(), "/data/collections/nature");
}

#[test]
fn remote_urls_are_matched_by_the_pattern() {
    assert_eq!(is_remote_url("git@github.com:someone/walls.git"), Some(true));
    assert_eq!(is_remote_url("https://github.com/someone/walls.git"), Some(true));
    assert_eq!(is_remote_url("ssh://host/walls.git/"), Some(true));
    assert_eq!(is_remote_url("https://github.com/someone/walls"), Some(false));
    assert_eq!(is_remote_url("walls"), Some(false));
    assert_eq!(is_remote_url(""), Some(false));
}
