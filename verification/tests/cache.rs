use image::ImageFormat;
use walltz::cache::{should_cull, CacheEntry, Elapsed, ImageCache, Removal, RETENTION_SECONDS};
use walltz::picture::{
    Fetch, FetchedImage, FetchedImageType, FileFacts, ImageError, ImageUrl, SavePlan,
};

const DAY: u64 = 24 * 60 * 60;

fn file(path: &str) -> CacheEntry {
    CacheEntry {
        path: path.to_string(),
        facts: FileFacts { is_file: true, absolute: Some(path.to_string()) },
        age: None,
    }
}

fn aged(path: &str, secs: u64, nanos: u32) -> CacheEntry {
    CacheEntry { age: Some(Elapsed { secs, nanos }), ..file(path) }
}

#[test]
fn find_answers_with_the_first_entry_of_the_stem() {
    let cache = ImageCache::open(
        "/cache",
        vec![file("/cache/other.png"), file("/cache/wanted.jpg"), file("/cache/wanted.png")],
    );
    let found = cache.find("wanted").ok().unwrap();
    assert_eq!(found.get_path(), "/cache/wanted.jpg");
    assert_eq!(found.get_format(), ImageFormat::Jpeg);
}

#[test]
fn find_compares_stems_exactly() {
    let cache = ImageCache::open("/cache", vec![file("/cache/Wanted.png"), file("/cache/wanted2.png")]);
    assert!(matches!(cache.find("wanted"), Err(ImageError::NotFound)));
    assert!(matches!(cache.find("Wanted.png"), Err(ImageError::NotFound)));
    assert!(cache.find("Wanted").is_ok());
    let empty = ImageCache::open("/cache", vec![]);
    assert!(matches!(empty.find("wanted"), Err(ImageError::NotFound)));
}

#[test]
fn find_stops_at_the_first_entry_even_if_it_is_no_image() {
    let mut directory = file("/cache/wanted.png");
    directory.facts.is_file = false;
    let cache = ImageCache::open("/cache", vec![directory, file("/cache/wanted.jpg")]);
    assert!(matches!(cache.find("wanted"), Err(ImageError::NotFound)));
    let cache = ImageCache::open("/cache", vec![file("/cache/wanted.txt"), file("/cache/wanted.jpg")]);
    assert!(matches!(cache.find("wanted"), Err(ImageError::InvalidFormat)));
}

#[test]
fn eviction_threshold_is_seven_days() {
    assert_eq!(RETENTION_SECONDS, 7 * DAY);
    assert!(should_cull(&aged("/cache/a.png", 7 * DAY + 1, 0)));
    assert!(should_cull(&aged("/cache/a.png", 8 * DAY, 0)));
    assert!(should_cull(&aged("/cache/a.png", 7 * DAY, 1)));
    assert!(!should_cull(&aged("/cache/a.png", 7 * DAY, 0)));
    assert!(!should_cull(&aged("/cache/a.png", 6 * DAY, 999_999_999)));
    assert!(!should_cull(&aged("/cache/a.png", 0, 0)));
}

#[test]
fn only_images_of_known_age_are_evicted() {
    assert!(!should_cull(&aged("/cache/notes.txt", 30 * DAY, 0)));
    assert!(!should_cull(&aged("/cache/noextension", 30 * DAY, 0)));
    assert!(!should_cull(&file("/cache/a.png")));
}

#[test]
fn cleanup_names_the_stale_entries_in_order() {
    let cache = ImageCache::open(
        "/cache",
        vec![
            aged("/cache/old.png", 8 * DAY, 0),
            aged("/cache/new.png", 6 * DAY, 0),
            aged("/cache/old.txt", 9 * DAY, 0),
            file("/cache/unknown.gif"),
            aged("/cache/older.JPG", 70 * DAY, 5),
        ],
    );
    assert_eq!(cache.cleanup_cache(), vec!["/cache/old.png".to_string(), "/cache/older.JPG".to_string()]);
    assert!(ImageCache::open("/cache", vec![]).cleanup_cache().is_empty());
}

#[test]
fn cleanup_collects_every_failure() {
    let removals = vec![
        Removal { path: "/cache/a.png".to_string(), failure: Some("permission denied".to_string()) },
        Removal { path: "/cache/b.png".to_string(), failure: None },
        Removal { path: "/cache/c.png".to_string(), failure: Some("busy".to_string()) },
    ];
    let errors = ImageCache::cleanup_failures(&removals);
    assert_eq!(errors.len(), 2);
    assert!(matches!(errors[0], ImageError::FsError(ref reason) if reason == "permission denied"));
    assert!(matches!(errors[1], ImageError::FsError(ref reason) if reason == "busy"));
    assert!(ImageCache::cleanup_failures(&vec![]).is_empty());
}

fn reference(stem: &str, url: &str, format: ImageFormat) -> ImageUrl {
    ImageUrl::new(stem, url, format).unwrap()
}

#[test]
fn cache_places_images_by_stem_and_extension() {
    let cache = ImageCache::open("/home/me/.cache/walltz", vec![]);
    assert_eq!(cache.place("42.png"), "/home/me/.cache/walltz/42.png");
    let image = FetchedImage::downloaded(
        reference("42", "http://x/y.jpg", ImageFormat::Jpeg),
        Ok(vec![1, 2, 3]),
    )
    .ok()
    .unwrap();
    match cache.cache(&image) {
        Ok(SavePlan::Write { path, bytes }) => {
            assert_eq!(path, "/home/me/.cache/walltz/42.jpg");
            assert_eq!(bytes, &vec![1, 2, 3]);
        }
        _ => panic!("the image should be written to the cache"),
    };
}

#[test]
fn second_resolution_is_served_from_the_cache() {
    let wanted = || reference("42", "http://x/y.png", ImageFormat::Png);
    let empty = ImageCache::open("/cache", vec![]);
    let first = match FetchedImage::fetch_from_url(wanted(), &empty) {
        Fetch::Download(reference) => {
            assert_eq!(reference.get_url(), "http://x/y.png");
            FetchedImage::downloaded(reference, Ok(vec![9, 8, 7])).ok().unwrap()
        }
        Fetch::Cached(_) => panic!("nothing is cached yet"),
    };
    let written = match empty.cache(&first) {
        Ok(SavePlan::Write { path, .. }) => path,
        _ => panic!("the image should be written to the cache"),
    };
    assert_eq!(written, "/cache/42.png");
    let filled = ImageCache::open("/cache", vec![file("/cache/7.gif"), file(&written)]);
    match FetchedImage::fetch_from_url(wanted(), &filled) {
        Fetch::Cached(image) => {
            assert_eq!(image.get_stem(), "42");
            assert_eq!(image.get_format(), ImageFormat::Png);
            match image.get_data() {
                FetchedImageType::Storage(saved) => assert_eq!(saved.get_path(), written),
                FetchedImageType::Memory(_) => panic!("the image should come from the cache"),
            }
        }
        Fetch::Download(_) => panic!("the image should not be downloaded again"),
    };
}

#[test]
fn cached_image_keeps_the_format_of_its_file() {
    let cache = ImageCache::open("/cache", vec![file("/cache/42.webp")]);
    match FetchedImage::fetch_from_url(reference("42", "http://x/y.png", ImageFormat::Png), &cache) {
        Fetch::Cached(image) => assert_eq!(image.get_format(), ImageFormat::WebP),
        Fetch::Download(_) => panic!("the image is cached"),
    };
}

#[test]
fn an_entry_that_cannot_be_loaded_does_not_count_as_cached() {
    let cache = ImageCache::open("/cache", vec![file("/cache/42.txt")]);
    assert!(matches!(
        FetchedImage::fetch_from_url(reference("42", "http://x/y.png", ImageFormat::Png), &cache),
        Fetch::Download(_)
    ));
}

#[test]
fn a_failed_download_is_a_fetch_error() {
    let result =
        FetchedImage::downloaded(reference("1", "http://x/1.png", ImageFormat::Png), Err("timeout".to_string()));
    assert!(matches!(result, Err(ImageError::FetchError(ref reason)) if reason == "timeout"));
}

#[test]
fn opening_sets_the_stale_entries_apart() {
    let cache = ImageCache::open(
        "/cache",
        vec![
            aged("/cache/old.png", 8 * DAY, 0),
            aged("/cache/fresh.png", 0, 5),
            aged("/cache/old.txt", 8 * DAY, 0),
        ],
    );
    assert_eq!(cache.cleanup_cache(), vec!["/cache/old.png".to_string()]);
    assert!(matches!(cache.find("old"), Err(ImageError::InvalidFormat)));
    assert_eq!(cache.find("fresh").ok().unwrap().get_path(), "/cache/fresh.png");
    let cache = ImageCache::open("/cache", vec![aged("/cache/old.png", 8 * DAY, 0)]);
    assert!(matches!(cache.find("old"), Err(ImageError::NotFound)));
    assert!(matches!(
        FetchedImage::fetch_from_url(reference("old", "http://x/old.png", ImageFormat::Png), &cache),
        Fetch::Download(_)
    ));
}

#[test]
fn caching_a_cached_image_writes_nothing() {
    let cache = ImageCache::open("/cache", vec![file("/cache/42.png")]);
    let image = match FetchedImage::fetch_from_url(
        reference("42", "http://x/y.png", ImageFormat::Png),
        &cache,
    ) {
        Fetch::Cached(image) => image,
        Fetch::Download(_) => panic!("the image is cached"),
    };
    assert!(matches!(cache.cache(&image), Ok(SavePlan::Keep { ref path }) if path == "/cache/42.png"));
    assert!(matches!(
        image.save("/elsewhere/42.png"),
        Ok(SavePlan::Copy { ref source, ref path })
            if source == "/cache/42.png" && path == "/elsewhere/42.png"
    ));
}

#[test]
fn references_need_a_stem_that_names_a_file() {
    assert!(ImageUrl::new("a/b", "http://x/y.png", ImageFormat::Png).is_none());
    assert!(ImageUrl::new("..", "http://x/y.png", ImageFormat::Png).is_none());
    assert!(ImageUrl::new("", "http://x/y.png", ImageFormat::Png).is_none());
    assert!(ImageUrl::new("a", "no url", ImageFormat::Png).is_none());
    let reference = ImageUrl::new("a", "http://x/y.png", ImageFormat::Gif).unwrap();
    assert_eq!(reference.get_stem(), "a");
    assert_eq!(reference.get_url(), "http://x/y.png");
    assert_eq!(reference.get_format(), ImageFormat::Gif);
}
