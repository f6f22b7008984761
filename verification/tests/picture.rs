use image::ImageFormat;
use walltz::format::{extension_for, format_of_path, path_matches_format};
use walltz::cache::{CacheEntry, ImageCache};
use walltz::picture::{
    ExternalImage, ExternalSource, Fetch, FetchedImage, FetchedImageType, FileFacts, ImageError,
    ImageUrl, SavePlan, SavedImage,
};
use walltz::web::{url_is_valid, url_is_web};

fn on_disk(absolute: &str) -> FileFacts {
    FileFacts { is_file: true, absolute: Some(absolute.to_string()) }
}

fn missing() -> FileFacts {
    FileFacts { is_file: false, absolute: None }
}

fn saved(path: &str) -> SavedImage {
    SavedImage::from_path(path, &on_disk(path)).ok().unwrap()
}

fn in_memory(stem: &str, format: ImageFormat, bytes: &[u8]) -> FetchedImage {
    let reference = ImageUrl::new(stem, "http://example.org/source", format).unwrap();
    FetchedImage::downloaded(reference, Ok(bytes.to_vec())).ok().unwrap()
}

#[test]
fn formats_follow_the_extension() {
    assert_eq!(format_of_path("a/b.png"), Some(ImageFormat::Png));
    assert_eq!(format_of_path("a/b.JPG"), Some(ImageFormat::Jpeg));
    assert_eq!(format_of_path("a/b.jpeg"), Some(ImageFormat::Jpeg));
    assert_eq!(format_of_path("a/b.tif"), Some(ImageFormat::Tiff));
    assert_eq!(format_of_path("a/b.txt"), None);
    assert_eq!(format_of_path("a/png"), None);
    assert_eq!(format_of_path("a.png/"), Some(ImageFormat::Png));
    assert_eq!(format_of_path(".png"), None);
}

#[test]
fn every_format_has_its_usual_extension() {
    assert_eq!(extension_for(ImageFormat::Png), "png");
    assert_eq!(extension_for(ImageFormat::Jpeg), "jpg");
    assert_eq!(extension_for(ImageFormat::Tiff), "tiff");
    assert_eq!(extension_for(ImageFormat::WebP), "webp");
}

#[test]
fn only_the_usual_extension_matches_a_format() {
    assert!(path_matches_format("out/a.jpg", ImageFormat::Jpeg));
    assert!(!path_matches_format("out/a.jpeg", ImageFormat::Jpeg));
    assert!(!path_matches_format("out/a.JPG", ImageFormat::Jpeg));
    assert!(!path_matches_format("out/a.png", ImageFormat::Jpeg));
    assert!(!path_matches_format("out/jpg", ImageFormat::Jpeg));
}

#[test]
fn saved_image_needs_a_file_named_as_an_image() {
    assert!(matches!(SavedImage::from_path("a.png", &missing()), Err(ImageError::NotFound)));
    assert!(matches!(
        SavedImage::from_path("a.txt", &on_disk("/x/a.txt")),
        Err(ImageError::InvalidFormat)
    ));
    assert!(matches!(SavedImage::from_path("a.txt", &missing()), Err(ImageError::NotFound)));
    let image = SavedImage::from_path("pics/a.b.gif", &on_disk("/home/pics/a.b.gif")).ok().unwrap();
    assert_eq!(image.get_path(), "pics/a.b.gif");
    assert_eq!(image.get_format(), ImageFormat::Gif);
    assert_eq!(image.get_name().ok().unwrap(), "a.b");
    assert_eq!(image.get_absolute_path_as_string().ok().unwrap(), "/home/pics/a.b.gif");
}

#[test]
fn absolute_path_that_cannot_be_resolved_is_a_file_system_error() {
    let image = SavedImage::from_path("a.png", &FileFacts { is_file: true, absolute: None })
        .ok()
        .unwrap();
    assert!(matches!(image.get_absolute_path_as_string(), Err(ImageError::FsError(_))));
}

#[test]
fn copies_keep_the_format() {
    let image = saved("pics/a.jpg");
    let plan = image.copy_to("other/b.jpeg").ok().unwrap();
    assert_eq!(plan.from, "pics/a.jpg");
    assert_eq!(plan.to, "other/b.jpeg");
    assert!(matches!(image.copy_to("other/b.png"), Err(ImageError::IncompatibleFormat)));
    assert!(matches!(image.copy_to("other/b"), Err(ImageError::InvalidFormat)));
}

#[test]
fn save_writes_the_source_bytes_unchanged() {
    let image = in_memory("42", ImageFormat::Png, &[137, 80, 78, 71, 0, 255]);
    match image.save("out/wall.png") {
        Ok(SavePlan::Write { path, bytes }) => {
            assert_eq!(path, "out/wall.png");
            assert_eq!(bytes, &vec![137, 80, 78, 71, 0, 255]);
        }
        _ => panic!("the bytes should be written as they are"),
    };
}

#[test]
fn save_refuses_another_extension() {
    let image = in_memory("42", ImageFormat::Png, &[1]);
    assert!(matches!(image.save("out/wall.jpg"), Err(ImageError::IncompatibleFormat)));
    assert!(matches!(image.save("out/wall"), Err(ImageError::IncompatibleFormat)));
    assert!(matches!(image.save("out/wall.PNG"), Err(ImageError::IncompatibleFormat)));
}

#[test]
fn save_of_a_cached_image_copies_its_file() {
    let cache = ImageCache::open(
        "/cache",
        vec![CacheEntry { path: "/cache/42.png".to_string(), facts: on_disk("/cache/42.png"), age: None }],
    );
    let reference = ImageUrl::new("42", "http://example.org/source", ImageFormat::Png).unwrap();
    let image = match FetchedImage::fetch_from_url(reference, &cache) {
        Fetch::Cached(image) => image,
        Fetch::Download(_) => panic!("the image is cached"),
    };
    assert!(matches!(image.get_data(), FetchedImageType::Storage(_)));
    match image.save("out/wall.png") {
        Ok(SavePlan::Copy { source, path }) => {
            assert_eq!(source, "/cache/42.png");
            assert_eq!(path, "out/wall.png");
        }
        _ => panic!("the file should be copied"),
    };
}

#[test]
fn save_to_format_keeps_the_own_format_as_it_is() {
    let image = in_memory("42", ImageFormat::Png, &[5, 6]);
    match image.save_to_format("out/wall.png") {
        Ok(SavePlan::Write { path, bytes }) => {
            assert_eq!(path, "out/wall.png");
            assert_eq!(bytes, &vec![5, 6]);
        }
        _ => panic!("the bytes should be written as they are"),
    };
}

#[test]
fn save_to_format_transcodes_to_the_target_format() {
    let image = in_memory("42", ImageFormat::Png, &[5, 6]);
    match image.save_to_format("out/wall.jpg") {
        Ok(SavePlan::Transcode { path, from, to }) => {
            assert_eq!(path, "out/wall.jpg");
            assert_eq!(from, ImageFormat::Png);
            assert_eq!(to, ImageFormat::Jpeg);
        }
        _ => panic!("the image should be re-encoded"),
    };
    assert!(matches!(image.save_to_format("out/wall.txt"), Err(ImageError::InvalidFormat)));
    assert!(matches!(image.save_to_format("out/wall"), Err(ImageError::InvalidFormat)));
}

#[test]
fn file_name_is_stem_and_usual_extension() {
    let image = in_memory("sunset", ImageFormat::Jpeg, &[]);
    assert_eq!(image.get_file_extension(), "jpg");
    assert_eq!(image.get_file_name(), "sunset.jpg");
}

#[test]
fn image_url_takes_stem_and_format_from_the_url() {
    let reference = ImageUrl::from_str("https://example.org/walls/forest.webp").ok().unwrap();
    assert_eq!(reference.get_stem(), "forest.webp");
    assert_eq!(reference.get_url(), "https://example.org/walls/forest.webp");
    assert_eq!(reference.get_format(), ImageFormat::WebP);
}

#[test]
fn image_url_errors_are_told_apart() {
    assert!(matches!(ImageUrl::from_str(""), Err(ImageError::InvalidUrl)));
    assert!(matches!(ImageUrl::from_str("https://example.org/.."), Err(ImageError::InvalidUrl)));
    assert!(matches!(
        ImageUrl::from_str("https://example.org/forest"),
        Err(ImageError::InvalidFormat)
    ));
    assert!(matches!(ImageUrl::from_str("walls/forest.png"), Err(ImageError::InvalidUrl)));
    assert!(matches!(
        ImageUrl::from_str("https://example.org/a%5Cb/c\\d.png"),
        Err(ImageError::InvalidUrl)
    ));
}

#[test]
fn urls_are_judged_by_the_url_crate() {
    assert!(url_is_valid("http://x/y.png"));
    assert!(url_is_valid("ftp://x/y.png"));
    assert!(!url_is_valid("x/y.png"));
    assert!(url_is_web("http://x/y.png"));
    assert!(url_is_web("HTTPS://x/y.png"));
    assert!(!url_is_web("ftp://x/y.png"));
    assert!(!url_is_web("/x/y.png"));
}

#[test]
fn external_image_at_a_url_is_remote() {
    let image = ExternalImage::new("https://example.org/a.png");
    match image.load(&missing()) {
        Ok(ExternalSource::Remote(reference)) => {
            assert_eq!(reference.get_stem(), "a.png");
            assert_eq!(reference.get_format(), ImageFormat::Png);
        }
        _ => panic!("a url is remote"),
    };
    let image = ExternalImage::new("https://example.org/a");
    assert!(matches!(image.load(&missing()), Err(ImageError::InvalidFormat)));
}

#[test]
fn external_image_at_a_path_is_local() {
    let image = ExternalImage::new("pics/a.png");
    match image.load(&on_disk("/home/pics/a.png")) {
        Ok(ExternalSource::Local(saved)) => assert_eq!(saved.get_path(), "pics/a.png"),
        _ => panic!("a file is local"),
    };
    assert!(matches!(image.load(&missing()), Err(ImageError::InvalidExternal)));
    let image = ExternalImage::new("pics/a.txt");
    assert!(matches!(image.load(&on_disk("/home/pics/a.txt")), Err(ImageError::InvalidFormat)));
    let image = ExternalImage::new("ftp://example.org/a.png");
    assert!(matches!(image.load(&missing()), Err(ImageError::InvalidExternal)));
}

#[test]
fn image_errors_have_messages() {
    assert_eq!(ImageError::NotFound.message(), "The image doesn't exist");
    assert_eq!(
        ImageError::FsError("disk full".to_string()).message(),
        "An internal file system error occured: disk full"
    );
    assert_eq!(ImageError::InvalidUrl.message(), "The supplied url is invalid");
}
