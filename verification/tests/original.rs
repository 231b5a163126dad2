use media_upload::exif_ffmpeg::convert_output_path;
use media_upload::exif_image::{ExifAction, ExifEvent};
use media_upload::server::{remove_metadata, MetadataJob};

#[test]
fn main_it_works() {
    let path = "/Users/findus/Downloads/exif.JPG";
    let (mut job, action) = MetadataJob::new(path);
    match action {
        ExifAction::CheckExists(p) => assert_eq!(p, path),
        _ => panic!("the first step checks that the file exists"),
    }
    let exists = std::path::Path::new(path).exists();
    let action = remove_metadata(&mut job, ExifEvent::Exists(exists));
    match action {
        ExifAction::Load(p) => assert_eq!(p, path),
        _ => panic!("the next step reads the file's metadata"),
    }
    if exists {
        // The metadata can be read: it is cleared and saved back in place.
        match remove_metadata(&mut job, ExifEvent::Loaded) {
            ExifAction::ClearAndSave(p) => assert_eq!(p, path),
            _ => panic!("the metadata is cleared and saved back"),
        }
    } else {
        // A missing file has no metadata to read: the job cannot go on.
        assert!(matches!(
            remove_metadata(&mut job, ExifEvent::LoadFailed("No such file".to_string())),
            ExifAction::Abort(_)
        ));
    }
}

#[test]
fn exif_ffmpeg_it_works() {
    let out = convert_output_path("/Users/findus/Videos/Zeitraffer.mp4");
    assert_eq!(out, Ok("/tmp/processed/Zeitraffer.mp4".to_string()));
}
