use media_upload::exif_ffmpeg::{
    convert_output_path, ffmpeg_arguments, ffmpeg_outcome, remove_video_metadata, ConvertError,
    VideoAction, VideoEvent, VideoJob, VideoPhase,
};
use media_upload::exif_image::{remove_img_metadata, start_img_metadata_removal, ExifAction, ExifError, ExifEvent};
use media_upload::server::{remove_metadata, MetadataJob};

#[test]
fn ffmpeg_arguments_strip_metadata() {
    let args = ffmpeg_arguments("/tmp/in.mp4", "/tmp/processed/in.mp4");
    assert_eq!(
        args,
        vec![
            "-y", "-i", "/tmp/in.mp4", "-map_metadata", "-1", "-c:v", "copy", "-c:a", "copy",
            "/tmp/processed/in.mp4"
        ]
    );
}

#[test]
fn ffmpeg_exit_codes() {
    assert_eq!(ffmpeg_outcome("o".to_string(), Some(0)), Ok("o".to_string()));
    assert_eq!(ffmpeg_outcome("o".to_string(), Some(1)), Err(ConvertError::NonZeroExit));
    assert_eq!(ffmpeg_outcome("o".to_string(), None), Err(ConvertError::NonZeroExit));
}

#[test]
fn conversion_error_messages() {
    assert_eq!(ConvertError::NonZeroExit.message(), "FFmpeg quit with a non zero exit code!");
    assert_eq!(ConvertError::FileCreationFailed.message(), "File Creation Failed Error");
    assert_eq!(ConvertError::Io("Permission denied (os error 13)".to_string()).message(), "Permission denied (os error 13)");
}

#[test]
fn convert_output_needs_a_file_name() {
    assert_eq!(convert_output_path("/"), Err(ConvertError::FileCreationFailed));
    assert_eq!(convert_output_path("clip.mov"), Ok("/tmp/processed/clip.mov".to_string()));
}

fn finish(a: VideoAction) -> Option<String> {
    match a {
        VideoAction::Finish(r) => r,
        _ => panic!("expected the job to finish"),
    }
}

#[test]
fn video_job_success() {
    let (mut job, first) = VideoJob::new("/tmp/1_0.mp4");
    assert!(matches!(first, VideoAction::CheckExists(ref p) if p == "/tmp/1_0.mp4"));
    assert!(job.accepts(&VideoEvent::Exists(true)));
    assert!(!job.accepts(&VideoEvent::DirectoryCreated));
    let a = remove_video_metadata(&mut job, VideoEvent::Exists(true));
    assert!(matches!(a, VideoAction::CreateDirectory(ref d) if d == "/tmp/processed/"));
    let a = remove_video_metadata(&mut job, VideoEvent::DirectoryCreated);
    match a {
        VideoAction::RunFfmpeg(args) => {
            assert_eq!(args[2], "/tmp/1_0.mp4");
            assert_eq!(args[9], "/tmp/processed/1_0.mp4");
        },
        _ => panic!("expected an ffmpeg run"),
    }
    let a = remove_video_metadata(&mut job, VideoEvent::FfmpegFinished(Some(0)));
    assert_eq!(finish(a), Some("/tmp/processed/1_0.mp4".to_string()));
    assert_eq!(job.phase(), VideoPhase::Finished);
    assert_eq!(job.failure(), &None);
    assert!(!job.accepts(&VideoEvent::Exists(true)));
}

#[test]
fn video_job_failures() {
    let (mut job, _) = VideoJob::new("/tmp/missing.mp4");
    assert_eq!(finish(remove_video_metadata(&mut job, VideoEvent::Exists(false))), None);
    assert_eq!(job.failure(), &None);

    let (mut job, _) = VideoJob::new("/");
    assert_eq!(finish(remove_video_metadata(&mut job, VideoEvent::Exists(true))), None);
    assert_eq!(job.failure(), &Some(ConvertError::FileCreationFailed));

    let (mut job, _) = VideoJob::new("a.mp4");
    remove_video_metadata(&mut job, VideoEvent::Exists(true));
    let denied = "Permission denied (os error 13)".to_string();
    assert_eq!(finish(remove_video_metadata(&mut job, VideoEvent::DirectoryFailed(denied.clone()))), None);
    assert_eq!(job.failure(), &Some(ConvertError::Io(denied)));

    let (mut job, _) = VideoJob::new("a.mp4");
    remove_video_metadata(&mut job, VideoEvent::Exists(true));
    remove_video_metadata(&mut job, VideoEvent::DirectoryCreated);
    let missing = "No such file or directory (os error 2)".to_string();
    assert!(job.accepts(&VideoEvent::FfmpegFailed(missing.clone())));
    assert_eq!(finish(remove_video_metadata(&mut job, VideoEvent::FfmpegFailed(missing.clone()))), None);
    assert_eq!(job.failure(), &Some(ConvertError::Io(missing)));

    let (mut job, _) = VideoJob::new("a.mp4");
    remove_video_metadata(&mut job, VideoEvent::Exists(true));
    remove_video_metadata(&mut job, VideoEvent::DirectoryCreated);
    assert_eq!(finish(remove_video_metadata(&mut job, VideoEvent::FfmpegFinished(Some(1)))), None);
    assert_eq!(job.failure(), &Some(ConvertError::NonZeroExit));

    let (mut job, _) = VideoJob::new("a.mp4");
    remove_video_metadata(&mut job, VideoEvent::Exists(true));
    remove_video_metadata(&mut job, VideoEvent::DirectoryCreated);
    assert_eq!(finish(remove_video_metadata(&mut job, VideoEvent::FfmpegFinished(None))), None);
    assert_eq!(job.failure(), &Some(ConvertError::NonZeroExit));
}

fn exif_finish(a: ExifAction) -> Result<String, ExifError> {
    match a {
        ExifAction::Finish(r) => r,
        _ => panic!("expected the job to finish"),
    }
}

#[test]
fn exif_error_messages() {
    assert_eq!(ExifError::ExifUnsupported.message(), "Exif is unsupported on this filetype");
    assert_eq!(ExifError::LoadFailed("unreadable".to_string()).message(), "unreadable");
    assert_eq!(ExifError::SaveFailed("read-only".to_string()).message(), "read-only");
}

#[test]
fn image_job_success() {
    let (mut job, first) = start_img_metadata_removal("/tmp/p.jpg");
    assert!(matches!(first, ExifAction::Load(ref p) if p == "/tmp/p.jpg"));
    assert!(matches!(remove_img_metadata(&mut job, ExifEvent::Loaded), ExifAction::CheckSupport));
    assert!(matches!(
        remove_img_metadata(&mut job, ExifEvent::SupportChecked(true)),
        ExifAction::ClearAndSave(ref p) if p == "/tmp/p.jpg"
    ));
    assert_eq!(exif_finish(remove_img_metadata(&mut job, ExifEvent::Saved)), Ok("/tmp/p.jpg".to_string()));
}

#[test]
fn image_job_errors() {
    let (mut job, _) = start_img_metadata_removal("x");
    assert_eq!(
        exif_finish(remove_img_metadata(&mut job, ExifEvent::LoadFailed("bad file".to_string()))),
        Err(ExifError::LoadFailed("bad file".to_string()))
    );

    let (mut job, _) = start_img_metadata_removal("x");
    remove_img_metadata(&mut job, ExifEvent::Loaded);
    assert!(!job.accepts(&ExifEvent::Saved));
    assert_eq!(
        exif_finish(remove_img_metadata(&mut job, ExifEvent::SupportChecked(false))),
        Err(ExifError::ExifUnsupported)
    );

    let (mut job, _) = start_img_metadata_removal("x");
    remove_img_metadata(&mut job, ExifEvent::Loaded);
    remove_img_metadata(&mut job, ExifEvent::SupportChecked(true));
    assert_eq!(
        exif_finish(remove_img_metadata(&mut job, ExifEvent::SaveFailed("read-only".to_string()))),
        Err(ExifError::SaveFailed("read-only".to_string()))
    );
}

#[test]
fn server_metadata_job() {
    let (mut job, _) = MetadataJob::new("/tmp/a.jpg");
    assert!(matches!(remove_metadata(&mut job, ExifEvent::Exists(false)), ExifAction::Load(ref p) if p == "/tmp/a.jpg"));
    assert!(matches!(remove_metadata(&mut job, ExifEvent::Loaded), ExifAction::ClearAndSave(_)));
    assert_eq!(exif_finish(remove_metadata(&mut job, ExifEvent::Saved)), Ok("/tmp/a.jpg".to_string()));

    let (mut job, _) = MetadataJob::new("/tmp/a.jpg");
    remove_metadata(&mut job, ExifEvent::Exists(true));
    assert!(matches!(
        remove_metadata(&mut job, ExifEvent::LoadFailed("unreadable".to_string())),
        ExifAction::Abort(ref t) if t == "unreadable"
    ));
    assert!(!job.accepts(&ExifEvent::Saved));

    let (mut job, _) = MetadataJob::new("/tmp/a.jpg");
    remove_metadata(&mut job, ExifEvent::Exists(true));
    remove_metadata(&mut job, ExifEvent::Loaded);
    assert_eq!(
        exif_finish(remove_metadata(&mut job, ExifEvent::SaveFailed("disk full".to_string()))),
        Err(ExifError::SaveFailed("disk full".to_string()))
    );
}
