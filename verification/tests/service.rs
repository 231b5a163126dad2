use media_upload::cfg::{assemble_server_config, parse_config, ConfigError, ConfigKey, ServerConfig};
use media_upload::handler::{
    choose_metadata_kind, file_outcome, strip_failure_message, stripping_for, unsupported_type_message, MetadataKind,
    UploadSession,
};
use media_upload::io::{get_filename_extension, IoError};
use media_upload::metadata::{Image, MetaData, Noop, Stripping, VideoFile};
use media_upload::server::{copy_to_public_path, plan_stored_upload, plan_stored_upload_at, published_links};
use media_upload::validation::validator;

fn config() -> ServerConfig {
    ServerConfig {
        path: "/srv/media".to_string(),
        token: "s3cret".to_string(),
        url: "https://media.example.org/".to_string(),
        port: 3000,
        ip: "0.0.0.0".to_string(),
    }
}

#[test]
fn config_assembly() {
    let c = assemble_server_config(
        Some("/srv/media".to_string()),
        Some("s3cret".to_string()),
        Some("https://media.example.org/".to_string()),
        Some(3000),
        Some("0.0.0.0".to_string()),
    );
    assert!(c == Ok(config()));
    let missing = assemble_server_config(Some("p".to_string()), None, None, Some(1), None);
    assert!(missing == Err(ConfigError::Unreadable(ConfigKey::Token)));
    let no_port = assemble_server_config(
        Some("p".to_string()),
        Some("t".to_string()),
        Some("u".to_string()),
        None,
        Some("i".to_string()),
    );
    assert!(no_port == Err(ConfigError::Unreadable(ConfigKey::Port)));
}

#[test]
fn config_from_a_loaded_configuration() {
    let loaded = config::Config::builder()
        .set_override("path", "/srv/media").unwrap()
        .set_override("token", "s3cret").unwrap()
        .set_override("url", "https://media.example.org/").unwrap()
        .set_override("port", 3000).unwrap()
        .set_override("ip", "0.0.0.0").unwrap()
        .build()
        .unwrap();
    assert!(parse_config(&loaded) == Ok(config()));
    assert!(parse_config(&loaded) == parse_config(&loaded));
    let partial = config::Config::builder().set_override("path", "/srv").unwrap().build().unwrap();
    assert!(parse_config(&partial) == Err(ConfigError::Unreadable(ConfigKey::Token)));
    let bad_port = config::Config::builder()
        .set_override("path", "/srv").unwrap()
        .set_override("token", "t").unwrap()
        .set_override("url", "u").unwrap()
        .set_override("port", 70000).unwrap()
        .set_override("ip", "i").unwrap()
        .build()
        .unwrap();
    assert!(parse_config(&bad_port) == Err(ConfigError::Unreadable(ConfigKey::Port)));
}

#[test]
fn token_check() {
    let c = config();
    assert!(validator("s3cret", &c.token));
    assert!(!validator("s3cret ", &c.token));
    assert!(!validator("", &c.token));
}

#[test]
fn metadata_kinds() {
    assert_eq!(choose_metadata_kind(Some("image/jpeg")), Some(MetadataKind::Image));
    assert_eq!(choose_metadata_kind(Some("video/mp4")), Some(MetadataKind::Video));
    assert_eq!(choose_metadata_kind(Some("application/pdf")), Some(MetadataKind::Noop));
    assert_eq!(choose_metadata_kind(Some("video/x-image")), Some(MetadataKind::Image));
    assert_eq!(choose_metadata_kind(None), None);
}

#[test]
fn stripping_by_kind() {
    assert!(matches!(Image { path: "/tmp/a" }.remove_metadata(), Stripping::StripExif(ref p) if p == "/tmp/a"));
    assert!(matches!(VideoFile { path: "/tmp/v" }.remove_metadata(), Stripping::StripExif(ref p) if p == "/tmp/v"));
    assert!(matches!(Noop { path: "/tmp/n" }.remove_metadata(), Stripping::Keep(ref p) if p == "/tmp/n"));
    assert!(matches!(stripping_for(MetadataKind::Noop, "/tmp/n"), Stripping::Keep(_)));
    assert!(matches!(stripping_for(MetadataKind::Video, "/tmp/n"), Stripping::StripExif(_)));
}

#[test]
fn outcome_of_one_upload() {
    assert_eq!(
        file_outcome(None, None, "x.bin"),
        Err("Sorry, I cannot handle this sort of file x.bin".to_string())
    );
    assert_eq!(
        file_outcome(Some(MetadataKind::Image), None, "cat.jpg"),
        Err("Something went wrong while stripping the metadata of cat.jpg".to_string())
    );
    assert_eq!(
        file_outcome(Some(MetadataKind::Noop), Some("/tmp/1_0.pdf"), "doc.pdf"),
        Ok("/tmp/1_0.pdf".to_string())
    );
}

#[test]
fn error_replies() {
    assert_eq!(strip_failure_message("cat.jpg"), "Something went wrong while stripping the metadata of cat.jpg");
    assert_eq!(unsupported_type_message("x.bin"), "Sorry, I cannot handle this sort of file x.bin");
}

#[test]
fn upload_session_flow() {
    let mut session = UploadSession::new(config());
    let plan = session.begin_file_at(Some("holiday/IMG_1.JPG"), Some(1700000000)).unwrap();
    assert_eq!(plan.public_filename, "1700000000_0.JPG");
    assert_eq!(plan.temp_path, "/tmp/1700000000_0.JPG");
    assert_eq!(plan.public_path, "/srv/media/1700000000_0.JPG");
    assert_eq!(get_filename_extension(&plan.public_filename), Some("JPG".to_string()));
    assert_eq!(session.begin_file_at(None, Some(1)).err(), Some(IoError::CouldNotExtractFilename));
    assert_eq!(session.begin_file_at(Some("noext"), Some(1)).err(), Some(IoError::CouldNotGetFileNameExtension));
    assert_eq!(session.file_count(), 1);
    let plan2 = session.begin_file_at(Some("clip.mp4"), Some(1700000000)).unwrap();
    assert_eq!(plan2.public_filename, "1700000000_1.mp4");
    assert_ne!(plan.public_filename, plan2.public_filename);
    assert_eq!(
        session.links(),
        "https://media.example.org/1700000000_0.JPG\nhttps://media.example.org/1700000000_1.mp4\n"
    );
    let live = session.begin_file(Some("doc.pdf")).unwrap();
    assert!(live.public_filename.ends_with("_2.pdf"));
}

#[test]
fn empty_session_has_no_links() {
    assert_eq!(UploadSession::new(config()).links(), "");
}

#[test]
fn stored_uploads() {
    let u = plan_stored_upload_at("/srv/media", "a/b.png", 2, 99).unwrap();
    assert_eq!(u.public_filename, "99_2.png");
    assert_eq!(u.filepath, "/srv/media/99_2.png");
    assert!(plan_stored_upload_at("/srv/media", "README", 2, 99).is_none());
    assert_eq!(plan_stored_upload("/srv", "README", 0).err(), Some(IoError::CouldNotGetFileNameExtension));
    let live = plan_stored_upload("/srv", "x.gif", 0).unwrap();
    assert!(live.filepath.starts_with("/srv/") && live.filepath.ends_with("_0.gif"));
    assert_eq!(copy_to_public_path("/srv/media", "a.png"), "/srv/mediaa.png");
}

#[test]
fn links_are_normalised_urls() {
    let names = vec!["1_0.jpg".to_string(), "1_1 a.png".to_string()];
    assert_eq!(
        published_links("HTTPS://Media.Example.ORG/", &names),
        Some("https://media.example.org/1_0.jpg\nhttps://media.example.org/1_1%20a.png\n".to_string())
    );
    assert_eq!(published_links("not a url/", &names), None);
    assert_eq!(published_links("not a url/", &vec![]), Some(String::new()));
}
