use media_upload::io::{
    file_name, generate_public_filename, generate_public_filename_at, get_filename_extension,
    public_filename, unix_time_seconds, IoError,
};
use media_upload::text::{contains_str, joined_lines, u64_to_decimal};

#[test]
fn decimal_rendering() {
    assert_eq!(u64_to_decimal(0), "0");
    assert_eq!(u64_to_decimal(7), "7");
    assert_eq!(u64_to_decimal(10), "10");
    assert_eq!(u64_to_decimal(1725029869), "1725029869");
    assert_eq!(u64_to_decimal(u64::MAX), "18446744073709551615");
}

#[test]
fn substring_search() {
    assert!(contains_str("image/jpeg", "image"));
    assert!(contains_str("video/mp4", "video"));
    assert!(!contains_str("application/pdf", "image"));
    assert!(contains_str("abc", ""));
    assert!(!contains_str("ima", "image"));
    assert!(contains_str("xximage", "image"));
}

#[test]
fn joining_lines() {
    assert_eq!(joined_lines(&vec![]), "");
    assert_eq!(joined_lines(&vec!["a".to_string(), "b".to_string()]), "a\nb\n");
}

#[test]
fn file_names_follow_path_rules() {
    assert_eq!(file_name("a/b.txt"), Some("b.txt".to_string()));
    assert_eq!(file_name("b.txt"), Some("b.txt".to_string()));
    assert_eq!(file_name("a/b/"), Some("b".to_string()));
    assert_eq!(file_name("a/b/."), Some("b".to_string()));
    assert_eq!(file_name("a//b"), Some("b".to_string()));
    assert_eq!(file_name("a/.."), None);
    assert_eq!(file_name(".."), None);
    assert_eq!(file_name("."), None);
    assert_eq!(file_name("/"), None);
    assert_eq!(file_name(""), None);
    assert_eq!(file_name("/tmp/ünïcödé.jpg"), Some("ünïcödé.jpg".to_string()));
}

#[test]
fn extensions_follow_path_rules() {
    for p in ["photo.jpg", "a/b.tar.gz", ".bashrc", "noext", "a/b.", "...", "a/..", "dir.d/file", "x/.hidden.png", ""] {
        let expected = std::path::Path::new(p)
            .extension()
            .map(|e| e.to_str().unwrap().to_string());
        assert_eq!(get_filename_extension(p), expected, "path {:?}", p);
    }
    assert_eq!(get_filename_extension("a/b.tar.gz"), Some("gz".to_string()));
    assert_eq!(get_filename_extension(".bashrc"), None);
    assert_eq!(get_filename_extension("a/b."), Some("".to_string()));
}

#[test]
fn public_filename_format() {
    assert_eq!(public_filename(1725029869, 0, "jpg"), "1725029869_0.jpg");
    assert_eq!(public_filename(5, 12, ""), "5_12.");
}

#[test]
fn public_filename_errors() {
    assert_eq!(generate_public_filename_at(None, 0, Some(1)), Err(IoError::CouldNotExtractFilename));
    assert_eq!(
        generate_public_filename_at(Some("README"), 0, Some(1)),
        Err(IoError::CouldNotGetFileNameExtension)
    );
    assert_eq!(generate_public_filename_at(Some("a.png"), 3, None), Err(IoError::ClockBeforeEpoch));
    assert_eq!(generate_public_filename_at(Some("dir/a.png"), 3, Some(100)), Ok("100_3.png".to_string()));
    assert_eq!(generate_public_filename(None, 1), Err(IoError::CouldNotExtractFilename));
    assert_eq!(generate_public_filename(Some(".env"), 1), Err(IoError::CouldNotGetFileNameExtension));
}

#[test]
fn naming_error_messages() {
    assert_eq!(IoError::CouldNotExtractFilename.message(), "Could not extract Filename");
    assert_eq!(IoError::CouldNotGetFileNameExtension.message(), "Could not get filename extension");
    assert_eq!(
        IoError::ClockBeforeEpoch.message(),
        "The system clock reads a time before the Unix epoch"
    );
}

#[test]
fn public_filename_uses_the_clock() {
    let now = unix_time_seconds().expect("the clock reads after the epoch");
    assert!(now > 1_600_000_000);
    let name = generate_public_filename(Some("holiday.mov"), 4).unwrap();
    let (stamp, rest) = name.split_once('_').unwrap();
    assert_eq!(rest, "4.mov");
    let stamp: u64 = stamp.parse().unwrap();
    assert!(stamp >= now && stamp <= now + 60);
}

#[test]
fn public_filename_keeps_extension_example() {
    for f in ["a/b.tar.gz", "x.JPG", "weird..", "c/d.e/f.mp4"] {
        let ext = get_filename_extension(f);
        let name = generate_public_filename_at(Some(f), 9, Some(1234)).unwrap();
        assert_eq!(get_filename_extension(&name), ext);
    }
}

#[test]
fn public_filenames_differ_by_position() {
    let a = generate_public_filename_at(Some("a.jpg"), 1, Some(12)).unwrap();
    let b = generate_public_filename_at(Some("a.jpg"), 12, Some(1)).unwrap();
    let c = generate_public_filename_at(Some("a.jpg"), 2, Some(12)).unwrap();
    assert_ne!(a, b);
    assert_ne!(a, c);
}
