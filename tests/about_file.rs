use about_file::{
    classify, file_type_checked, is_image_name, listed, AboutFile, ArchType, DocType, ExecType,
    FileType, ImgType, PropType,
};

#[test]
fn valid_image() {
    let name = "should_be_valid.jpg";
    assert!(name.is_valid_image())
}

#[test]
fn invalid_image() {
    let name = "  not$allowed";
    assert!(!name.is_valid_image())
}

#[test]
fn extension() {
    assert_eq!("test.tst".get_extension().unwrap(), "tst")
}

#[test]
fn custom_extensions() {
    let fname = "myfile.custom";
    assert!(fname.is_valid_file_with_ext(&["custom", "cust"]))
}

#[test]
fn default_invalid_chars_each_flagged() {
    for c in "!@#$%^&*{}/\\,<>?:;'|=+`".chars() {
        let s = format!("name{}x", c);
        assert!(s.as_str().has_invalid_chars(None), "{}", s);
    }
    assert!(!"plain_name-1 (copy).txt".has_invalid_chars(None));
    assert!(!"caf\u{e9}~.txt".has_invalid_chars(None));
}

#[test]
fn custom_chars_replace_default() {
    assert!(!"a$b".has_invalid_chars(Some(&['~'])));
    assert!("a~b".has_invalid_chars(Some(&['~'])));
    assert!("\u{e9}t\u{e9}".has_invalid_chars(Some(&['\u{e9}'])));
    assert!(!"a$b".has_invalid_chars(Some(&[])));
}

#[test]
fn no_extension_without_dot() {
    assert_eq!("noext".get_extension(), None);
    assert_eq!("noext".get_name(), "noext");
    assert!(!"noext".has_some_extension());
}

#[test]
fn only_last_dot_counts() {
    assert_eq!("a.b.c".get_name(), "a.b");
    assert_eq!("a.b.c".get_extension(), Some("c"));
}

#[test]
fn extension_is_trimmed() {
    assert_eq!("file. txt ".get_extension(), Some("txt"));
    assert_eq!("file. txt ".get_name(), "file");
}

#[test]
fn invalid_tail_means_no_extension() {
    assert!(!"file.t$t".has_some_extension());
    assert_eq!("file.t$t".get_extension(), None);
    assert_eq!("file.t$t".get_name(), "file.t$t");
    assert!("weird!.txt".has_some_extension());
    assert_eq!("weird!.txt".get_extension(), Some("txt"));
}

#[test]
fn custom_extension_not_listed() {
    assert!(!"myfile.custom".is_valid_file_with_ext(&["png"]));
    assert!(!"my$file.custom".is_valid_file_with_ext(&["custom"]));
    assert!(!"myfile".is_valid_file_with_ext(&["myfile"]));
}

#[test]
fn valid_image_enabled() {
    assert!("should_be_valid.jpg".is_valid_image());
    assert!("SHOT.PNG".is_image());
    assert!(!"notes.txt".is_image());
}

#[test]
fn image_suffix_without_dot() {
    assert!("photojpg".is_image());
    assert!(is_image_name("photojpg"));
    assert!(!is_image_name("PHOTO.JPG"));
}

#[test]
fn leading_space_and_invalid_char_reject() {
    assert!(!"  not$allowed".is_valid_image());
    assert!(!" pic.png".is_valid_image());
    assert!(!"p$c.png".is_valid_image());
    assert!(!"  not$allowed".has_some_extension());
}

#[test]
fn replacement_char_rejects() {
    assert!("bad\u{FFFD}.txt".has_replacement_char());
    assert!(!"bad\u{FFFD}.txt".is_valid_filename());
    assert!("good.txt".is_valid_filename());
}

#[test]
fn queries_repeat() {
    let s = "Repeat.Me.JPG";
    assert_eq!(s.is_valid_filename(), s.is_valid_filename());
    assert_eq!(s.has_extension(&["jpg"]), s.has_extension(&["jpg"]));
    assert_eq!(s.get_extension(), s.get_extension());
    assert_eq!(s.get_name(), s.get_name());
    assert_eq!(s.is_image(), s.is_image());
    assert_eq!(file_type_checked(s), file_type_checked(s));
}

#[test]
fn extension_compared_lowercase() {
    assert!("file.JPG".has_extension(&["jpg"]));
    assert!(!"file.JPG".has_extension(&["JPG"]));
    assert!(!"file".has_extension(&["file"]));
}

#[test]
fn executable_case_sensitive() {
    assert!("setup.exe".is_executable());
    assert!(!"setup.EXE".is_executable());
    assert!("run.bat".is_valid_executable());
    assert!(!"r|n.bat".is_valid_executable());
    assert!(!"readme".is_executable());
}

#[test]
fn empty_name() {
    assert_eq!("".get_extension(), None);
    assert_eq!("".get_name(), "");
    assert!(!"".has_invalid_chars(None));
    assert!("".is_valid_filename());
}

#[test]
fn file_types() {
    assert_eq!("a.jpeg".file_type(), FileType::Image(ImgType::JPEG));
    assert_eq!("scan.tif".file_type(), FileType::Image(ImgType::TIFF));
    assert_eq!("x.mj2".file_type(), FileType::Image(ImgType::JPEG2000));
    assert_eq!("a.action".file_type(), FileType::Executable(ExecType::ACTION));
    assert_eq!("a.txt".file_type(), FileType::Unknown);
    assert_eq!("noext".file_type(), FileType::Unknown);
}

#[test]
fn file_type_checked_refuses_unresolvable() {
    assert_eq!(file_type_checked("photo.JPG"), None);
    assert_eq!(file_type_checked("photo.xpng"), None);
    assert_eq!(file_type_checked("photo.png"), Some(FileType::Image(ImgType::PNG)));
    assert_eq!(file_type_checked("tool.exe"), Some(FileType::Executable(ExecType::EXE)));
    assert_eq!(file_type_checked("jpg"), Some(FileType::Unknown));
}

#[test]
fn classify_from_lowercase() {
    assert_eq!(classify("photo.gif", "photo.gif"), FileType::Image(ImgType::GIF));
    assert_eq!(classify("tool.bat", "tool.bat"), FileType::Executable(ExecType::BAT));
    assert_eq!(classify("doc.txt", "doc.txt"), FileType::Unknown);
}

#[test]
fn subtype_resolution() {
    assert_eq!(ImgType::get("svgz"), ImgType::SVG);
    assert_eq!(ImgType::get("psd"), ImgType::PSD);
    assert_eq!(ImgType::parse("JPG"), None);
    assert_eq!(ExecType::get("bat"), ExecType::BAT);
    assert_eq!(PropType::get("indt"), PropType::INDD);
    assert_eq!(PropType::get("ai"), PropType::AI);
    assert_eq!(PropType::parse("doc"), None);
    assert_eq!(ExecType::EXE.label(), "EXE - Windows Executable");
    assert_ne!(FileType::Document(DocType::Unresolved), FileType::Archive(ArchType::Unresolved));
}

#[test]
fn listed_exact() {
    assert!(listed("jpg", &["png", "jpg"]));
    assert!(!listed("jp", &["png", "jpg"]));
    assert!(!listed("jpg", &[]));
}
