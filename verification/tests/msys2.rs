use w2nix_runtime::msys2::{
    classify_path, looks_like_windows_drive, posix_to_windows, windows_to_posix, MsysPathType,
};

#[test]
fn classifies_windows_drive() {
    assert_eq!(classify_path("C:\\Windows"), MsysPathType::SimpleWindows);
}

#[test]
fn converts_windows_path_to_posix() {
    assert_eq!(windows_to_posix("C:\\msys64\\usr\\bin"), "/C/msys64/usr/bin");
}

#[test]
fn converts_posix_rooted_to_windows() {
    let root = "C:\\msys64";
    assert_eq!(posix_to_windows("/usr/bin", root), "C:\\msys64\\usr\\bin");
}

#[test]
fn classifies_every_kind() {
    assert_eq!(classify_path(""), MsysPathType::Empty);
    assert_eq!(classify_path("https://example.org/x"), MsysPathType::Url);
    assert_eq!(classify_path("HTTP://EXAMPLE.ORG"), MsysPathType::Url);
    assert_eq!(classify_path("File://host/x"), MsysPathType::Url);
    assert_eq!(classify_path("//server/share"), MsysPathType::Unc);
    assert_eq!(classify_path("/\\server/share"), MsysPathType::EscapedWindows);
    assert_eq!(classify_path("d:/data"), MsysPathType::SimpleWindows);
    assert_eq!(classify_path("a;C:\\b"), MsysPathType::WindowsPathList);
    assert_eq!(classify_path("/usr/bin:/bin"), MsysPathType::PosixPathList);
    assert_eq!(classify_path("/usr/bin"), MsysPathType::Rooted);
    assert_eq!(classify_path("\\foo/bar"), MsysPathType::EscapedPath);
    assert_eq!(classify_path("relative/path"), MsysPathType::Relative);
}

#[test]
fn classification_order_prefers_drive_over_list() {
    assert_eq!(classify_path("C:\\a;D:\\b"), MsysPathType::SimpleWindows);
    assert_eq!(windows_to_posix("C:\\a;D:\\b"), "/C/a;D:/b");
}

#[test]
fn drive_detection_edges() {
    assert!(looks_like_windows_drive("c:/"));
    assert!(looks_like_windows_drive("Z:\\x"));
    assert!(!looks_like_windows_drive("C:"));
    assert!(!looks_like_windows_drive("1:/x"));
    assert!(!looks_like_windows_drive("é:/x"));
    assert!(!looks_like_windows_drive("C;/x"));
}

#[test]
fn posix_list_converts_each_piece() {
    assert_eq!(
        posix_to_windows("/usr/bin:/bin", "C:\\msys64"),
        "C:\\msys64\\usr\\bin;C:\\msys64\\bin"
    );
    assert_eq!(posix_to_windows("a:b/c", "C:\\msys64"), "a;b/c");
    assert_eq!(posix_to_windows("/a::/b", "R"), "R\\a;;R\\b");
}

#[test]
fn windows_list_converts_each_piece() {
    assert_eq!(windows_to_posix("a;C:\\b"), "a:/C/b");
    assert_eq!(windows_to_posix("x\\y;;D:\\e\\f"), "x/y::/D/e/f");
}

#[test]
fn windows_to_posix_removes_backslashes() {
    assert_eq!(windows_to_posix("\\\\server\\share"), "//server/share");
    assert_eq!(windows_to_posix("//server\\share"), "//server/share");
    assert_eq!(windows_to_posix("dir\\file"), "dir/file");
    assert_eq!(windows_to_posix("ü\\x"), "ü/x");
    assert!(!windows_to_posix("a\\b;c:\\d\\e").contains('\\'));
}

#[test]
fn posix_to_windows_keeps_other_paths() {
    let root = "C:\\msys64";
    assert_eq!(posix_to_windows("", root), "");
    assert_eq!(posix_to_windows("https://x/y", root), "https://x/y");
    assert_eq!(posix_to_windows("//server/share", root), "//server/share");
    assert_eq!(posix_to_windows("C:\\x/y", root), "C:\\x/y");
    assert_eq!(posix_to_windows("a;C:\\b", root), "a;C:\\b");
    assert_eq!(posix_to_windows("relative/path", root), "relative/path");
}

#[test]
fn posix_to_windows_escaped_and_rooted() {
    assert_eq!(posix_to_windows("/\\server/share", "R"), "\\server\\share");
    assert_eq!(posix_to_windows("\\foo/bar", "R"), "\\foo\\bar");
    assert_eq!(posix_to_windows("/usr", "C:\\"), "C:\\usr");
    assert_eq!(posix_to_windows("/", "C:\\msys64"), "C:\\msys64\\");
    assert_eq!(posix_to_windows("/a/b", ""), "\\a\\b");
}

#[test]
fn empty_windows_path() {
    assert_eq!(windows_to_posix(""), "");
}
