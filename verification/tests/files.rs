use tauri_plugin_clipboard::{
    check_file_uris, paths_from_uris, starts_with_file_scheme, strip_file_scheme, uris_from_paths,
    AvailableTypes, Platform,
};

fn strings(items: &[&str]) -> Vec<String> {
    items.iter().map(|item| item.to_string()).collect()
}

#[test]
fn scheme_is_found_only_at_the_start() {
    assert!(starts_with_file_scheme("file:///home/user/a.txt"));
    assert!(starts_with_file_scheme("file://"));
    assert!(!starts_with_file_scheme("file:/"));
    assert!(!starts_with_file_scheme(""));
    assert!(!starts_with_file_scheme("/home/file://a"));
    assert!(!starts_with_file_scheme("File:///home/user/a.txt"));
    assert!(!starts_with_file_scheme("filé://x"));
}

#[test]
fn scheme_is_taken_off_once() {
    assert_eq!(strip_file_scheme("file:///home/user/a.txt"), "/home/user/a.txt");
    assert_eq!(strip_file_scheme("file://file:///a"), "file:///a");
    assert_eq!(strip_file_scheme("/home/user/a.txt"), "/home/user/a.txt");
    assert_eq!(strip_file_scheme("C:\\Users\\a.txt"), "C:\\Users\\a.txt");
    assert_eq!(strip_file_scheme("file://"), "");
    assert_eq!(strip_file_scheme(""), "");
    assert_eq!(strip_file_scheme("file:///home/üser/ä.txt"), "/home/üser/ä.txt");
}

#[test]
fn paths_are_read_from_uris_in_order() {
    let uris = strings(&["file:///a.txt", "/b.txt", "file:///c d.txt"]);
    assert_eq!(paths_from_uris(&uris), strings(&["/a.txt", "/b.txt", "/c d.txt"]));
    assert_eq!(paths_from_uris(&Vec::new()), Vec::<String>::new());
}

#[test]
fn uris_with_scheme_pass_on_linux_and_macos() {
    let uris = strings(&["file:///a.txt", "file:///b.txt"]);
    assert_eq!(check_file_uris(Platform::Linux, &uris), Ok(()));
    assert_eq!(check_file_uris(Platform::MacOs, &uris), Ok(()));
    assert_eq!(check_file_uris(Platform::Linux, &Vec::new()), Ok(()));
}

#[test]
fn first_uri_without_scheme_is_named_on_linux_and_macos() {
    let uris = strings(&["file:///a.txt", "/b.txt", "c.txt"]);
    let expected =
        Err("Invalid file uri: /b.txt. File uri should start with file://".to_string());
    assert_eq!(check_file_uris(Platform::Linux, &uris), expected);
    assert_eq!(check_file_uris(Platform::MacOs, &uris), expected);
}

#[test]
fn bare_paths_pass_on_windows() {
    let uris = strings(&["C:\\a.txt", "D:\\b.txt"]);
    assert_eq!(check_file_uris(Platform::Windows, &uris), Ok(()));
}

#[test]
fn first_uri_with_scheme_is_named_on_windows() {
    let uris = strings(&["C:\\a.txt", "file:///b.txt", "file:///c.txt"]);
    assert_eq!(
        check_file_uris(Platform::Windows, &uris),
        Err(
            "Invalid file uri: file:///b.txt. File uri on Windows should not start with file://"
                .to_string()
        )
    );
}

#[test]
fn paths_become_uris_with_scheme_on_linux_and_macos() {
    let paths = strings(&["/a.txt", "/b c.txt"]);
    let expected = Ok(strings(&["file:///a.txt", "file:///b c.txt"]));
    assert_eq!(uris_from_paths(Platform::Linux, &paths), expected);
    assert_eq!(uris_from_paths(Platform::MacOs, &paths), expected);
}

#[test]
fn paths_stay_as_they_are_on_windows() {
    let paths = strings(&["C:\\a.txt", "D:\\b.txt"]);
    assert_eq!(uris_from_paths(Platform::Windows, &paths), Ok(paths.clone()));
}

#[test]
fn first_path_with_scheme_is_named() {
    let paths = strings(&["/a.txt", "file:///b.txt", "file:///c.txt"]);
    let expected =
        Err("Invalid file uri: file:///b.txt. File uri should not start with file://".to_string());
    assert_eq!(uris_from_paths(Platform::Linux, &paths), expected);
    assert_eq!(uris_from_paths(Platform::MacOs, &paths), expected);
    assert_eq!(uris_from_paths(Platform::Windows, &paths), expected);
}

#[test]
fn uris_made_from_paths_pass_the_check_and_read_back() {
    let paths = strings(&["/a.txt", "/tmp/b c.txt", "relative.txt"]);
    for platform in [Platform::Linux, Platform::MacOs, Platform::Windows] {
        let uris = uris_from_paths(platform, &paths).unwrap();
        assert_eq!(check_file_uris(platform, &uris), Ok(()));
        assert_eq!(paths_from_uris(&uris), paths);
    }
}

#[test]
fn platforms_differ_in_the_scheme() {
    assert!(Platform::Linux.expects_file_scheme());
    assert!(Platform::MacOs.expects_file_scheme());
    assert!(!Platform::Windows.expects_file_scheme());
}

#[test]
fn available_types_hold_one_flag_per_kind() {
    let types = AvailableTypes { text: true, html: false, rtf: false, image: true, files: false };
    assert!(types.text && types.image);
    assert!(!types.html && !types.rtf && !types.files);
    assert_eq!(types, types.clone());
    assert_ne!(
        types,
        AvailableTypes { text: true, html: false, rtf: false, image: true, files: true }
    );
}
