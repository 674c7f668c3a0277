use raylib::files;
use raylib::marshal;
use raylib::native;

#[test]
fn test_get_extension() {
    let result = files::get_extension("README.md");
    assert_eq!("md", result);
}

#[test]
fn extension_of_plain_name_is_empty() {
    assert_eq!(files::get_extension("README"), "");
}

#[test]
fn extension_ignores_dot_before_separator() {
    assert_eq!(files::get_extension("archive.tar/file"), "");
    assert_eq!(files::get_extension("a.b\\c"), "");
}

#[test]
fn extension_of_trailing_dot_is_empty() {
    assert_eq!(files::get_extension("file."), "");
}

#[test]
fn extension_takes_last_dot() {
    assert_eq!(files::get_extension("archive.tar.gz"), "gz");
}

#[test]
fn extension_of_empty_path_is_empty() {
    assert_eq!(files::get_extension(""), "");
}

#[test]
fn file_extension_check_takes_dotted_suffix() {
    assert!(files::is_file_extension("image.png", ".png"));
    assert!(!files::is_file_extension("image.png", "png"));
    assert!(!files::is_file_extension("image.png", ".jpg"));
    assert!(!files::is_file_extension("image", ".png"));
}

#[test]
fn file_name_after_last_separator() {
    assert_eq!(files::get_file_name("dir/sub/file.txt"), "file.txt");
    assert_eq!(files::get_file_name("file.txt"), "file.txt");
    assert_eq!(files::get_file_name("dir\\file.txt"), "file.txt");
    assert_eq!(files::get_file_name("dir/"), "");
}

#[test]
fn directory_before_last_separator() {
    assert_eq!(files::get_directory_path("dir/sub/file.txt"), "dir/sub");
    assert_eq!(files::get_directory_path("file.txt"), "");
    assert_eq!(files::get_directory_path("/file.txt"), "");
}

#[test]
fn change_directory_outcome_follows_sentinel() {
    assert_eq!(files::change_directory_result(native::TRUE), Ok(()));
    assert_eq!(files::change_directory_result(native::FALSE), Err(()));
    // Any value other than the true sentinel is a failure, even nonzero.
    assert_eq!(files::change_directory_result(2), Err(()));
    assert_eq!(files::change_directory_result(-1), Err(()));
}

#[test]
fn native_bool_compares_against_sentinel() {
    assert!(native::bool_from_native(native::TRUE));
    assert!(!native::bool_from_native(native::FALSE));
    assert!(!native::bool_from_native(2));
    assert!(!native::bool_from_native(-1));
}

#[test]
fn dropped_files_absent_list_is_empty() {
    assert_eq!(files::dropped_files_from(None), Vec::<String>::new());
}

#[test]
fn dropped_files_present_list_passes_through() {
    let paths = vec![String::from("a.png"), String::from("b.png")];
    assert_eq!(files::dropped_files_from(Some(paths.clone())), paths);
}

#[test]
fn c_bytes_append_one_terminator() {
    assert_eq!(marshal::to_c_bytes("hi"), Some(vec![104, 105, 0]));
    assert_eq!(marshal::to_c_bytes(""), Some(vec![0]));
}

#[test]
fn c_bytes_refuse_interior_zero() {
    assert_eq!(marshal::to_c_bytes("a\0b"), None);
}
