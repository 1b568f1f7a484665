use webp_converter::paths::{
    copy_destination_for, destination_for, output_dir_for, process_path_for_os,
    process_path_for_windows, run_output_dir,
};

#[test]
fn output_dir_sits_beside_the_source() {
    assert_eq!(output_dir_for("/photos/a.jpg"), "/photos/webp_converter_output");
    assert_eq!(output_dir_for("a.jpg"), "webp_converter_output");
    assert_eq!(output_dir_for("/"), "webp_converter_output");
}

#[test]
fn output_dir_is_shared_by_siblings() {
    assert_eq!(output_dir_for("/photos/a.jpg"), output_dir_for("/photos/b.png"));
    assert_eq!(output_dir_for("/photos/a.jpg"), output_dir_for("/photos/a.jpg"));
}

#[test]
fn destination_takes_the_webp_extension() {
    assert_eq!(
        destination_for("/photos/a.jpg"),
        Some("/photos/webp_converter_output/a.webp".to_string())
    );
    assert_eq!(
        destination_for("/photos/archive.tar.png"),
        Some("/photos/webp_converter_output/archive.tar.webp".to_string())
    );
    assert_eq!(
        destination_for("/photos/noext"),
        Some("/photos/webp_converter_output/noext.webp".to_string())
    );
    assert_eq!(destination_for("/"), None);
    assert_eq!(destination_for("/photos/.."), None);
}

#[test]
fn copy_destination_keeps_the_name() {
    assert_eq!(
        copy_destination_for("/photos/c.webp"),
        Some("/photos/webp_converter_output/c.webp".to_string())
    );
    assert_eq!(copy_destination_for("/"), None);
}

#[test]
fn run_output_dir_is_inside_the_root() {
    assert_eq!(run_output_dir("/photos"), "/photos/webp_converter_output");
}

#[test]
fn process_path_for_os_uses_unix_separators_and_escapes_spaces() {
    assert_eq!(process_path_for_os("C:\\my photos\\a b.jpg"), "C:/my\\ photos/a\\ b.jpg");
    assert_eq!(process_path_for_os("/plain/path"), "/plain/path");
    assert_eq!(process_path_for_os(""), "");
    assert_eq!(process_path_for_os(" "), "\\ ");
}

#[test]
fn process_path_for_windows_uses_backslashes() {
    assert_eq!(process_path_for_windows("C:/my photos/a.jpg"), "C:\\my photos\\a.jpg");
    assert_eq!(process_path_for_windows("C:\\already\\fine"), "C:\\already\\fine");
    assert_eq!(process_path_for_windows(""), "");
}
