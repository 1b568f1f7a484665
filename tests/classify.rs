use webp_converter::classify::{classify_extension, remove_quotes, which_action, Actions};

#[test]
fn convertible_extensions_in_any_case() {
    for ext in ["jpg", "jpeg", "png", "tiff", "tif", "bmp", "avif", "gif", "jfif"] {
        assert_eq!(classify_extension(Some(ext)), Actions::Convert);
        assert_eq!(classify_extension(Some(ext.to_ascii_uppercase().as_str())), Actions::Convert);
    }
    assert_eq!(classify_extension(Some("JpEg")), Actions::Convert);
    assert_eq!(classify_extension(Some("Png")), Actions::Convert);
}

#[test]
fn webp_extension_is_copied() {
    assert_eq!(classify_extension(Some("webp")), Actions::Copy);
    assert_eq!(classify_extension(Some("WEBP")), Actions::Copy);
    assert_eq!(classify_extension(Some("WebP")), Actions::Copy);
}

#[test]
fn other_extensions_are_skipped() {
    assert_eq!(classify_extension(None), Actions::Nothing);
    assert_eq!(classify_extension(Some("")), Actions::Nothing);
    assert_eq!(classify_extension(Some("txt")), Actions::Nothing);
    assert_eq!(classify_extension(Some("jpgx")), Actions::Nothing);
    assert_eq!(classify_extension(Some("jp")), Actions::Nothing);
    assert_eq!(classify_extension(Some("wébp")), Actions::Nothing);
}

#[test]
fn which_action_reads_the_extension_of_a_path() {
    assert_eq!(which_action("/photos/a.JPG"), Actions::Convert);
    assert_eq!(which_action("/photos/archive.tar.png"), Actions::Convert);
    assert_eq!(which_action("/photos/c.webp"), Actions::Copy);
    assert_eq!(which_action("/photos/d.txt"), Actions::Nothing);
    assert_eq!(which_action("/photos/README"), Actions::Nothing);
    assert_eq!(which_action("/photos/.png"), Actions::Nothing);
    assert_eq!(which_action("/photos.png/notes"), Actions::Nothing);
}

#[test]
fn which_action_ignores_quotes() {
    assert_eq!(which_action("\"/photos/a.jpg\""), Actions::Convert);
    assert_eq!(which_action("/photos/b.we\"bp"), Actions::Copy);
}

#[test]
fn remove_quotes_drops_every_double_quote() {
    assert_eq!(remove_quotes("\"a \"b\"\""), "a b");
    assert_eq!(remove_quotes(""), "");
    assert_eq!(remove_quotes("plain"), "plain");
}
