use inline_images::classify::validate_string;

fn classify(raw: &str) -> Option<String> {
    validate_string(raw.to_owned())
}

#[test]
fn remote_url_is_not_local() {
    assert_eq!(classify("https://example.com/x.png"), None);
    assert_eq!(classify("http://example.com/x.png"), None);
}

#[test]
fn data_uri_is_not_local() {
    assert_eq!(classify("data:image/png;base64,iVBORw=="), None);
}

#[test]
fn fragment_and_unknown_scheme_are_not_local() {
    assert_eq!(classify("#logo"), None);
    assert_eq!(classify("ftp://host/a.png"), None);
    assert_eq!(classify("mailto:someone@example.com"), None);
}

#[test]
fn bare_relative_name_is_not_local() {
    assert_eq!(classify("a.png"), None);
    assert_eq!(classify("images/a.png"), None);
    assert_eq!(classify(".hidden.png"), None);
    assert_eq!(classify("..png"), None);
}

#[test]
fn empty_and_near_miss_prefixes_are_not_local() {
    assert_eq!(classify(""), None);
    assert_eq!(classify("."), None);
    assert_eq!(classify(".."), None);
    assert_eq!(classify("file:"), None);
    assert_eq!(classify("file:/"), None);
    assert_eq!(classify("file:a.png"), None);
    assert_eq!(classify("File://a.png"), None);
    assert_eq!(classify(" ./a.png"), None);
}

#[test]
fn file_scheme_is_stripped() {
    assert_eq!(classify("file:///tmp/a.png"), Some("/tmp/a.png".to_owned()));
    assert_eq!(classify("file://a.png"), Some("a.png".to_owned()));
    assert_eq!(classify("file://./a.png"), Some("./a.png".to_owned()));
}

#[test]
fn file_scheme_alone_gives_empty_path() {
    assert_eq!(classify("file://"), Some(String::new()));
}

#[test]
fn file_scheme_rest_is_unchanged() {
    assert_eq!(classify("file://../x/../y//z.png"), Some("../x/../y//z.png".to_owned()));
    assert_eq!(classify("file://file://a.png"), Some("file://a.png".to_owned()));
    assert_eq!(classify("file://https://example.com"), Some("https://example.com".to_owned()));
}

#[test]
fn file_scheme_with_non_ascii_rest() {
    assert_eq!(classify("file:///tmp/b\u{e9}b\u{e9} \u{1f600}.png"), Some("/tmp/b\u{e9}b\u{e9} \u{1f600}.png".to_owned()));
}

#[test]
fn current_directory_path_is_kept() {
    assert_eq!(classify("./a.png"), Some("./a.png".to_owned()));
    assert_eq!(classify("./"), Some("./".to_owned()));
}

#[test]
fn parent_directory_path_is_kept() {
    assert_eq!(classify("../img/a.png"), Some("../img/a.png".to_owned()));
    assert_eq!(classify("../"), Some("../".to_owned()));
}

#[test]
fn absolute_path_is_kept() {
    assert_eq!(classify("/tmp/a.png"), Some("/tmp/a.png".to_owned()));
    assert_eq!(classify("/"), Some("/".to_owned()));
    assert_eq!(classify("//example.com/x.png"), Some("//example.com/x.png".to_owned()));
}

#[test]
fn plain_path_is_not_normalised() {
    assert_eq!(classify("./x/../y/./a.png"), Some("./x/../y/./a.png".to_owned()));
    assert_eq!(classify("/caf\u{e9}/\u{1f600}.png"), Some("/caf\u{e9}/\u{1f600}.png".to_owned()));
}

#[test]
fn non_ascii_source_is_not_local() {
    assert_eq!(classify("\u{e9}/a.png"), None);
    assert_eq!(classify("\u{1f600}"), None);
}
