use imageservice::{classify, Intent, Method};

fn name_of(intent: Intent) -> Vec<u8> {
    match intent {
        Intent::Download(name) => name,
        _ => panic!("expected a download intent"),
    }
}

#[test]
fn get_root_is_index() {
    assert!(matches!(classify(Method::Get, b"/"), Intent::Index));
}

#[test]
fn post_upload_is_upload() {
    assert!(matches!(classify(Method::Post, b"/upload"), Intent::Upload));
}

#[test]
fn get_valid_download_path_extracts_name() {
    let path = b"/download/abcDEF0123456789wxyz";
    let intent = classify(Method::Get, path);
    assert_eq!(name_of(intent), b"abcDEF0123456789wxyz".to_vec());
}

#[test]
fn download_name_too_short_is_not_found() {
    assert!(matches!(classify(Method::Get, b"/download/short"), Intent::NotFound));
}

#[test]
fn download_name_too_long_is_not_found() {
    assert!(matches!(
        classify(Method::Get, b"/download/abcDEF0123456789wxyzX"),
        Intent::NotFound
    ));
}

#[test]
fn download_name_with_bad_byte_is_not_found() {
    assert!(matches!(
        classify(Method::Get, b"/download/abcDEF01234_6789wxyz"),
        Intent::NotFound
    ));
}

#[test]
fn download_missing_name_is_not_found() {
    assert!(matches!(classify(Method::Get, b"/download/"), Intent::NotFound));
    assert!(matches!(classify(Method::Get, b"/download"), Intent::NotFound));
}

#[test]
fn download_extra_segment_is_not_found() {
    assert!(matches!(
        classify(Method::Get, b"/download/abcDEF0123456789wxyz/x"),
        Intent::NotFound
    ));
}

#[test]
fn wrong_method_is_not_found() {
    assert!(matches!(classify(Method::Post, b"/"), Intent::NotFound));
    assert!(matches!(classify(Method::Get, b"/upload"), Intent::NotFound));
    assert!(matches!(classify(Method::Other, b"/"), Intent::NotFound));
    assert!(matches!(
        classify(Method::Post, b"/download/abcDEF0123456789wxyz"),
        Intent::NotFound
    ));
}

#[test]
fn unrelated_path_is_not_found() {
    assert!(matches!(classify(Method::Get, b"/files"), Intent::NotFound));
    assert!(matches!(classify(Method::Get, b""), Intent::NotFound));
}
