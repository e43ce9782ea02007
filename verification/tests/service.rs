use imageservice::{handle_request, imageservice_handler, Method, Store};

const INDEX_TEXT: &[u8] = b"Index to images service.";

fn fixed_name() -> Vec<u8> {
    b"k3F9zAbCdEfGhIjKlMn0".to_vec()
}

fn is_alphanumeric_name(name: &[u8]) -> bool {
    name.len() == 20
        && name.iter().all(|b| b.is_ascii_uppercase() || b.is_ascii_lowercase() || b.is_ascii_digit())
}

fn download_path(name: &[u8]) -> Vec<u8> {
    let mut path = b"/download/".to_vec();
    path.extend_from_slice(name);
    path
}

#[test]
fn index_answers_fixed_text() {
    let mut store = Store::new();
    let resp = handle_request(&mut store, Method::Get, b"/", &Vec::new(), fixed_name());
    assert_eq!(resp.status, 200);
    assert_eq!(resp.body, INDEX_TEXT.to_vec());
}

#[test]
fn unmatched_request_answers_404_empty() {
    let mut store = Store::new();
    let resp = handle_request(&mut store, Method::Post, b"/elsewhere", &Vec::new(), fixed_name());
    assert_eq!(resp.status, 404);
    assert!(resp.body.is_empty());
}

#[test]
fn upload_then_download_round_trips() {
    let mut store = Store::new();
    let chunks = vec![b"hello world".to_vec()];
    let up = handle_request(&mut store, Method::Post, b"/upload", &chunks, fixed_name());
    assert_eq!(up.status, 200);
    assert!(is_alphanumeric_name(&up.body));
    assert_eq!(up.body, fixed_name());

    let down = handle_request(&mut store, Method::Get, &download_path(&up.body), &Vec::new(), fixed_name());
    assert_eq!(down.status, 200);
    assert_eq!(down.body, b"hello world".to_vec());
}

#[test]
fn empty_body_round_trips() {
    let mut store = Store::new();
    let up = handle_request(&mut store, Method::Post, b"/upload", &Vec::new(), fixed_name());
    assert_eq!(up.status, 200);
    let down = handle_request(&mut store, Method::Get, &download_path(&up.body), &Vec::new(), fixed_name());
    assert_eq!(down.status, 200);
    assert!(down.body.is_empty());
}

#[test]
fn multi_chunk_body_round_trips_in_order() {
    let mut store = Store::new();
    let mut expected = Vec::new();
    let mut chunks = Vec::new();
    for round in 0..5u8 {
        let chunk: Vec<u8> = (0..3000).map(|i| (i as u8).wrapping_add(round)).collect();
        expected.extend_from_slice(&chunk);
        chunks.push(chunk);
    }
    assert!(expected.len() > 4096);
    let up = handle_request(&mut store, Method::Post, b"/upload", &chunks, fixed_name());
    assert_eq!(up.status, 200);
    let down = handle_request(&mut store, Method::Get, &download_path(&up.body), &Vec::new(), fixed_name());
    assert_eq!(down.status, 200);
    assert_eq!(down.body, expected);
}

#[test]
fn download_of_absent_valid_name_is_404() {
    let mut store = Store::new();
    let resp = handle_request(
        &mut store,
        Method::Get,
        b"/download/00000000000000000000",
        &Vec::new(),
        fixed_name(),
    );
    assert_eq!(resp.status, 404);
    assert!(resp.body.is_empty());
}

#[test]
fn download_of_malformed_name_is_404() {
    let mut store = Store::new();
    let resp = handle_request(&mut store, Method::Get, b"/download/short", &Vec::new(), fixed_name());
    assert_eq!(resp.status, 404);
    assert!(resp.body.is_empty());
}

#[test]
fn repeated_downloads_return_identical_bytes() {
    let mut store = Store::new();
    let chunks = vec![b"stable contents".to_vec()];
    let up = handle_request(&mut store, Method::Post, b"/upload", &chunks, fixed_name());
    let path = download_path(&up.body);
    let first = handle_request(&mut store, Method::Get, &path, &Vec::new(), fixed_name());
    let second = handle_request(&mut store, Method::Get, &path, &Vec::new(), fixed_name());
    assert_eq!(first.status, 200);
    assert_eq!(second.status, 200);
    assert_eq!(first.body, second.body);
}

#[test]
fn distinct_uploads_stay_distinct() {
    let mut store = Store::new();
    let name_a = b"AAAAAAAAAAAAAAAAAAAA".to_vec();
    let name_b = b"BBBBBBBBBBBBBBBBBBBB".to_vec();
    let up_a = handle_request(&mut store, Method::Post, b"/upload", &vec![b"payload a".to_vec()], name_a.clone());
    let up_b = handle_request(&mut store, Method::Post, b"/upload", &vec![b"payload b".to_vec()], name_b.clone());
    assert_eq!(up_a.body, name_a);
    assert_eq!(up_b.body, name_b);

    let down_a = handle_request(&mut store, Method::Get, &download_path(&name_a), &Vec::new(), fixed_name());
    let down_b = handle_request(&mut store, Method::Get, &download_path(&name_b), &Vec::new(), fixed_name());
    assert_eq!(down_a.body, b"payload a".to_vec());
    assert_eq!(down_b.body, b"payload b".to_vec());
}

#[test]
fn colliding_upload_replaces_earlier_object() {
    let mut store = Store::new();
    let name = fixed_name();
    handle_request(&mut store, Method::Post, b"/upload", &vec![b"first".to_vec()], name.clone());
    handle_request(&mut store, Method::Post, b"/upload", &vec![b"second".to_vec()], name.clone());
    let down = handle_request(&mut store, Method::Get, &download_path(&name), &Vec::new(), fixed_name());
    assert_eq!(down.status, 200);
    assert_eq!(down.body, b"second".to_vec());
}

#[test]
fn handler_with_random_name_round_trips() {
    let mut store = Store::new();
    let chunks = vec![b"random name payload".to_vec()];
    let up = imageservice_handler(&mut store, Method::Post, b"/upload", &chunks);
    assert_eq!(up.status, 200);
    assert!(is_alphanumeric_name(&up.body));

    let down = imageservice_handler(&mut store, Method::Get, &download_path(&up.body), &Vec::new());
    assert_eq!(down.status, 200);
    assert_eq!(down.body, b"random name payload".to_vec());
}

#[test]
fn handler_index_and_not_found() {
    let mut store = Store::new();
    let index = imageservice_handler(&mut store, Method::Get, b"/", &Vec::new());
    assert_eq!(index.status, 200);
    assert_eq!(index.body, INDEX_TEXT.to_vec());

    let missing = imageservice_handler(&mut store, Method::Get, b"/nowhere", &Vec::new());
    assert_eq!(missing.status, 404);
    assert!(missing.body.is_empty());
}
