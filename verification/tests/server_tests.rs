use goto::server::{append_chunk, body_to_target, browse, redirect_body, Cli};
use goto::store::Database;

#[test]
fn test_get_front_dir() {
    let cli = Cli {
        front_dist_directory: None,
        addr: None,
        database: None,
    };
    assert_eq!("front/dist/", cli.get_front_dir());

    let cli = Cli {
        front_dist_directory: Some("/hello/world/".into()),
        addr: None,
        database: None,
    };
    assert_eq!("/hello/world/", cli.get_front_dir());
}

#[test]
fn test_get_addr() {
    let cli = Cli {
        front_dist_directory: None,
        addr: None,
        database: None,
    };
    assert_eq!("127.0.0.1:8080", cli.get_addr());

    let cli = Cli {
        front_dist_directory: None,
        addr: Some("123.34.56.78:99999".into()),
        database: None,
    };
    assert_eq!("123.34.56.78:99999", cli.get_addr());
}

#[test]
fn test_append_chunk_accumulates() {
    let mut body: Vec<u8> = Vec::new();
    assert_eq!(Ok(()), append_chunk(&mut body, b"https://"));
    assert_eq!(Ok(()), append_chunk(&mut body, b"hello.world"));
    assert_eq!(b"https://hello.world".to_vec(), body);
}

#[test]
fn test_append_chunk_overflow() {
    let mut body: Vec<u8> = Vec::new();
    let chunk = vec![b'a'; 2000];
    assert_eq!(Err("overflow".to_string()), append_chunk(&mut body, &chunk));
    assert!(body.is_empty());
}

#[test]
fn test_body_to_target_utf8() {
    let got = body_to_target(b"https://hello.world".to_vec()).unwrap();
    assert_eq!("https://hello.world", got);
}

#[test]
fn test_body_to_target_bad_body() {
    let got = body_to_target(vec![0, 159, 146, 150]);
    assert_eq!(
        Err("invalid request body: invalid utf-8 sequence of 1 bytes from index 1".to_string()),
        got
    );
}

#[test]
fn test_browse_found() {
    let mut db = Database::new();
    db.insert("hi", "https://linkedin.com/in/tsauvajon");

    let (location, body) = browse(&db, "hi").unwrap();
    assert_eq!("https://linkedin.com/in/tsauvajon", location);
    assert_eq!("redirecting to https://linkedin.com/in/tsauvajon ...", body);
}

#[test]
fn test_browse_link_miss() {
    let db = Database::new();
    assert!(browse(&db, "thislinkdoesntexist").is_none());
}

#[test]
fn test_redirect_body_text() {
    assert_eq!(
        "redirecting to https://hello.world ...",
        redirect_body("https://hello.world")
    );
}
