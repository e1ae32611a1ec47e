use goto::hasher::hash;
use goto::persistence::{load_database, serialise_entry};
use goto::store::Database;
use goto::upsert::{upsert_short_url, UpsertError, UpsertShortUrlCommand};
use std::collections::HashMap;

#[test]
fn test_hash() {
    assert_eq!("4cca4", hash("something"));
    assert_eq!("284a1", hash("something else"));
}

#[test]
fn test_hash_deterministic_hex() {
    let first = hash("https://example.net/some/long/path");
    let second = hash("https://example.net/some/long/path");
    assert_eq!(first, second);
    assert_eq!(5, first.len());
    for c in first.chars() {
        assert!(c.is_ascii_hexdigit() && !c.is_ascii_uppercase(), "{}", first);
    }
}

#[test]
fn test_insert_data() {
    let mut data = Database::new().with_persistence();
    let outcome = data.insert("hi", "qwerty");
    assert_eq!(None, outcome);

    let outcome = data.insert("hi", "zxcvbnm");
    assert_eq!(Some("qwerty".to_string()), outcome);

    let got = data.take_pending_log();
    assert_eq!(Some("hi: \"qwerty\"\n".to_string()), got);
}

#[test]
fn test_create_short_malformed_url() {
    let mut db = Database::new();

    let target = "this is not a valid URL".to_string();
    let command = UpsertShortUrlCommand::CreateShortUrl { id: Some("hello".to_string()) };
    assert_eq!(
        Err("malformed URL: relative URL without a base".to_string()),
        upsert_short_url(&mut db, &target, command)
    );
}

#[test]
fn test_create_short_url() {
    let mut db = Database::new();

    let target = "https://google.com".to_string();
    let id = "hello";
    let command = UpsertShortUrlCommand::CreateShortUrl { id: Some(id.to_string()) };
    upsert_short_url(&mut db, &target, command).unwrap();

    let got = db.get(id).unwrap();
    assert_eq!(&target, got);
}

#[test]
fn test_create_short_url_hashed_id() {
    let mut db = Database::new();

    let target = "https://google.com";
    let command = UpsertShortUrlCommand::CreateShortUrl { id: None };
    upsert_short_url(&mut db, target, command).unwrap();

    let id = hash(target);
    let got = db.get(&id).unwrap();
    assert_eq!(&target, got);
}

#[test]
fn test_create_short_url_already_exists() {
    let id = "hello";

    let mut db = Database::new();
    db.insert(id, "some existing value");

    let target = "https://google.com";
    let command = UpsertShortUrlCommand::CreateShortUrl { id: Some(id.to_string()) };
    assert_eq!(
        Err("already registered".to_string()),
        upsert_short_url(&mut db, target, command)
    );
}

#[test]
fn test_update_existing_url() {
    let id = "hello";
    let mut db = Database::new();
    db.insert(id, "https://google.com");

    // Replace with hello -> yahoo.com
    let target = "https://yahoo.com";
    let command = UpsertShortUrlCommand::UpdateShortUrl { id: id.to_string() };
    let result = upsert_short_url(&mut db, target, command);
    assert_eq!(
        result,
        Ok("/hello now redirects to https://yahoo.com (was https://google.com)".to_string())
    )
}

#[test]
fn test_update_url_that_does_not_exist() {
    let id = "hello";
    let mut db = Database::new();

    let target = "https://google.com";
    let command = UpsertShortUrlCommand::UpdateShortUrl { id: id.to_string() };
    assert_eq!(
        Ok("/hello now redirects to https://google.com".to_string()),
        upsert_short_url(&mut db, target, command)
    );
}

#[test]
fn test_read_database() {
    let data = "hello: http://hello-world.com\nkey2: value2";

    let yaml_contents: HashMap<String, String> = serde_yaml::from_str(data).unwrap();
    println!("{:?}", yaml_contents);
}

#[test]
// We write new database (= file) lines one at a time, and serde_yaml
// to_string method doesn't help for two reasons:
//   - we don't need the error handling
//   - we don't want the `---\n` prefix
//
// On the other hand, if we wanted to write the entire database every
// time, it would work well.
fn test_write_database() {
    let mut database: HashMap<String, String> = HashMap::new();
    database.insert(
        "tsauvajon".to_string(),
        "https://linkedin.com/in/tsauvajon".to_string(),
    );
    let want = serde_yaml::to_string(&database).unwrap();
    let want = want.trim_start_matches("---\n").to_string();

    let got = serialise_entry(
        "tsauvajon".to_string(),
        "https://linkedin.com/in/tsauvajon".to_string(),
    );

    assert_eq!(want, got)
}

#[test]
fn test_round_trip() {
    let mut db = Database::new();
    let command = UpsertShortUrlCommand::CreateShortUrl { id: Some("hello".to_string()) };
    assert!(upsert_short_url(&mut db, "https://google.com", command).is_ok());
    assert_eq!(Some(&"https://google.com".to_string()), db.get("hello"));
}

#[test]
fn test_second_create_keeps_target() {
    let mut db = Database::new();
    let first = UpsertShortUrlCommand::CreateShortUrl { id: Some("hello".to_string()) };
    upsert_short_url(&mut db, "https://google.com", first).unwrap();

    let second = UpsertShortUrlCommand::CreateShortUrl { id: Some("hello".to_string()) };
    assert_eq!(
        Err("already registered".to_string()),
        upsert_short_url(&mut db, "https://yahoo.com", second)
    );
    assert_eq!(Some(&"https://google.com".to_string()), db.get("hello"));
}

#[test]
fn test_malformed_target_rejected_before_mutation() {
    let mut db = Database::new().with_persistence();

    let create = UpsertShortUrlCommand::CreateShortUrl { id: Some("hello".to_string()) };
    let got = upsert_short_url(&mut db, "this is not a valid URL", create);
    assert!(got.unwrap_err().starts_with("malformed URL: "));
    assert_eq!(None, db.get("hello"));

    let update = UpsertShortUrlCommand::UpdateShortUrl { id: "hello".to_string() };
    let got = upsert_short_url(&mut db, "this is not a valid URL", update);
    assert!(got.unwrap_err().starts_with("malformed URL: "));
    assert_eq!(None, db.get("hello"));
    assert_eq!(Some(String::new()), db.take_pending_log());
}

#[test]
fn test_bootstrap_from_log() {
    let db = load_database("hello: \"http://world\"\n").unwrap();
    assert_eq!(Some(&"http://world".to_string()), db.get("hello"));
}

#[test]
fn test_bootstrap_empty_log() {
    let mut db = load_database("").unwrap();
    assert_eq!(None, db.get("hello"));
    assert_eq!(Some(String::new()), db.take_pending_log());
}

#[test]
fn test_bootstrap_bad_data() {
    let got = load_database("ds;flsd'f sdl;flfs~~!./'' /sf/;dsf;lsdf");
    assert!(matches!(&got, Err(err) if err.contains("parse data: invalid type:")));
}

#[test]
fn test_many_creates_distinct_ids_all_succeed() {
    let mut db = Database::new();
    for i in 0..10 {
        let id = format!("id{}", i);
        let target = format!("https://example.net/{}", i);
        let command = UpsertShortUrlCommand::CreateShortUrl { id: Some(id) };
        assert!(upsert_short_url(&mut db, &target, command).is_ok());
    }
    for i in 0..10 {
        let id = format!("id{}", i);
        let target = format!("https://example.net/{}", i);
        assert_eq!(Some(&target), db.get(&id));
    }
}

#[test]
fn test_many_creates_same_id_one_succeeds() {
    let mut db = Database::new();
    let mut successes = 0;
    let mut rejections = 0;
    for i in 0..10 {
        let target = format!("https://example.net/{}", i);
        let command = UpsertShortUrlCommand::CreateShortUrl { id: Some("only".to_string()) };
        match upsert_short_url(&mut db, &target, command) {
            Ok(_) => successes += 1,
            Err(e) => {
                assert_eq!("already registered", e);
                rejections += 1;
            }
        }
    }
    assert_eq!(1, successes);
    assert_eq!(9, rejections);
    assert_eq!(Some(&"https://example.net/0".to_string()), db.get("only"));
}

#[test]
fn test_create_appends_to_pending_log() {
    let mut db = Database::new().with_persistence();
    let command = UpsertShortUrlCommand::CreateShortUrl { id: Some("hello".to_string()) };
    upsert_short_url(&mut db, "https://google.com", command).unwrap();
    assert_eq!(
        Some("hello: \"https://google.com\"\n".to_string()),
        db.take_pending_log()
    );

    let update = UpsertShortUrlCommand::UpdateShortUrl { id: "hello".to_string() };
    upsert_short_url(&mut db, "https://yahoo.com", update).unwrap();
    assert_eq!(Some(String::new()), db.take_pending_log());
}

#[test]
fn test_upsert_error_messages() {
    assert_eq!("already registered", UpsertError::AlreadyRegistered.message());
    assert_eq!(
        "poisoned lock: another task failed inside",
        UpsertError::LockFailure.message()
    );
    assert_eq!(
        "malformed URL: empty host",
        UpsertError::MalformedTarget("empty host".to_string()).message()
    );
    assert_eq!("disk full", UpsertError::IoFailure("disk full".to_string()).message());
}
