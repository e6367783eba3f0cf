use wikisave::gen_backup_filename;
use wikisave::http::{Method, RespBody, Response};
use wikisave::naming::u64_to_decimal;
use wikisave::protocol::{
    handle, update_on_body, update_on_promoted, update_on_snapshot_written, Config,
};
use wikisave::store::MemStore;

fn config() -> Config {
    Config {
        wiki_file: String::from("wiki.html"),
        backup_dir: String::from("backups"),
        address: String::from("0.0.0.0"),
        port: 8080,
    }
}

fn store_with(doc: &[u8]) -> MemStore {
    MemStore::new(Some(doc.to_vec()), true)
}

#[test]
fn decimal_rendering_exact() {
    assert_eq!(u64_to_decimal(0), "0");
    assert_eq!(u64_to_decimal(9), "9");
    assert_eq!(u64_to_decimal(10), "10");
    assert_eq!(u64_to_decimal(12345), "12345");
    assert_eq!(u64_to_decimal(1696000000123), "1696000000123");
    assert_eq!(u64_to_decimal(u64::MAX), "18446744073709551615");
}

#[test]
fn backup_filename_formats_time() {
    assert_eq!(gen_backup_filename("backups", 1234), "backups/backup.1234.html");
    assert_eq!(gen_backup_filename("b", 0), "b/backup.0.html");
    assert_eq!(
        gen_backup_filename("/var/backups", 1696000000123),
        "/var/backups/backup.1696000000123.html"
    );
}

#[test]
fn backup_names_sort_monotonically() {
    // Same number of digits: later time, lexicographically later name.
    let a = gen_backup_filename("backups", 1696000000123);
    let b = gen_backup_filename("backups", 1696000000124);
    assert!(a < b);
    let c = gen_backup_filename("backups", 1696000001000);
    assert!(b < c);
    let d = gen_backup_filename("backups", 9999999999999);
    assert!(c < d);
}

#[test]
fn round_trip_put_then_get() {
    let cfg = config();
    let mut st = store_with(b"old content");
    let body = b"fresh content".to_vec();
    let put = handle(&mut st, Method::Put, "/", Ok(body.clone()), 77, &cfg);
    assert_eq!(put.status, 200);
    assert_eq!(put.body, RespBody::Empty);
    let get = handle(&mut st, Method::Get, "/", Ok(Vec::new()), 78, &cfg);
    assert_eq!(get.status, 200);
    assert_eq!(get.content_type, Some("text/html"));
    assert_eq!(get.body, RespBody::Bytes(body));
}

#[test]
fn repeated_gets_are_identical() {
    let cfg = config();
    let mut st = store_with(b"stable");
    let first = handle(&mut st, Method::Get, "/", Ok(Vec::new()), 1, &cfg);
    let second = handle(&mut st, Method::Get, "/", Ok(Vec::new()), 2, &cfg);
    let third = handle(&mut st, Method::Get, "/any/path", Ok(Vec::new()), 3, &cfg);
    assert_eq!(first, second);
    assert_eq!(first, third);
    assert_eq!(first.body, RespBody::Bytes(b"stable".to_vec()));
}

#[test]
fn snapshot_written_before_document_changes() {
    let cfg = config();
    let mut st = store_with(b"before");
    // Run the update only up to the snapshot write.
    let (path, content) = update_on_body(&cfg.backup_dir, 424242, Ok(b"after".to_vec()))
        .ok()
        .expect("buffered body must yield a snapshot write");
    assert_eq!(path, "backups/backup.424242.html");
    let wrote = st.write_snapshot(&path, content);
    assert!(wrote.is_ok());
    // The snapshot is durable and the document has not changed yet.
    assert_eq!(st.snapshots.len(), 1);
    assert_eq!(st.snapshots[0].0, path);
    assert_eq!(st.snapshots[0].1, b"after".to_vec());
    assert_eq!(st.document, Some(b"before".to_vec()));
    // Promotion then changes the document alone.
    let promoted = st.promote(&path);
    assert!(promoted.is_ok());
    assert_eq!(st.document, Some(b"after".to_vec()));
    assert_eq!(st.snapshots.len(), 1);
}

#[test]
fn other_methods_are_rejected() {
    let cfg = config();
    let mut st = store_with(b"doc");
    let r = handle(&mut st, Method::Other, "/", Ok(b"body".to_vec()), 5, &cfg);
    assert_eq!(r.status, 405);
    assert_eq!(r.content_type, Some("text/plain"));
    assert_eq!(r.body, RespBody::Empty);
    // The store is untouched, whatever the body carried.
    assert_eq!(st.document, Some(b"doc".to_vec()));
    assert_eq!(st.snapshots.len(), 0);
}

#[test]
fn options_advertises_put_saving() {
    let cfg = config();
    // Whatever the server state: a healthy store ...
    let mut st = store_with(b"doc");
    let r = handle(&mut st, Method::Options, "/", Ok(Vec::new()), 5, &cfg);
    assert_eq!(r.status, 200);
    assert_eq!(r.dav, Some("tw5/put"));
    assert_eq!(r.body, RespBody::Empty);
    // ... or one with no document and no backup directory.
    let mut broken = MemStore::new(None, false);
    let r2 = handle(&mut broken, Method::Options, "/x", Err(String::from("boom")), 6, &cfg);
    assert_eq!(r2.status, 200);
    assert_eq!(r2.dav, Some("tw5/put"));
    assert_eq!(r2.body, RespBody::Empty);
}

#[test]
fn scenario_replace_document() {
    let cfg = config();
    let mut st = store_with(b"<html>v1</html>");
    let put = handle(
        &mut st,
        Method::Put,
        "/",
        Ok(b"<html>v2</html>".to_vec()),
        1000,
        &cfg,
    );
    assert_eq!(put.status, 200);
    assert_eq!(put.body, RespBody::Empty);
    let get = handle(&mut st, Method::Get, "/", Ok(Vec::new()), 1001, &cfg);
    assert_eq!(get.status, 200);
    assert_eq!(get.body, RespBody::Bytes(b"<html>v2</html>".to_vec()));
    // The backup directory holds a snapshot whose content is the new document.
    assert!(st
        .snapshots
        .iter()
        .any(|(_, content)| content == &b"<html>v2</html>".to_vec()));
}

#[test]
fn scenario_backup_dir_deleted_before_put() {
    let cfg = config();
    let mut st = store_with(b"<html>v1</html>");
    st.dir_exists = false;
    let put = handle(
        &mut st,
        Method::Put,
        "/",
        Ok(b"<html>v2</html>".to_vec()),
        2000,
        &cfg,
    );
    assert_eq!(put.status, 500);
    match &put.body {
        RespBody::Text(msg) => {
            assert!(msg.contains("failed to write backup wiki file"));
            assert!(msg.contains("backups/backup.2000.html"));
        }
        other => panic!("expected an error text body, got {:?}", other),
    }
    // The document is left untouched.
    let get = handle(&mut st, Method::Get, "/", Ok(Vec::new()), 2001, &cfg);
    assert_eq!(get.body, RespBody::Bytes(b"<html>v1</html>".to_vec()));
}

#[test]
fn scenario_get_with_missing_document() {
    let cfg = config();
    let mut st = MemStore::new(None, true);
    let get = handle(&mut st, Method::Get, "/", Ok(Vec::new()), 3000, &cfg);
    assert_eq!(get.status, 500);
    match &get.body {
        RespBody::Text(msg) => assert!(msg.contains("couldn't read wiki file")),
        other => panic!("expected an error text body, got {:?}", other),
    }
    // The server keeps serving: a later PUT succeeds and a GET sees it.
    let put = handle(&mut st, Method::Put, "/", Ok(b"recovered".to_vec()), 3001, &cfg);
    assert_eq!(put.status, 200);
    let get2 = handle(&mut st, Method::Get, "/", Ok(Vec::new()), 3002, &cfg);
    assert_eq!(get2.status, 200);
    assert_eq!(get2.body, RespBody::Bytes(b"recovered".to_vec()));
}

#[test]
fn body_read_failure_reports_500() {
    let cfg = config();
    let mut st = store_with(b"doc");
    let r = handle(
        &mut st,
        Method::Put,
        "/",
        Err(String::from("connection reset")),
        4000,
        &cfg,
    );
    assert_eq!(r.status, 500);
    assert_eq!(
        r.body,
        RespBody::Text(String::from("failed to read request body: connection reset"))
    );
    // Nothing was written.
    assert_eq!(st.snapshots.len(), 0);
    assert_eq!(st.document, Some(b"doc".to_vec()));
}

#[test]
fn update_step_errors_carry_their_paths() {
    let refused = update_on_body("backups", 5, Err(String::from("eof")))
        .err()
        .expect("a failed body read must end the update");
    assert_eq!(refused.status, 500);
    assert_eq!(
        refused.body,
        RespBody::Text(String::from("failed to read request body: eof"))
    );

    let write_failed = update_on_snapshot_written(
        String::from("backups/backup.5.html"),
        Err(String::from("denied")),
    )
    .err()
    .expect("a failed snapshot write must end the update");
    assert_eq!(
        write_failed.body,
        RespBody::Text(String::from(
            "failed to write backup wiki file (backups/backup.5.html): denied"
        ))
    );

    let copy_failed = update_on_promoted("wiki.html", Err(String::from("denied")));
    assert_eq!(copy_failed.status, 500);
    assert_eq!(
        copy_failed.body,
        RespBody::Text(String::from(
            "failed to overwrite wiki file (wiki.html): denied"
        ))
    );
    let copied: Response = update_on_promoted("wiki.html", Ok(()));
    assert_eq!(copied.status, 200);
    assert_eq!(copied.body, RespBody::Empty);
}

#[test]
fn promote_without_snapshot_fails() {
    let mut st = store_with(b"doc");
    let r = st.promote("backups/backup.1.html");
    assert!(r.is_err());
    assert_eq!(st.document, Some(b"doc".to_vec()));
}

#[test]
fn later_snapshot_wins_on_name_collision() {
    // Two writes in the same millisecond collide on name; the later write
    // is the one a promotion copies.
    let mut st = store_with(b"doc");
    assert!(st.write_snapshot("backups/backup.7.html", b"first".to_vec()).is_ok());
    assert!(st.write_snapshot("backups/backup.7.html", b"second".to_vec()).is_ok());
    assert!(st.promote("backups/backup.7.html").is_ok());
    assert_eq!(st.document, Some(b"second".to_vec()));
}
