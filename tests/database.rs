use notmuch::database::{mode_code, Database, DatabaseMode, Opened, Version};
use notmuch::directory::Directory;
use notmuch::error::{check_status, error_from_status, Error};
use notmuch::ownership::{Form, Marker, Registry};
use notmuch::path::native_string;
use notmuch::resource::{Cursor, Resource};

fn ok(handle: u64, version: u32) -> Opened {
    Opened { status: 0, handle, version, needs_upgrade: false }
}

fn fresh(reg: &mut Registry) -> Database {
    Database::create("/m", ok(5, 3), reg).unwrap()
}

#[test]
fn status_codes_map_to_error_kinds() {
    assert_eq!(check_status(0), Ok(()));
    assert_eq!(error_from_status(13), Error::InvalidArgument);
    assert_eq!(error_from_status(7), Error::InvalidArgument);
    assert_eq!(error_from_status(8), Error::InvalidArgument);
    assert_eq!(error_from_status(4), Error::NotFound);
    assert_eq!(error_from_status(2), Error::PermissionOrLock);
    assert_eq!(error_from_status(12), Error::VersionMismatch);
    assert_eq!(error_from_status(3), Error::BackendFailure(3));
    assert_eq!(check_status(1), Err(Error::BackendFailure(1)));
}

#[test]
fn native_string_appends_terminator() {
    assert_eq!(native_string("/mail").unwrap(), b"/mail\0".to_vec());
    assert_eq!(native_string("").unwrap(), vec![0u8]);
    assert_eq!(native_string("a\0b"), Err(Error::InvalidArgument));
}

#[test]
fn mode_codes() {
    assert_eq!(mode_code(DatabaseMode::ReadOnly), 0);
    assert_eq!(mode_code(DatabaseMode::ReadWrite), 1);
}

#[test]
fn create_then_open_keeps_version() {
    let mut reg = Registry::new();
    let created = Database::create("/tmp/mail", ok(0x10, 3), &mut reg).unwrap();
    assert_eq!(created.version(), Version(3));
    assert_eq!(created.place_of(), 0);
    let opened =
        Database::open("/tmp/mail", DatabaseMode::ReadOnly, ok(0x20, 3), &mut reg).unwrap();
    assert_eq!(opened.version(), created.version());
    assert_eq!(opened.path(), "/tmp/mail");
    assert!(!opened.needs_upgrade());
    assert_eq!(reg.node(opened.place_of()).handle, 0x20);
    assert_eq!(reg.len(), 2);
}

#[test]
fn open_missing_storage_fails() {
    let mut reg = Registry::new();
    let o = Opened { status: 4, handle: 0, version: 0, needs_upgrade: false };
    assert_eq!(
        Database::open("/nowhere", DatabaseMode::ReadOnly, o, &mut reg).unwrap_err(),
        Error::NotFound
    );
    let o = Opened { status: 3, handle: 0, version: 0, needs_upgrade: false };
    assert_eq!(
        Database::open("/nowhere", DatabaseMode::ReadWrite, o, &mut reg).unwrap_err(),
        Error::BackendFailure(3)
    );
    assert_eq!(reg.len(), 0);
}

#[test]
fn open_with_null_handle_fails() {
    let mut reg = Registry::new();
    assert_eq!(
        Database::open("/m", DatabaseMode::ReadOnly, ok(0, 3), &mut reg).unwrap_err(),
        Error::NullHandle
    );
    assert_eq!(reg.len(), 0);
}

#[test]
fn close_records_outcome() {
    let mut reg = Registry::new();
    let mut db = fresh(&mut reg);
    assert_eq!(db.close(1), Err(Error::BackendFailure(1)));
    assert_eq!(db.close(0), Ok(()));
}

#[test]
fn upgrade_success_sets_version() {
    let mut reg = Registry::new();
    let o = Opened { status: 0, handle: 5, version: 2, needs_upgrade: true };
    let mut db = Database::open("/m", DatabaseMode::ReadWrite, o, &mut reg).unwrap();
    assert!(db.needs_upgrade());
    assert_eq!(db.upgrade(2, 9), Err(Error::PermissionOrLock));
    assert_eq!(db.version(), Version(2));
    assert!(db.needs_upgrade());
    assert_eq!(db.upgrade(0, 3), Ok(()));
    assert_eq!(db.version(), Version(3));
    assert!(!db.needs_upgrade());
}

#[test]
fn compact_arguments() {
    let c = Database::compact("/m", None).unwrap();
    assert_eq!(c.path, b"/m\0".to_vec());
    assert!(c.backup_path.is_none());
    let c = Database::compact("/m", Some("/b")).unwrap();
    assert_eq!(c.backup_path, Some(b"/b\0".to_vec()));
    assert_eq!(Database::compact("/m", Some("/\0")).unwrap_err(), Error::InvalidArgument);
    assert_eq!(Database::compact("\0", None).unwrap_err(), Error::InvalidArgument);
}

#[test]
fn missing_directory_is_empty_result() {
    let mut reg = Registry::new();
    let db = fresh(&mut reg);
    assert!(db.directory(0, 0, Form::Borrowed, &mut reg).unwrap().is_none());
    assert_eq!(reg.len(), 1);
    let d = db.directory(0, 0x44, Form::Borrowed, &mut reg).unwrap().unwrap();
    assert_eq!(reg.node(d.resource.place_of()).handle, 0x44);
    assert_eq!(db.directory(4, 0, Form::Borrowed, &mut reg).unwrap_err(), Error::NotFound);
}

#[test]
fn empty_tag_sequence_ends_at_once() {
    let mut reg = Registry::new();
    let db = fresh(&mut reg);
    let mut tags = db.all_tags(0x77, Form::Borrowed, &mut reg).unwrap();
    assert!(!tags.cursor.advance(false));
    assert!(tags.cursor.exhausted);
    assert_eq!(tags.cursor.taken, 0);
}

#[test]
fn exhausted_sequence_stays_exhausted() {
    let mut c = Cursor::new();
    assert!(c.advance(true));
    assert!(c.advance(true));
    assert!(!c.advance(false));
    assert!(!c.advance(true));
    assert_eq!(c.taken, 2);
}

#[test]
fn query_and_children() {
    let mut reg = Registry::new();
    let db = fresh(&mut reg);
    assert_eq!(Database::query_string("tag:inbox").unwrap(), b"tag:inbox\0".to_vec());
    assert_eq!(Database::query_string("a\0").unwrap_err(), Error::InvalidArgument);
    assert_eq!(db.create_query(0, Form::Shared, &mut reg).unwrap_err(), Error::NullHandle);
    let q = db.create_query(9, Form::Shared, &mut reg).unwrap();
    assert_eq!(q.resource.owner(), Marker { owner: db.place_of(), form: Form::Shared });
    let dir = Directory::from_ptr(12, Marker { owner: 0, form: Form::Borrowed }, &mut reg).unwrap();
    let names = dir.child_directories(13, Form::Shared, &mut reg).unwrap();
    assert_eq!(names.resource.owner().owner, dir.resource.place_of());
    assert_eq!(reg.node(names.resource.place_of()).handle, 13);
    let m = Marker { owner: 0, form: Form::Borrowed };
    assert_eq!(Directory::from_ptr(0, m, &mut reg).unwrap_err(), Error::NullHandle);
    assert_eq!(Resource::from_ptr(0, m, &mut reg).unwrap_err(), Error::NullHandle);
}

#[test]
fn shared_query_outlives_database_binding() {
    let mut reg = Registry::new();
    let db = fresh(&mut reg);
    let q = db.create_query(9, Form::Shared, &mut reg).unwrap();
    let db_place = db.place_of();
    drop(db);
    assert!(reg.release(db_place).is_empty());
    assert!(!reg.node(db_place).released);
    let q_place = q.resource.place_of();
    assert_eq!(reg.release(q_place), vec![q_place, db_place]);
    assert!(reg.node(db_place).released);
}
