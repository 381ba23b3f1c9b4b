use notmuch::guard::ResourceGuard;
use notmuch::ownership::{Form, Marker, Registry};

fn guard(raw: u64) -> ResourceGuard {
    ResourceGuard::new(raw).unwrap()
}

#[test]
fn null_handle_gives_no_guard() {
    assert!(ResourceGuard::new(0).is_none());
}

#[test]
fn guard_keeps_its_handle() {
    let g = ResourceGuard::new(0x1000).unwrap();
    assert_eq!(g.raw(), 0x1000);
    assert_eq!(g.into_raw(), 0x1000);
}

#[test]
fn root_without_children_is_released_at_once() {
    let mut reg = Registry::new();
    let db = reg.add_root(guard(11));
    assert_eq!(reg.release(db), vec![db]);
    assert!(reg.node(db).released);
    assert_eq!(reg.node(db).handle, 11);
}

#[test]
fn shared_resource_keeps_database_alive() {
    let mut reg = Registry::new();
    let db = reg.add_root(guard(11));
    let query = reg.derive(Marker { owner: db, form: Form::Shared }, guard(22));
    // The database's own binding goes out of scope first.
    assert_eq!(reg.release(db), Vec::<usize>::new());
    assert!(!reg.node(db).released);
    assert!(reg.node(db).dropped);
    // Releasing the last co-owner releases the query, then the database.
    assert_eq!(reg.release(query), vec![query, db]);
    assert!(reg.node(query).released);
    assert!(reg.node(db).released);
}

#[test]
fn owner_waits_for_every_co_owner() {
    let mut reg = Registry::new();
    let db = reg.add_root(guard(1));
    let a = reg.derive(Marker { owner: db, form: Form::Shared }, guard(2));
    let b = reg.derive(Marker { owner: db, form: Form::Shared }, guard(3));
    assert!(reg.release(db).is_empty());
    assert_eq!(reg.release(a), vec![a]);
    assert!(!reg.node(db).released);
    assert_eq!(reg.release(b), vec![b, db]);
}

#[test]
fn nested_resources_release_child_first() {
    let mut reg = Registry::new();
    let db = reg.add_root(guard(1));
    let dir = reg.derive(Marker { owner: db, form: Form::Shared }, guard(2));
    let names = reg.derive(Marker { owner: dir, form: Form::Shared }, guard(3));
    assert!(reg.release(db).is_empty());
    assert!(reg.release(dir).is_empty());
    assert!(reg.owns_live(dir));
    assert_eq!(reg.release(names), vec![names, dir, db]);
    assert!(!reg.owns_live(db));
}

#[test]
fn borrowed_resource_released_before_owner() {
    let mut reg = Registry::new();
    let db = reg.add_root(guard(1));
    let dir = reg.derive(Marker { owner: db, form: Form::Borrowed }, guard(2));
    assert_eq!(reg.release(dir), vec![dir]);
    assert!(!reg.node(db).released);
    assert_eq!(reg.release(db), vec![db]);
    assert_eq!(reg.len(), 2);
}
