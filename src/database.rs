use vstd::prelude::*;
use crate::directory::Directory;
use crate::error::{check_status, error_from_status, error_of, outcome_of, Error, STATUS_SUCCESS};
use crate::guard::ResourceGuard;
use crate::ownership::{can_derive, well_formed, Form, Marker, Node, Registry};
use crate::path::{native_string, terminated};
use crate::resource::{registered, Query, Tags};
use vstd::string::StringSliceAdditionalSpecFns;

verus! {

/// How a database is opened.
#[derive(Debug, Clone, Copy, PartialEq, Eq, Structural)]
pub enum DatabaseMode {
    ReadOnly,
    ReadWrite,
}

/// The native code of an open mode.
pub open spec fn mode_code_of(mode: DatabaseMode) -> u32 {
    match mode {
        DatabaseMode::ReadOnly => 0,
        DatabaseMode::ReadWrite => 1,
    }
}

/// The native code of an open mode, as the native open call takes it.
pub fn mode_code(mode: DatabaseMode) -> (r: u32)
    ensures
        r == mode_code_of(mode),
{
    match mode {
        DatabaseMode::ReadOnly => 0,
        DatabaseMode::ReadWrite => 1,
    }
}

/// The schema version of a database.
#[derive(Debug, Clone, Copy, PartialEq, Eq, Structural)]
pub struct Version(pub u32);

/// A point in the history of a database: a counter that only grows, and the
/// identifier of the database it counts in.
#[derive(Debug, Clone)]
pub struct Revision {
    pub revision: u64,
    pub uuid: String,
}

/// What the native library answered to a call that opens storage.
#[derive(Debug, Clone, Copy, PartialEq, Eq, Structural)]
pub struct Opened {
    pub status: u32,
    pub handle: u64,
    pub version: u32,
    pub needs_upgrade: bool,
}

/// The arguments of a native compaction.
#[derive(Debug, Clone)]
pub struct CompactCall {
    /// The storage path, as a native string.
    pub path: Vec<u8>,
    /// Where the backup goes, as a native string, if one is asked for.
    pub backup_path: Option<Vec<u8>>,
}

/// The root of the resource tree: one open database.
#[derive(Debug)]
pub struct Database {
    place: usize,
    path: String,
    mode: DatabaseMode,
    version: Version,
    needs_upgrade: bool,
    closed: bool,
}

/// What opening storage gives, from the native answer.
pub open spec fn opened_ok(o: Opened) -> bool {
    o.status == STATUS_SUCCESS && o.handle != 0
}

/// The error that opening storage gives, where it fails.
pub open spec fn opened_error(o: Opened) -> Error {
    if o.status != STATUS_SUCCESS {
        error_of(o.status)
    } else {
        Error::NullHandle
    }
}

/// `db` is the database that `o` reports, open at `path` as `mode`, with its
/// handle registered as a new root.
pub open spec fn opened_as(
    db: Database,
    before: Seq<Node>,
    after: Seq<Node>,
    path: Seq<char>,
    mode: DatabaseMode,
    o: Opened,
) -> bool {
    &&& db.place() == before.len()
    &&& after == before.push(Node { handle: o.handle, marker: None, dropped: false, released: false })
    &&& db.path_view() == path
    &&& db.mode_view() == mode
    &&& db.version_view() == Version(o.version)
    &&& db.upgrade_pending() == o.needs_upgrade
    &&& !db.is_closed()
}

impl Database {
    /// The place of the database's handle in the registry.
    pub closed spec fn place(&self) -> usize {
        self.place
    }

    pub closed spec fn path_view(&self) -> Seq<char> {
        self.path@
    }

    pub closed spec fn mode_view(&self) -> DatabaseMode {
        self.mode
    }

    pub closed spec fn version_view(&self) -> Version {
        self.version
    }

    pub closed spec fn upgrade_pending(&self) -> bool {
        self.needs_upgrade
    }

    pub closed spec fn is_closed(&self) -> bool {
        self.closed
    }

    /// The database at `path`, open as `mode`, from what the native open or
    /// create call answered; its handle becomes a root of the registry.
    fn from_native(path: &str, mode: DatabaseMode, o: Opened, reg: &mut Registry) -> (r: Result<
        Database,
        Error,
    >)
        requires
            well_formed(old(reg).nodes()),
            old(reg).nodes().len() < usize::MAX,
        ensures
            well_formed(final(reg).nodes()),
            r is Ok <==> opened_ok(o),
            r matches Err(e) ==> e == opened_error(o) && final(reg).nodes() == old(reg).nodes(),
            r matches Ok(db) ==> opened_as(db, old(reg).nodes(), final(reg).nodes(), path@, mode, o),
    {
        if o.status != STATUS_SUCCESS {
            return Err(error_from_status(o.status));
        }
        match ResourceGuard::new(o.handle) {
            Some(guard) => {
                let place = reg.add_root(guard);
                Ok(
                    Database {
                        place,
                        path: path.to_string(),
                        mode,
                        version: Version(o.version),
                        needs_upgrade: o.needs_upgrade,
                        closed: false,
                    },
                )
            },
            None => Err(Error::NullHandle),
        }
    }

    /// The database that the native library has just created at `path`:
    /// fresh storage, open for reading and writing.
    pub fn create(path: &str, o: Opened, reg: &mut Registry) -> (r: Result<Database, Error>)
        requires
            well_formed(old(reg).nodes()),
            old(reg).nodes().len() < usize::MAX,
        ensures
            well_formed(final(reg).nodes()),
            r is Ok <==> opened_ok(o),
            r matches Err(e) ==> e == opened_error(o) && final(reg).nodes() == old(reg).nodes(),
            r matches Ok(db) ==> opened_as(
                db,
                old(reg).nodes(),
                final(reg).nodes(),
                path@,
                DatabaseMode::ReadWrite,
                o,
            ),
    {
        Database::from_native(path, DatabaseMode::ReadWrite, o, reg)
    }

    /// The database that the native library has just opened at `path` as
    /// `mode`.
    pub fn open(path: &str, mode: DatabaseMode, o: Opened, reg: &mut Registry) -> (r: Result<
        Database,
        Error,
    >)
        requires
            well_formed(old(reg).nodes()),
            old(reg).nodes().len() < usize::MAX,
        ensures
            well_formed(final(reg).nodes()),
            r is Ok <==> opened_ok(o),
            r matches Err(e) ==> e == opened_error(o) && final(reg).nodes() == old(reg).nodes(),
            r matches Ok(db) ==> opened_as(db, old(reg).nodes(), final(reg).nodes(), path@, mode, o),
    {
        Database::from_native(path, mode, o, reg)
    }

    /// Records the native close call's answer: on success the connection is
    /// closed, and nothing may use it any more.
    pub fn close(&mut self, status: u32) -> (r: Result<(), Error>)
        ensures
            r == outcome_of(status),
            final(self).is_closed() == (old(self).is_closed() || status == STATUS_SUCCESS),
            final(self).place() == old(self).place(),
            final(self).path_view() == old(self).path_view(),
            final(self).mode_view() == old(self).mode_view(),
            final(self).version_view() == old(self).version_view(),
            final(self).upgrade_pending() == old(self).upgrade_pending(),
    {
        let r = check_status(status);
        if r.is_ok() {
            self.closed = true;
        }
        r
    }

    /// The arguments for compacting the storage at `path`, with a backup at
    /// `backup_path` if one is given. A path that holds a zero byte cannot
    /// be handed to the native library.
    pub fn compact(path: &str, backup_path: Option<&str>) -> (r: Result<CompactCall, Error>)
        ensures
            r is Err <==> (path.spec_bytes().contains(0u8) || (backup_path matches Some(b)
                && b.spec_bytes().contains(0u8))),
            r matches Err(e) ==> e == Error::InvalidArgument,
            r matches Ok(c) ==> c.path@ == terminated(path.spec_bytes()) && (match backup_path {
                None => c.backup_path is None,
                Some(b) => c.backup_path matches Some(v) && v@ == terminated(b.spec_bytes()),
            }),
    {
        let p = match native_string(path) {
            Ok(p) => p,
            Err(e) => {
                return Err(e);
            },
        };
        let backup = match backup_path {
            None => None,
            Some(b) => match native_string(b) {
                Ok(v) => Some(v),
                Err(e) => {
                    return Err(e);
                },
            },
        };
        Ok(CompactCall { path: p, backup_path: backup })
    }

    /// The storage's root path.
    pub fn path(&self) -> (r: &str)
        ensures
            r@ == self.path_view(),
    {
        self.path.as_str()
    }

    /// The schema version.
    pub fn version(&self) -> (r: Version)
        ensures
            r == self.version_view(),
    {
        self.version
    }

    /// Whether the schema has to be upgraded.
    pub fn needs_upgrade(&self) -> (r: bool)
        ensures
            r == self.upgrade_pending(),
    {
        self.needs_upgrade
    }

    /// Records the native upgrade call's answer, with the version that the
    /// database reports after it. On success the schema is at that version
    /// and no upgrade is pending; on failure nothing changes.
    pub fn upgrade(&mut self, status: u32, version: u32) -> (r: Result<(), Error>)
        ensures
            r == outcome_of(status),
            final(self).place() == old(self).place(),
            final(self).path_view() == old(self).path_view(),
            final(self).mode_view() == old(self).mode_view(),
            final(self).is_closed() == old(self).is_closed(),
            r is Ok ==> final(self).version_view() == Version(version)
                && !final(self).upgrade_pending(),
            r is Err ==> final(self).version_view() == old(self).version_view()
                && final(self).upgrade_pending() == old(self).upgrade_pending(),
    {
        let r = check_status(status);
        if r.is_ok() {
            self.version = Version(version);
            self.needs_upgrade = false;
        }
        r
    }

    /// The directory that the native lookup answered, owned by this
    /// database as `form` says: none where the path is not in the index.
    pub fn directory(&self, status: u32, raw: u64, form: Form, reg: &mut Registry) -> (r: Result<
        Option<Directory>,
        Error,
    >)
        requires
            well_formed(old(reg).nodes()),
            can_derive(old(reg).nodes(), Marker { owner: self.place(), form }),
        ensures
            well_formed(final(reg).nodes()),
            status != STATUS_SUCCESS ==> r == Err::<Option<Directory>, Error>(error_of(status)),
            status == STATUS_SUCCESS && raw == 0 ==> r matches Ok(None),
            r matches Ok(Some(d)) ==> d.resource.place() == old(reg).nodes().len()
                && d.resource.marker() == (Marker { owner: self.place(), form }) && registered(
                old(reg).nodes(),
                final(reg).nodes(),
                raw,
                Marker { owner: self.place(), form },
            ),
            status == STATUS_SUCCESS && raw != 0 ==> r matches Ok(Some(_)),
            !(r matches Ok(Some(_))) ==> final(reg).nodes() == old(reg).nodes(),
    {
        if status != STATUS_SUCCESS {
            return Err(error_from_status(status));
        }
        if raw == 0 {
            Ok(None)
        } else {
            match Directory::from_ptr(raw, Marker { owner: self.place, form }, reg) {
                Ok(d) => Ok(Some(d)),
                Err(e) => Err(e),
            }
        }
    }

    /// The query string as the native parser takes it.
    pub fn query_string(query_string: &str) -> (r: Result<Vec<u8>, Error>)
        ensures
            r is Err <==> query_string.spec_bytes().contains(0u8),
            r matches Err(e) ==> e == Error::InvalidArgument,
            r matches Ok(v) ==> v@ == terminated(query_string.spec_bytes()),
    {
        native_string(query_string)
    }

    /// The query that the native parser made, owned by this database as
    /// `form` says.
    pub fn create_query(&self, raw: u64, form: Form, reg: &mut Registry) -> (r: Result<Query, Error>)
        requires
            well_formed(old(reg).nodes()),
            can_derive(old(reg).nodes(), Marker { owner: self.place(), form }),
        ensures
            well_formed(final(reg).nodes()),
            r is Err <==> raw == 0,
            r matches Err(e) ==> e == Error::NullHandle && final(reg).nodes() == old(
                reg,
            ).nodes(),
            r matches Ok(q) ==> q.resource.place() == old(reg).nodes().len()
                && q.resource.marker() == (Marker { owner: self.place(), form }) && registered(
                old(reg).nodes(),
                final(reg).nodes(),
                raw,
                Marker { owner: self.place(), form },
            ),
    {
        Query::from_ptr(raw, Marker { owner: self.place, form }, reg)
    }

    /// The sequence of every tag in the index, owned by this database as
    /// `form` says, before its first element.
    pub fn all_tags(&self, raw: u64, form: Form, reg: &mut Registry) -> (r: Result<Tags, Error>)
        requires
            well_formed(old(reg).nodes()),
            can_derive(old(reg).nodes(), Marker { owner: self.place(), form }),
        ensures
            well_formed(final(reg).nodes()),
            r is Err <==> raw == 0,
            r matches Err(e) ==> e == Error::NullHandle && final(reg).nodes() == old(
                reg,
            ).nodes(),
            r matches Ok(t) ==> t.resource.place() == old(reg).nodes().len()
                && t.resource.marker() == (Marker { owner: self.place(), form }) && registered(
                old(reg).nodes(),
                final(reg).nodes(),
                raw,
                Marker { owner: self.place(), form },
            ) && !t.cursor.exhausted && t.cursor.taken == 0,
    {
        Tags::from_ptr(raw, Marker { owner: self.place, form }, reg)
    }

    /// The place of the database's handle in the registry.
    pub fn place_of(&self) -> (r: usize)
        ensures
            r == self.place(),
    {
        self.place
    }
}

} // verus!
