use vstd::prelude::*;
use crate::error::Error;
use crate::guard::ResourceGuard;
use crate::ownership::{can_derive, well_formed, Marker, Node, Registry};

verus! {

/// A derived resource: its place in the registry, which owns its handle,
/// and the link to its owner.
#[derive(Debug)]
pub struct Resource {
    place: usize,
    marker: Marker,
}

/// The registry after a derived handle `raw` was registered under `m`.
pub open spec fn registered(before: Seq<Node>, after: Seq<Node>, raw: u64, m: Marker) -> bool {
    after == before.push(Node { handle: raw, marker: Some(m), dropped: false, released: false })
}

impl Resource {
    pub closed spec fn place(&self) -> usize {
        self.place
    }

    pub closed spec fn marker(&self) -> Marker {
        self.marker
    }

    /// Registers a handle that the native library handed back for a resource
    /// owned as `marker` says. A null handle is refused before any guard
    /// exists, so nothing is ever released for it.
    pub fn from_ptr(raw: u64, marker: Marker, reg: &mut Registry) -> (r: Result<Resource, Error>)
        requires
            well_formed(old(reg).nodes()),
            can_derive(old(reg).nodes(), marker),
        ensures
            well_formed(final(reg).nodes()),
            r is Err <==> raw == 0,
            r matches Err(e) ==> e == Error::NullHandle && final(reg).nodes() == old(
                reg,
            ).nodes(),
            r matches Ok(res) ==> res.place() == old(reg).nodes().len() && res.marker() == marker
                && registered(old(reg).nodes(), final(reg).nodes(), raw, marker),
    {
        match ResourceGuard::new(raw) {
            Some(guard) => {
                let place = reg.derive(marker, guard);
                Ok(Resource { place, marker })
            },
            None => Err(Error::NullHandle),
        }
    }

    /// The place of the resource's handle in the registry.
    pub fn place_of(&self) -> (r: usize)
        ensures
            r == self.place(),
    {
        self.place
    }

    /// The link to the owner.
    pub fn owner(&self) -> (r: Marker)
        ensures
            r == self.marker(),
    {
        self.marker
    }
}

/// Where a single-pass native sequence stands.
#[derive(Debug, Clone, Copy, PartialEq, Eq, Structural)]
pub struct Cursor {
    /// The sequence has signalled its end.
    pub exhausted: bool,
    /// How many elements it has produced.
    pub taken: u64,
}

impl Cursor {
    /// A sequence before its first element.
    pub fn new() -> (r: Cursor)
        ensures
            !r.exhausted,
            r.taken == 0,
    {
        Cursor { exhausted: false, taken: 0 }
    }

    /// One step of the sequence, given whether the native sequence still
    /// stands on an element. Returns whether that element is to be taken.
    ///
    /// Once the end has been seen the sequence stays at its end, whatever
    /// the native side reports afterwards.
    pub fn advance(&mut self, valid: bool) -> (r: bool)
        requires
            old(self).taken < u64::MAX,
        ensures
            r == (!old(self).exhausted && valid),
            final(self).exhausted == !r,
            final(self).taken == old(self).taken + (if r { 1int } else { 0int }),
    {
        if self.exhausted || !valid {
            self.exhausted = true;
            false
        } else {
            self.taken = self.taken + 1;
            true
        }
    }
}

/// A single-pass sequence of tags.
#[derive(Debug)]
pub struct Tags {
    pub resource: Resource,
    pub cursor: Cursor,
}

/// A single-pass sequence of file names.
#[derive(Debug)]
pub struct Filenames {
    pub resource: Resource,
    pub cursor: Cursor,
}

/// A parsed search query.
#[derive(Debug)]
pub struct Query {
    pub resource: Resource,
}

impl Tags {
    /// Registers the tag sequence for a handle, before its first element.
    pub fn from_ptr(raw: u64, marker: Marker, reg: &mut Registry) -> (r: Result<Tags, Error>)
        requires
            well_formed(old(reg).nodes()),
            can_derive(old(reg).nodes(), marker),
        ensures
            well_formed(final(reg).nodes()),
            r is Err <==> raw == 0,
            r matches Err(e) ==> e == Error::NullHandle && final(reg).nodes() == old(
                reg,
            ).nodes(),
            r matches Ok(t) ==> t.resource.place() == old(reg).nodes().len()
                && t.resource.marker() == marker && registered(
                old(reg).nodes(),
                final(reg).nodes(),
                raw,
                marker,
            ) && t.cursor == (Cursor { exhausted: false, taken: 0 }),
    {
        match Resource::from_ptr(raw, marker, reg) {
            Ok(resource) => Ok(Tags { resource, cursor: Cursor::new() }),
            Err(e) => Err(e),
        }
    }
}

impl Filenames {
    /// Registers the file-name sequence for a handle, before its first
    /// element.
    pub fn from_ptr(raw: u64, marker: Marker, reg: &mut Registry) -> (r: Result<Filenames, Error>)
        requires
            well_formed(old(reg).nodes()),
            can_derive(old(reg).nodes(), marker),
        ensures
            well_formed(final(reg).nodes()),
            r is Err <==> raw == 0,
            r matches Err(e) ==> e == Error::NullHandle && final(reg).nodes() == old(
                reg,
            ).nodes(),
            r matches Ok(f) ==> f.resource.place() == old(reg).nodes().len()
                && f.resource.marker() == marker && registered(
                old(reg).nodes(),
                final(reg).nodes(),
                raw,
                marker,
            ) && f.cursor == (Cursor { exhausted: false, taken: 0 }),
    {
        match Resource::from_ptr(raw, marker, reg) {
            Ok(resource) => Ok(Filenames { resource, cursor: Cursor::new() }),
            Err(e) => Err(e),
        }
    }
}

impl Query {
    /// Registers the query for a handle.
    pub fn from_ptr(raw: u64, marker: Marker, reg: &mut Registry) -> (r: Result<Query, Error>)
        requires
            well_formed(old(reg).nodes()),
            can_derive(old(reg).nodes(), marker),
        ensures
            well_formed(final(reg).nodes()),
            r is Err <==> raw == 0,
            r matches Err(e) ==> e == Error::NullHandle && final(reg).nodes() == old(
                reg,
            ).nodes(),
            r matches Ok(q) ==> q.resource.place() == old(reg).nodes().len()
                && q.resource.marker() == marker && registered(
                old(reg).nodes(),
                final(reg).nodes(),
                raw,
                marker,
            ),
    {
        match Resource::from_ptr(raw, marker, reg) {
            Ok(resource) => Ok(Query { resource }),
            Err(e) => Err(e),
        }
    }
}

} // verus!
