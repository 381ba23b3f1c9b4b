use vstd::prelude::*;
use crate::error::Error;
use crate::ownership::{can_derive, well_formed, Form, Marker, Registry};
use crate::resource::{registered, Filenames, Resource};

verus! {

/// A directory entry of the index, owned by the database that looked it up.
#[derive(Debug)]
pub struct Directory {
    pub resource: Resource,
}

impl Directory {
    /// Registers the directory for a handle, owned as `marker` says; a null
    /// handle is refused.
    pub fn from_ptr(raw: u64, marker: Marker, reg: &mut Registry) -> (r: Result<Directory, Error>)
        requires
            well_formed(old(reg).nodes()),
            can_derive(old(reg).nodes(), marker),
        ensures
            well_formed(final(reg).nodes()),
            r is Err <==> raw == 0,
            r matches Err(e) ==> e == Error::NullHandle && final(reg).nodes() == old(
                reg,
            ).nodes(),
            r matches Ok(d) ==> d.resource.place() == old(reg).nodes().len()
                && d.resource.marker() == marker && registered(
                old(reg).nodes(),
                final(reg).nodes(),
                raw,
                marker,
            ),
    {
        match Resource::from_ptr(raw, marker, reg) {
            Ok(resource) => Ok(Directory { resource }),
            Err(e) => Err(e),
        }
    }

    /// The sequence of this directory's subdirectories that the native
    /// library handed back, owned by this directory as `form` says: one
    /// level below it in the tree.
    pub fn child_directories(&self, raw: u64, form: Form, reg: &mut Registry) -> (r: Result<
        Filenames,
        Error,
    >)
        requires
            well_formed(old(reg).nodes()),
            can_derive(old(reg).nodes(), Marker { owner: self.resource.place(), form }),
        ensures
            well_formed(final(reg).nodes()),
            r is Err <==> raw == 0,
            r matches Err(e) ==> e == Error::NullHandle && final(reg).nodes() == old(
                reg,
            ).nodes(),
            r matches Ok(f) ==> f.resource.place() == old(reg).nodes().len()
                && f.resource.marker() == (Marker { owner: self.resource.place(), form })
                && registered(
                old(reg).nodes(),
                final(reg).nodes(),
                raw,
                Marker { owner: self.resource.place(), form },
            ) && !f.cursor.exhausted && f.cursor.taken == 0,
    {
        let marker = Marker { owner: self.resource.place_of(), form };
        Filenames::from_ptr(raw, marker, reg)
    }
}

} // verus!
