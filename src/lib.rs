// Ownership and lifetime rules for the native handles of a mail index.
//
// `guard` wraps one non-null native handle; `ownership` is the registry that
// owns every handle of a database's resource tree and decides, as bindings
// go, which handles to release and in what order; `resource`, `database` and
// `directory` turn the native library's answers into registered resources;
// `error` and `path` translate status codes and encode strings for native
// calls.

pub mod database;
pub mod directory;
pub mod error;
pub mod guard;
pub mod ownership;
pub mod path;
pub mod resource;
