//! The decisions behind the project catalog lock and the `flox develop` command.
//!
//! [catalog_lock] speaks of the lock itself; [ensure] is how a build comes by the lock it
//! consumes, and [project_lock] how the committed lock is created. [develop] holds the
//! command and what it says, [session] the opening of a development shell, and
//! [session_laws] what that comes to.

pub mod build_lock;
pub mod catalog_lock;
pub mod dev_env;
pub mod develop;
pub mod develop_error;
pub mod develop_events;
pub mod ensure;
pub mod error;
pub mod order;
pub mod outside;
pub mod project_lock;
pub mod rcfile;
pub mod references;
pub mod scan;
pub mod session;
pub mod session_laws;
pub mod target;
pub mod text;
pub mod text_map;
