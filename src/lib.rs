//! Running jobs on a bounded set of isolated workers.
//!
//! A [`Pool`] hands out exclusive claims on lazily created workers. A job's
//! context crosses into a worker as a [`Postable`]: its boundary [`Value`]
//! plus the objects transferred with it. The job's [`Task`] resolves exactly
//! once, to the job's output or to an [`Error`].

pub mod error;
pub mod once;
pub mod pool;
pub mod post;
pub mod registry;
pub mod task;
pub mod value;

pub use error::Error;
pub use once::Once;
pub use pool::{Checkout, Guard, Pool};
pub use post::{AsJs, Post, Postable};
pub use registry::Registry;
pub use task::{prepare, resolve, Outcome, Task};
pub use value::Value;
