//! Client-side runtime of a database driver: server discovery and
//! monitoring, connection pooling, server selection and retry decisions.
use vstd::prelude::*;

pub mod description;
pub mod topology;
pub mod pool;
pub mod selection;
pub mod retry;
pub mod monitor;
pub mod concern;

verus! {

} // verus!
