//! Directory abstraction for a mail platform: the principal record, the
//! unified error space of the backends, the configuration of their
//! connection pools and the decisions of bind-based authentication.

pub mod bind;
pub mod error;
pub mod pool;
pub mod principal;

pub use error::{Diagnostic, DirectoryError, ImapError, Result};
pub use pool::{PoolConfig, PoolConfigError};
pub use principal::{Principal, Type};
