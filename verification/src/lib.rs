//! Resolves, for a project published through GitHub releases, which asset of
//! a release belongs on the host, and where on disk it is to be installed.

pub mod error;
pub mod http;
pub mod info;
pub mod pipeline;
pub mod platform;
pub mod release;
pub mod target;
