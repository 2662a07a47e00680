//! Verified core of a lockfile tarball downloader.
//!
//! The library holds the decision logic of the downloader: deriving a
//! package's display name from its installation path key, computing the
//! archive file name, the bounded-retry policy of the fetcher, the
//! per-record download task's step decisions, and the dispatcher's
//! record selection and outcome aggregation. The surrounding process
//! (argument handling, lockfile decoding, network and filesystem calls)
//! feeds these functions plain values and acts on their answers.

pub mod dispatch;
pub mod fetch;
pub mod naming;
pub mod records;
pub mod task;

pub use naming::derive_package_name;
pub use naming::tarball_file_name;
