//! A minimal safety layer over raw file-descriptor operations.
//!
//! The crate verifies the decision logic that surrounds the platform
//! calls `open`, `read`, `write` and `lseek`: composing open-mode flag
//! masks, null-terminating path strings, checking requested transfer
//! lengths against buffer capacity, mapping seek requests to the
//! platform's origin codes, and turning raw return values into results.
//! The platform calls themselves are left to the embedding program,
//! which feeds their raw return values back into the verified
//! interpretation functions.

pub mod io;
pub mod options;
pub mod path;

pub use io::OsError;
pub use io::SeekRequest;
pub use io::bounded_io_outcome;
pub use io::fsize_finish;
pub use io::open_outcome;
pub use io::seek_outcome;
pub use io::seek_plan;
pub use io::transfer_request;
pub use io::typed_io_outcome;
pub use options::ExtOpenOptions;
pub use options::O_APPEND;
pub use options::O_ASYNC;
pub use options::O_CREAT;
pub use options::O_DIRECTORY;
pub use options::O_EXCL;
pub use options::O_NOCTTY;
pub use options::O_NOFOLLOW;
pub use options::O_NONBLOCK;
pub use options::O_RDWR;
pub use options::O_SYNC;
pub use options::O_TRUNC;
pub use options::O_WRONLY;
pub use options::SEEK_CUR;
pub use options::SEEK_END;
pub use options::SEEK_SET;
pub use path::is_str_null_terminated;
pub use path::terminated_path;
