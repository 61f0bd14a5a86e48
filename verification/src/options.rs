//! The open-flag builder: a bitmask of open-mode options accumulated
//! through chained, consuming configuration calls.
//!
//! The flag values are the ones the target platform's `open` call
//! interprets (the usual Linux encoding of the `O_*` constants); the
//! test suite holds them against the platform's own definitions.

use vstd::prelude::*;

verus! {

/// Append on each write.
pub const O_APPEND: i32 = 0o2000;

/// Signal-driven I/O notification.
pub const O_ASYNC: i32 = 0o20000;

/// Create the file if it does not exist.
pub const O_CREAT: i32 = 0o100;

/// Fail unless the path names a directory.
pub const O_DIRECTORY: i32 = 0o200000;

/// With `O_CREAT`, fail if the file already exists.
pub const O_EXCL: i32 = 0o200;

/// Do not make the opened terminal the controlling tty.
pub const O_NOCTTY: i32 = 0o400;

/// Fail if the final path component is a symbolic link.
pub const O_NOFOLLOW: i32 = 0o400000;

/// Open in non-blocking mode.
pub const O_NONBLOCK: i32 = 0o4000;

/// Write calls complete only once the data reaches the device.
pub const O_SYNC: i32 = 0o4010000;

/// Truncate the file to length zero on open.
pub const O_TRUNC: i32 = 0o1000;

/// Open for writing only.
pub const O_WRONLY: i32 = 0o1;

/// Open for reading and writing.
pub const O_RDWR: i32 = 0o2;

/// Seek origin: the start of the file.
pub const SEEK_SET: i32 = 0;

/// Seek origin: the current position.
pub const SEEK_CUR: i32 = 1;

/// Seek origin: the end of the file.
pub const SEEK_END: i32 = 2;

/// A set of open-mode options for the platform `open` call, built up
/// one flag at a time.
///
/// A fresh value holds no flags, so absent an explicit write-mode
/// selection the platform's read-only default applies.  Each
/// configuration method consumes the builder and returns one with
/// exactly one more bit OR'ed into the mask; the embedding program
/// reads the finished mask through [`ExtOpenOptions::flags`] and hands
/// it to the platform call.
pub struct ExtOpenOptions {
    options: i32,
}

impl ExtOpenOptions {
    /// The accumulated flag mask.
    pub closed spec fn mask(&self) -> i32 {
        self.options
    }

    /// A builder with no flags set.
    pub fn new() -> (r: ExtOpenOptions)
        ensures
            r.mask() == 0,
    {
        ExtOpenOptions { options: 0 }
    }

    /// Adds the append flag.
    pub fn append(self) -> (r: ExtOpenOptions)
        ensures
            r.mask() == (self.mask() | O_APPEND),
    {
        ExtOpenOptions { options: self.options | O_APPEND }
    }

    /// Adds the signal-driven I/O flag.
    pub fn async_notify(self) -> (r: ExtOpenOptions)
        ensures
            r.mask() == (self.mask() | O_ASYNC),
    {
        ExtOpenOptions { options: self.options | O_ASYNC }
    }

    /// Adds the create flag.
    pub fn create(self) -> (r: ExtOpenOptions)
        ensures
            r.mask() == (self.mask() | O_CREAT),
    {
        ExtOpenOptions { options: self.options | O_CREAT }
    }

    /// Adds the directory-only flag.
    pub fn direct(self) -> (r: ExtOpenOptions)
        ensures
            r.mask() == (self.mask() | O_DIRECTORY),
    {
        ExtOpenOptions { options: self.options | O_DIRECTORY }
    }

    /// Adds the exclusive-create flag.
    pub fn excl(self) -> (r: ExtOpenOptions)
        ensures
            r.mask() == (self.mask() | O_EXCL),
    {
        ExtOpenOptions { options: self.options | O_EXCL }
    }

    /// Adds the no-controlling-tty flag.
    pub fn noctty(self) -> (r: ExtOpenOptions)
        ensures
            r.mask() == (self.mask() | O_NOCTTY),
    {
        ExtOpenOptions { options: self.options | O_NOCTTY }
    }

    /// Adds the no-symlink-follow flag.
    pub fn nofollow(self) -> (r: ExtOpenOptions)
        ensures
            r.mask() == (self.mask() | O_NOFOLLOW),
    {
        ExtOpenOptions { options: self.options | O_NOFOLLOW }
    }

    /// Adds the non-blocking flag.
    pub fn nonblocking(self) -> (r: ExtOpenOptions)
        ensures
            r.mask() == (self.mask() | O_NONBLOCK),
    {
        ExtOpenOptions { options: self.options | O_NONBLOCK }
    }

    /// Adds the synchronous-writes flag.
    pub fn sync(self) -> (r: ExtOpenOptions)
        ensures
            r.mask() == (self.mask() | O_SYNC),
    {
        ExtOpenOptions { options: self.options | O_SYNC }
    }

    /// Adds the truncate-on-open flag.
    pub fn truncating(self) -> (r: ExtOpenOptions)
        ensures
            r.mask() == (self.mask() | O_TRUNC),
    {
        ExtOpenOptions { options: self.options | O_TRUNC }
    }

    /// Adds the write-only flag.
    pub fn write_only(self) -> (r: ExtOpenOptions)
        ensures
            r.mask() == (self.mask() | O_WRONLY),
    {
        ExtOpenOptions { options: self.options | O_WRONLY }
    }

    /// Adds the read-write flag.
    pub fn readwrite(self) -> (r: ExtOpenOptions)
        ensures
            r.mask() == (self.mask() | O_RDWR),
    {
        ExtOpenOptions { options: self.options | O_RDWR }
    }

    /// The finished mask, as the platform `open` call takes it.
    pub fn flags(&self) -> (r: i32)
        ensures
            r == self.mask(),
    {
        self.options
    }

    /// Consumes the builder and prepares the platform `open` call for
    /// `path`: the zero-terminated byte form of the path, and the
    /// accumulated flag mask.  The path must be non-empty; only the
    /// call itself is left to the embedding program.
    pub fn open_request(self, path: &str) -> (r: (Vec<u8>, i32))
        requires
            path@.len() > 0,
        ensures
            r.0@ == crate::path::normalized_path(path@),
            crate::path::null_terminated_bytes(r.0@),
            r.1 == self.mask(),
    {
        (crate::path::terminated_path(path), self.options)
    }
}

/// Configuration methods commute: OR-ing two flags into a mask gives
/// the same mask in either order.
pub proof fn lemma_flag_or_commutes(m: i32, a: i32, b: i32)
    ensures
        ((m | a) | b) == ((m | b) | a),
{
    assert(((m | a) | b) == ((m | b) | a)) by (bit_vector);
}

/// Configuration methods are idempotent: OR-ing a flag into a mask
/// that already holds it changes nothing.
pub proof fn lemma_flag_or_idempotent(m: i32, a: i32)
    ensures
        ((m | a) | a) == (m | a),
{
    assert(((m | a) | a) == (m | a)) by (bit_vector);
}

} // verus!
