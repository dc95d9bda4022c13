//! General utility functions used internally throughout the crate, such as
//! writing to sysfs files.
//!
//! The access to a file is a function of the caller. One that writes takes
//! the file's path and the text for it; one that reads takes the path and
//! gives the file's content. Either reports a failure as an `IoFailure`,
//! which says no more than whether the file did open.

use crate::errors::{reported, Error, IoFailure, Operation};
use crate::text::{trim, trimmed};
use vstd::prelude::*;
use vstd::string::*;

verus! {

/// Whether `write` can be handed `text` for the file at `path`. Nothing is
/// asked of `write` for any other text or file, so that a function which is
/// given no more than this can call `write` with nothing else.
pub open spec fn accepts_write<W: FnOnce(&str, &str) -> Result<(), IoFailure>>(
    write: W,
    path: Seq<char>,
    text: Seq<char>,
) -> bool {
    forall|p: &str, t: &str| p@ == path && t@ == text ==> #[trigger] write.requires((p, t))
}

/// What an operation returns for the outcome of its write: success for a
/// write that was made, and else the failure with its context.
pub open spec fn write_result(
    outcome: Result<(), IoFailure>,
    path: Seq<char>,
    operation: Operation,
    r: Result<(), Error>,
) -> bool {
    match outcome {
        Ok(()) => r is Ok,
        Err(failure) => r matches Err(error) && reported(failure, path, operation, error),
    }
}

/// `r` is what comes of one call of `write`, with `text` for the file at
/// `path`.
pub open spec fn wrote<W: FnOnce(&str, &str) -> Result<(), IoFailure>>(
    write: W,
    path: Seq<char>,
    text: Seq<char>,
    operation: Operation,
    r: Result<(), Error>,
) -> bool {
    exists|p: &str, t: &str, outcome: Result<(), IoFailure>|
        p@ == path && t@ == text && #[trigger] write.ensures((p, t), outcome) && write_result(
            outcome,
            path,
            operation,
            r,
        )
}

/// Whether `read` can be handed the path `path`.
pub open spec fn accepts_read<R: FnOnce(&str) -> Result<String, IoFailure>>(
    read: R,
    path: Seq<char>,
) -> bool {
    forall|p: &str| p@ == path ==> #[trigger] read.requires((p,))
}

/// What a read returns for the outcome of the access: the content without
/// the white space around it, or the failure with its context.
pub open spec fn read_result(
    outcome: Result<String, IoFailure>,
    path: Seq<char>,
    operation: Operation,
    r: Result<String, Error>,
) -> bool {
    match outcome {
        Ok(content) => r matches Ok(value) && value@ == trim(content@),
        Err(failure) => r matches Err(error) && reported(failure, path, operation, error),
    }
}

/// `r` is what comes of one call of `read`, for the file at `path`.
pub open spec fn did_read<R: FnOnce(&str) -> Result<String, IoFailure>>(
    read: R,
    path: Seq<char>,
    operation: Operation,
    r: Result<String, Error>,
) -> bool {
    exists|p: &str, outcome: Result<String, IoFailure>|
        p@ == path && #[trigger] read.ensures((p,), outcome) && read_result(
            outcome,
            path,
            operation,
            r,
        )
}

/// What names a sysfs device file that can be written.
pub trait Writeable: Sized {
    /// The path of the file.
    spec fn path(self) -> Seq<char>;

    /// Writes data to a sysfs device file, by one call of `write` with the
    /// file's path and `data`, for the operation `operation`.
    fn write_file<W: FnOnce(&str, &str) -> Result<(), IoFailure>>(
        self,
        data: &str,
        operation: Operation,
        write: W,
    ) -> (r: Result<(), Error>)
        requires
            accepts_write(write, self.path(), data@),
        ensures
            wrote(write, self.path(), data@, operation, r),
    ;
}

/// What names a sysfs device file that can be read.
pub trait Readable: Sized {
    /// The path of the file.
    spec fn path(self) -> Seq<char>;

    /// Reads from a sysfs device file, by one call of `read` with the file's
    /// path, for the operation `operation`, and takes the white space off
    /// both ends of what was read.
    fn read_file<R: FnOnce(&str) -> Result<String, IoFailure>>(
        self,
        operation: Operation,
        read: R,
    ) -> (r: Result<String, Error>)
        requires
            accepts_read(read, self.path()),
        ensures
            did_read(read, self.path(), operation, r),
    ;
}

impl<'a> Writeable for &'a str {
    open spec fn path(self) -> Seq<char> {
        self@
    }

    /// Writes data to a sysfs device file.
    fn write_file<W: FnOnce(&str, &str) -> Result<(), IoFailure>>(
        self,
        data: &str,
        operation: Operation,
        write: W,
    ) -> (r: Result<(), Error>) {
        let outcome = write(self, data);
        let r = match outcome {
            Ok(()) => Ok(()),
            Err(failure) => Err(Error::from_io(failure, self, operation)),
        };
        assert(write.ensures((self, data), outcome) && write_result(
            outcome,
            self@,
            operation,
            r,
        ));
        r
    }
}

impl<'a> Readable for &'a str {
    open spec fn path(self) -> Seq<char> {
        self@
    }

    /// Reads from a sysfs device file.
    fn read_file<R: FnOnce(&str) -> Result<String, IoFailure>>(
        self,
        operation: Operation,
        read: R,
    ) -> (r: Result<String, Error>) {
        let outcome = read(self);
        let r = match &outcome {
            Ok(content) => Ok(trimmed(content.as_str()).to_owned()),
            Err(failure) => Err(Error::from_io(*failure, self, operation)),
        };
        assert(read.ensures((self,), outcome) && read_result(outcome, self@, operation, r));
        r
    }
}

} // verus!
