//! The filesystem capability interface: one method per protocol operation.
//!
//! The dispatcher decodes a message, calls exactly one of these methods, and
//! encodes whatever the method returns.  Errors are OS-style codes: a method
//! that fails returns `Err` with a positive errno, and the dispatcher sends
//! it back negated in the reply header.  The dispatcher's contracts hold for
//! every implementation of this trait; nothing is assumed about what these
//! methods return.
//!
//! Names arrive as the raw bytes of the message's zero-terminated strings.

use vstd::prelude::*;

verus! {

use crate::wire::{
    AttrOut, BmapOut, EntryOut, OpenOut, SetattrIn, StatfsOut, XtimesOut,
};

pub trait Filesystem {
    /// Called once during INIT, before the session is marked initialized; an
    /// error here is sent back and leaves the session uninitialized.
    fn init(&mut self) -> Result<(), i32>;

    /// Called once on DESTROY; the session is torn down afterwards.
    fn destroy(&mut self);

    /// Look `name` up under the directory `parent`.
    fn lookup(&mut self, parent: u64, name: Vec<u8>) -> Result<EntryOut, i32>;

    /// Drop `nlookup` references to a node.  Fire-and-forget: no reply is
    /// ever sent for this operation.
    fn forget(&mut self, nodeid: u64, nlookup: u64);

    /// Read the attributes of a node.
    fn getattr(&mut self, nodeid: u64) -> Result<AttrOut, i32>;

    /// Change the attributes selected by `attr.valid`.
    fn setattr(&mut self, nodeid: u64, attr: SetattrIn) -> Result<AttrOut, i32>;

    /// Read the target of a symbolic link.
    fn readlink(&mut self, nodeid: u64) -> Result<Vec<u8>, i32>;

    /// Create a device or special node.
    fn mknod(&mut self, parent: u64, name: Vec<u8>, mode: u32, rdev: u32) -> Result<EntryOut, i32>;

    /// Create a directory.
    fn mkdir(&mut self, parent: u64, name: Vec<u8>, mode: u32) -> Result<EntryOut, i32>;

    /// Remove a file.
    fn unlink(&mut self, parent: u64, name: Vec<u8>) -> Result<(), i32>;

    /// Remove a directory.
    fn rmdir(&mut self, parent: u64, name: Vec<u8>) -> Result<(), i32>;

    /// Create a symbolic link.
    fn symlink(&mut self, parent: u64, name: Vec<u8>, link: Vec<u8>) -> Result<EntryOut, i32>;

    /// Move an entry to a new parent or name.
    fn rename(
        &mut self,
        parent: u64,
        name: Vec<u8>,
        newparent: u64,
        newname: Vec<u8>,
    ) -> Result<(), i32>;

    /// Create a hard link to an existing node.
    fn link(&mut self, nodeid: u64, newparent: u64, newname: Vec<u8>) -> Result<EntryOut, i32>;

    /// Open a file.
    fn open(&mut self, nodeid: u64, flags: u32) -> Result<OpenOut, i32>;

    /// Read up to `size` bytes from an open file.
    fn read(&mut self, nodeid: u64, fh: u64, offset: u64, size: u32) -> Result<Vec<u8>, i32>;

    /// Write `data` to an open file; returns how many bytes were accepted.
    fn write(
        &mut self,
        nodeid: u64,
        fh: u64,
        offset: u64,
        data: Vec<u8>,
        write_flags: u32,
    ) -> Result<u32, i32>;

    /// Flush cached data of an open file.
    fn flush(&mut self, nodeid: u64, fh: u64, lock_owner: u64) -> Result<(), i32>;

    /// Release an open file.
    fn release(
        &mut self,
        nodeid: u64,
        fh: u64,
        flags: u32,
        lock_owner: u64,
        flush: bool,
    ) -> Result<(), i32>;

    /// Synchronize an open file; `datasync` limits the sync to file data.
    fn fsync(&mut self, nodeid: u64, fh: u64, datasync: bool) -> Result<(), i32>;

    /// Open a directory.
    fn opendir(&mut self, nodeid: u64, flags: u32) -> Result<OpenOut, i32>;

    /// Read directory entries, already formatted into at most `size` bytes.
    fn readdir(&mut self, nodeid: u64, fh: u64, offset: u64, size: u32) -> Result<Vec<u8>, i32>;

    /// Release an open directory.
    fn releasedir(&mut self, nodeid: u64, fh: u64, flags: u32) -> Result<(), i32>;

    /// Synchronize an open directory.
    fn fsyncdir(&mut self, nodeid: u64, fh: u64, datasync: bool) -> Result<(), i32>;

    /// Read filesystem statistics.
    fn statfs(&mut self, nodeid: u64) -> Result<StatfsOut, i32>;

    /// Store an extended attribute.
    fn setxattr(
        &mut self,
        nodeid: u64,
        name: Vec<u8>,
        value: Vec<u8>,
        flags: u32,
        position: u32,
    ) -> Result<(), i32>;

    /// Read an extended attribute's value.
    fn getxattr(&mut self, nodeid: u64, name: Vec<u8>) -> Result<Vec<u8>, i32>;

    /// List extended attribute names.  The dispatcher currently answers the
    /// success path with `ENOSYS`; this limitation is deliberate.
    fn listxattr(&mut self, nodeid: u64) -> Result<(), i32>;

    /// Remove an extended attribute.
    fn removexattr(&mut self, nodeid: u64, name: Vec<u8>) -> Result<(), i32>;

    /// Check access permissions against `mask`.
    fn access(&mut self, nodeid: u64, mask: u32) -> Result<(), i32>;

    /// Map a block index of a file to a device block.
    fn bmap(&mut self, nodeid: u64, blocksize: u32, block: u64) -> Result<BmapOut, i32>;

    /// Set the volume name.
    fn setvolname(&mut self, name: Vec<u8>) -> Result<(), i32>;

    /// Atomically exchange two entries.
    fn exchange(
        &mut self,
        olddir: u64,
        oldname: Vec<u8>,
        newdir: u64,
        newname: Vec<u8>,
        options: u64,
    ) -> Result<(), i32>;

    /// Read backup and creation times of a node.
    fn getxtimes(&mut self, nodeid: u64) -> Result<XtimesOut, i32>;
}

} // verus!
