//! The wire schema: protocol constants, the operation-code mapping, the
//! fixed-size argument records of each request, and the reply records.
//!
//! All records use little-endian fields at fixed offsets.  Argument records
//! start right after the 40-byte request header.  Each decoder states exactly
//! which bytes of the message it reads, and each reply record states the exact
//! byte sequence it encodes to.

use vstd::prelude::*;

verus! {

use vstd::bytes::{spec_u32_to_le_bytes, spec_u64_to_le_bytes};
use crate::codec::{
    has_str, le32_at, le64_at, push_u32, push_u64, read_u32, read_u64, str_end,
};

/// Size of the request header that precedes every argument record.
pub const IN_HEADER_SIZE: usize = 40;

/// Size of the reply header that precedes every reply payload.
pub const OUT_HEADER_SIZE: usize = 16;

/// Protocol major version spoken by this driver.
pub const PROTO_MAJOR: u32 = 7;

/// Protocol minor version spoken by this driver.
pub const PROTO_MINOR: u32 = 8;

/// Lowest kernel major version accepted during INIT.
pub const MIN_PROTO_MAJOR: u32 = 7;

/// Lowest kernel minor version accepted when the major version sits exactly
/// on the floor.
pub const MIN_PROTO_MINOR: u32 = 6;

/// Largest write payload advertised during INIT; the read buffer must hold a
/// full header, this many data bytes, and some slack for argument records.
pub const MAX_WRITE_SIZE: u32 = 16 * 1024 * 1024;

/// Asynchronous reads are supported.
pub const FLAG_ASYNC_READ: u32 = 1;

/// Name lookup is case-insensitive.
pub const FLAG_CASE_INSENSITIVE: u32 = 32768;

/// Feature flags advertised during INIT.
pub const INIT_FLAGS: u32 = FLAG_ASYNC_READ | FLAG_CASE_INSENSITIVE;

/// RELEASE flag bit asking for a flush before the handle goes away.
pub const RELEASE_FLUSH: u32 = 1;

/// FSYNC flag bit restricting the sync to file data.
pub const FSYNC_DATA_ONLY: u32 = 1;

/// Input/output error.
pub const EIO: i32 = 5;

/// Result does not fit the caller's buffer.
pub const ERANGE: i32 = 34;

/// Operation not implemented.
pub const ENOSYS: i32 = 38;

/// Protocol version not supported.
pub const EPROTO: i32 = 71;

/// The closed set of operations a message can request.
///
/// `Unknown` stands for every wire value this driver does not handle; such a
/// message is answered with `ENOSYS` instead of being guessed at.
#[derive(Clone, Copy, Debug, PartialEq, Eq, Structural)]
pub enum Opcode {
    Lookup,
    Forget,
    Getattr,
    Setattr,
    Readlink,
    Symlink,
    Mknod,
    Mkdir,
    Unlink,
    Rmdir,
    Rename,
    Link,
    Open,
    Read,
    Write,
    Statfs,
    Release,
    Fsync,
    Setxattr,
    Getxattr,
    Listxattr,
    Removexattr,
    Flush,
    Init,
    Opendir,
    Readdir,
    Releasedir,
    Fsyncdir,
    Access,
    Bmap,
    Destroy,
    Setvolname,
    Getxtimes,
    Exchange,
    Unknown,
}

/// The operation requested by wire value `x`.
pub open spec fn spec_opcode_of(x: u32) -> Opcode {
    if x == 1 {
        Opcode::Lookup
    } else if x == 2 {
        Opcode::Forget
    } else if x == 3 {
        Opcode::Getattr
    } else if x == 4 {
        Opcode::Setattr
    } else if x == 5 {
        Opcode::Readlink
    } else if x == 6 {
        Opcode::Symlink
    } else if x == 8 {
        Opcode::Mknod
    } else if x == 9 {
        Opcode::Mkdir
    } else if x == 10 {
        Opcode::Unlink
    } else if x == 11 {
        Opcode::Rmdir
    } else if x == 12 {
        Opcode::Rename
    } else if x == 13 {
        Opcode::Link
    } else if x == 14 {
        Opcode::Open
    } else if x == 15 {
        Opcode::Read
    } else if x == 16 {
        Opcode::Write
    } else if x == 17 {
        Opcode::Statfs
    } else if x == 18 {
        Opcode::Release
    } else if x == 20 {
        Opcode::Fsync
    } else if x == 21 {
        Opcode::Setxattr
    } else if x == 22 {
        Opcode::Getxattr
    } else if x == 23 {
        Opcode::Listxattr
    } else if x == 24 {
        Opcode::Removexattr
    } else if x == 25 {
        Opcode::Flush
    } else if x == 26 {
        Opcode::Init
    } else if x == 27 {
        Opcode::Opendir
    } else if x == 28 {
        Opcode::Readdir
    } else if x == 29 {
        Opcode::Releasedir
    } else if x == 30 {
        Opcode::Fsyncdir
    } else if x == 34 {
        Opcode::Access
    } else if x == 37 {
        Opcode::Bmap
    } else if x == 38 {
        Opcode::Destroy
    } else if x == 61 {
        Opcode::Setvolname
    } else if x == 62 {
        Opcode::Getxtimes
    } else if x == 63 {
        Opcode::Exchange
    } else {
        Opcode::Unknown
    }
}

/// Map a wire value to the operation it requests; values outside the closed
/// set map to `Unknown` rather than being reinterpreted.
pub fn opcode_of(x: u32) -> (r: Opcode)
    ensures
        r == spec_opcode_of(x),
{
    match x {
        1 => Opcode::Lookup,
        2 => Opcode::Forget,
        3 => Opcode::Getattr,
        4 => Opcode::Setattr,
        5 => Opcode::Readlink,
        6 => Opcode::Symlink,
        8 => Opcode::Mknod,
        9 => Opcode::Mkdir,
        10 => Opcode::Unlink,
        11 => Opcode::Rmdir,
        12 => Opcode::Rename,
        13 => Opcode::Link,
        14 => Opcode::Open,
        15 => Opcode::Read,
        16 => Opcode::Write,
        17 => Opcode::Statfs,
        18 => Opcode::Release,
        20 => Opcode::Fsync,
        21 => Opcode::Setxattr,
        22 => Opcode::Getxattr,
        23 => Opcode::Listxattr,
        24 => Opcode::Removexattr,
        25 => Opcode::Flush,
        26 => Opcode::Init,
        27 => Opcode::Opendir,
        28 => Opcode::Readdir,
        29 => Opcode::Releasedir,
        30 => Opcode::Fsyncdir,
        34 => Opcode::Access,
        37 => Opcode::Bmap,
        38 => Opcode::Destroy,
        61 => Opcode::Setvolname,
        62 => Opcode::Getxtimes,
        63 => Opcode::Exchange,
        _ => Opcode::Unknown,
    }
}

/// Header that starts every request message.
#[derive(Clone, Copy, Debug, PartialEq, Eq, Structural)]
pub struct InHeader {
    pub len: u32,
    pub opcode: u32,
    pub unique: u64,
    pub nodeid: u64,
    pub uid: u32,
    pub gid: u32,
    pub pid: u32,
}

/// The header stored in the first 40 bytes of `s`.
pub open spec fn spec_in_header(s: Seq<u8>) -> InHeader {
    InHeader {
        len: le32_at(s, 0),
        opcode: le32_at(s, 4),
        unique: le64_at(s, 8),
        nodeid: le64_at(s, 16),
        uid: le32_at(s, 24),
        gid: le32_at(s, 28),
        pid: le32_at(s, 32),
    }
}

/// Decode the request header.
pub fn parse_in_header(data: &Vec<u8>) -> (h: InHeader)
    requires
        data@.len() >= IN_HEADER_SIZE,
    ensures
        h == spec_in_header(data@),
{
    InHeader {
        len: read_u32(data, 0),
        opcode: read_u32(data, 4),
        unique: read_u64(data, 8),
        nodeid: read_u64(data, 16),
        uid: read_u32(data, 24),
        gid: read_u32(data, 28),
        pid: read_u32(data, 32),
    }
}

/// INIT negotiation arguments.
#[derive(Clone, Copy, Debug, PartialEq, Eq, Structural)]
pub struct InitIn {
    pub major: u32,
    pub minor: u32,
    pub max_readahead: u32,
    pub flags: u32,
}

pub open spec fn spec_init_in(s: Seq<u8>) -> InitIn {
    InitIn {
        major: le32_at(s, 40),
        minor: le32_at(s, 44),
        max_readahead: le32_at(s, 48),
        flags: le32_at(s, 52),
    }
}

pub fn parse_init_in(data: &Vec<u8>) -> (a: InitIn)
    requires
        data@.len() >= 56,
    ensures
        a == spec_init_in(data@),
{
    InitIn {
        major: read_u32(data, 40),
        minor: read_u32(data, 44),
        max_readahead: read_u32(data, 48),
        flags: read_u32(data, 52),
    }
}

/// FORGET arguments.
#[derive(Clone, Copy, Debug, PartialEq, Eq, Structural)]
pub struct ForgetIn {
    pub nlookup: u64,
}

pub open spec fn spec_forget_in(s: Seq<u8>) -> ForgetIn {
    ForgetIn { nlookup: le64_at(s, 40) }
}

pub fn parse_forget_in(data: &Vec<u8>) -> (a: ForgetIn)
    requires
        data@.len() >= 48,
    ensures
        a == spec_forget_in(data@),
{
    ForgetIn { nlookup: read_u64(data, 40) }
}

/// SETATTR arguments; `valid` says which fields carry a new value.
#[derive(Clone, Copy, Debug, PartialEq, Eq, Structural)]
pub struct SetattrIn {
    pub valid: u32,
    pub fh: u64,
    pub size: u64,
    pub atime: u64,
    pub mtime: u64,
    pub atimensec: u32,
    pub mtimensec: u32,
    pub mode: u32,
    pub uid: u32,
    pub gid: u32,
    pub flags: u32,
}

pub open spec fn spec_setattr_in(s: Seq<u8>) -> SetattrIn {
    SetattrIn {
        valid: le32_at(s, 40),
        fh: le64_at(s, 48),
        size: le64_at(s, 56),
        atime: le64_at(s, 64),
        mtime: le64_at(s, 72),
        atimensec: le32_at(s, 80),
        mtimensec: le32_at(s, 84),
        mode: le32_at(s, 88),
        uid: le32_at(s, 92),
        gid: le32_at(s, 96),
        flags: le32_at(s, 100),
    }
}

pub fn parse_setattr_in(data: &Vec<u8>) -> (a: SetattrIn)
    requires
        data@.len() >= 104,
    ensures
        a == spec_setattr_in(data@),
{
    SetattrIn {
        valid: read_u32(data, 40),
        fh: read_u64(data, 48),
        size: read_u64(data, 56),
        atime: read_u64(data, 64),
        mtime: read_u64(data, 72),
        atimensec: read_u32(data, 80),
        mtimensec: read_u32(data, 84),
        mode: read_u32(data, 88),
        uid: read_u32(data, 92),
        gid: read_u32(data, 96),
        flags: read_u32(data, 100),
    }
}

/// MKNOD arguments.
#[derive(Clone, Copy, Debug, PartialEq, Eq, Structural)]
pub struct MknodIn {
    pub mode: u32,
    pub rdev: u32,
}

pub open spec fn spec_mknod_in(s: Seq<u8>) -> MknodIn {
    MknodIn { mode: le32_at(s, 40), rdev: le32_at(s, 44) }
}

pub fn parse_mknod_in(data: &Vec<u8>) -> (a: MknodIn)
    requires
        data@.len() >= 48,
    ensures
        a == spec_mknod_in(data@),
{
    MknodIn { mode: read_u32(data, 40), rdev: read_u32(data, 44) }
}

/// MKDIR arguments.
#[derive(Clone, Copy, Debug, PartialEq, Eq, Structural)]
pub struct MkdirIn {
    pub mode: u32,
}

pub open spec fn spec_mkdir_in(s: Seq<u8>) -> MkdirIn {
    MkdirIn { mode: le32_at(s, 40) }
}

pub fn parse_mkdir_in(data: &Vec<u8>) -> (a: MkdirIn)
    requires
        data@.len() >= 48,
    ensures
        a == spec_mkdir_in(data@),
{
    MkdirIn { mode: read_u32(data, 40) }
}

/// RENAME arguments: the directory the entry moves into.
#[derive(Clone, Copy, Debug, PartialEq, Eq, Structural)]
pub struct RenameIn {
    pub newdir: u64,
}

pub open spec fn spec_rename_in(s: Seq<u8>) -> RenameIn {
    RenameIn { newdir: le64_at(s, 40) }
}

pub fn parse_rename_in(data: &Vec<u8>) -> (a: RenameIn)
    requires
        data@.len() >= 48,
    ensures
        a == spec_rename_in(data@),
{
    RenameIn { newdir: read_u64(data, 40) }
}

/// LINK arguments: the node the new name points at.
#[derive(Clone, Copy, Debug, PartialEq, Eq, Structural)]
pub struct LinkIn {
    pub oldnodeid: u64,
}

pub open spec fn spec_link_in(s: Seq<u8>) -> LinkIn {
    LinkIn { oldnodeid: le64_at(s, 40) }
}

pub fn parse_link_in(data: &Vec<u8>) -> (a: LinkIn)
    requires
        data@.len() >= 48,
    ensures
        a == spec_link_in(data@),
{
    LinkIn { oldnodeid: read_u64(data, 40) }
}

/// OPEN and OPENDIR arguments.
#[derive(Clone, Copy, Debug, PartialEq, Eq, Structural)]
pub struct OpenIn {
    pub flags: u32,
    pub mode: u32,
}

pub open spec fn spec_open_in(s: Seq<u8>) -> OpenIn {
    OpenIn { flags: le32_at(s, 40), mode: le32_at(s, 44) }
}

pub fn parse_open_in(data: &Vec<u8>) -> (a: OpenIn)
    requires
        data@.len() >= 48,
    ensures
        a == spec_open_in(data@),
{
    OpenIn { flags: read_u32(data, 40), mode: read_u32(data, 44) }
}

/// READ and READDIR arguments.
#[derive(Clone, Copy, Debug, PartialEq, Eq, Structural)]
pub struct ReadIn {
    pub fh: u64,
    pub offset: u64,
    pub size: u32,
}

pub open spec fn spec_read_in(s: Seq<u8>) -> ReadIn {
    ReadIn { fh: le64_at(s, 40), offset: le64_at(s, 48), size: le32_at(s, 56) }
}

pub fn parse_read_in(data: &Vec<u8>) -> (a: ReadIn)
    requires
        data@.len() >= 64,
    ensures
        a == spec_read_in(data@),
{
    ReadIn { fh: read_u64(data, 40), offset: read_u64(data, 48), size: read_u32(data, 56) }
}

/// WRITE arguments; `size` declares the length of the trailing data.
#[derive(Clone, Copy, Debug, PartialEq, Eq, Structural)]
pub struct WriteIn {
    pub fh: u64,
    pub offset: u64,
    pub size: u32,
    pub write_flags: u32,
}

pub open spec fn spec_write_in(s: Seq<u8>) -> WriteIn {
    WriteIn {
        fh: le64_at(s, 40),
        offset: le64_at(s, 48),
        size: le32_at(s, 56),
        write_flags: le32_at(s, 60),
    }
}

pub fn parse_write_in(data: &Vec<u8>) -> (a: WriteIn)
    requires
        data@.len() >= 64,
    ensures
        a == spec_write_in(data@),
{
    WriteIn {
        fh: read_u64(data, 40),
        offset: read_u64(data, 48),
        size: read_u32(data, 56),
        write_flags: read_u32(data, 60),
    }
}

/// FLUSH arguments.
#[derive(Clone, Copy, Debug, PartialEq, Eq, Structural)]
pub struct FlushIn {
    pub fh: u64,
    pub lock_owner: u64,
}

pub open spec fn spec_flush_in(s: Seq<u8>) -> FlushIn {
    FlushIn { fh: le64_at(s, 40), lock_owner: le64_at(s, 56) }
}

pub fn parse_flush_in(data: &Vec<u8>) -> (a: FlushIn)
    requires
        data@.len() >= 64,
    ensures
        a == spec_flush_in(data@),
{
    FlushIn { fh: read_u64(data, 40), lock_owner: read_u64(data, 56) }
}

/// RELEASE and RELEASEDIR arguments.
#[derive(Clone, Copy, Debug, PartialEq, Eq, Structural)]
pub struct ReleaseIn {
    pub fh: u64,
    pub flags: u32,
    pub release_flags: u32,
    pub lock_owner: u64,
}

pub open spec fn spec_release_in(s: Seq<u8>) -> ReleaseIn {
    ReleaseIn {
        fh: le64_at(s, 40),
        flags: le32_at(s, 48),
        release_flags: le32_at(s, 52),
        lock_owner: le64_at(s, 56),
    }
}

pub fn parse_release_in(data: &Vec<u8>) -> (a: ReleaseIn)
    requires
        data@.len() >= 64,
    ensures
        a == spec_release_in(data@),
{
    ReleaseIn {
        fh: read_u64(data, 40),
        flags: read_u32(data, 48),
        release_flags: read_u32(data, 52),
        lock_owner: read_u64(data, 56),
    }
}

/// FSYNC and FSYNCDIR arguments.
#[derive(Clone, Copy, Debug, PartialEq, Eq, Structural)]
pub struct FsyncIn {
    pub fh: u64,
    pub fsync_flags: u32,
}

pub open spec fn spec_fsync_in(s: Seq<u8>) -> FsyncIn {
    FsyncIn { fh: le64_at(s, 40), fsync_flags: le32_at(s, 48) }
}

pub fn parse_fsync_in(data: &Vec<u8>) -> (a: FsyncIn)
    requires
        data@.len() >= 56,
    ensures
        a == spec_fsync_in(data@),
{
    FsyncIn { fh: read_u64(data, 40), fsync_flags: read_u32(data, 48) }
}

/// SETXATTR arguments; `size` declares the length of the trailing value.
#[derive(Clone, Copy, Debug, PartialEq, Eq, Structural)]
pub struct SetxattrIn {
    pub size: u32,
    pub flags: u32,
    pub position: u32,
}

pub open spec fn spec_setxattr_in(s: Seq<u8>) -> SetxattrIn {
    SetxattrIn { size: le32_at(s, 40), flags: le32_at(s, 44), position: le32_at(s, 48) }
}

pub fn parse_setxattr_in(data: &Vec<u8>) -> (a: SetxattrIn)
    requires
        data@.len() >= 56,
    ensures
        a == spec_setxattr_in(data@),
{
    SetxattrIn {
        size: read_u32(data, 40),
        flags: read_u32(data, 44),
        position: read_u32(data, 48),
    }
}

/// GETXATTR and LISTXATTR arguments: the caller's buffer size.
#[derive(Clone, Copy, Debug, PartialEq, Eq, Structural)]
pub struct GetxattrIn {
    pub size: u32,
}

pub open spec fn spec_getxattr_in(s: Seq<u8>) -> GetxattrIn {
    GetxattrIn { size: le32_at(s, 40) }
}

pub fn parse_getxattr_in(data: &Vec<u8>) -> (a: GetxattrIn)
    requires
        data@.len() >= 48,
    ensures
        a == spec_getxattr_in(data@),
{
    GetxattrIn { size: read_u32(data, 40) }
}

/// ACCESS arguments.
#[derive(Clone, Copy, Debug, PartialEq, Eq, Structural)]
pub struct AccessIn {
    pub mask: u32,
}

pub open spec fn spec_access_in(s: Seq<u8>) -> AccessIn {
    AccessIn { mask: le32_at(s, 40) }
}

pub fn parse_access_in(data: &Vec<u8>) -> (a: AccessIn)
    requires
        data@.len() >= 48,
    ensures
        a == spec_access_in(data@),
{
    AccessIn { mask: read_u32(data, 40) }
}

/// BMAP arguments.
#[derive(Clone, Copy, Debug, PartialEq, Eq, Structural)]
pub struct BmapIn {
    pub block: u64,
    pub blocksize: u32,
}

pub open spec fn spec_bmap_in(s: Seq<u8>) -> BmapIn {
    BmapIn { block: le64_at(s, 40), blocksize: le32_at(s, 48) }
}

pub fn parse_bmap_in(data: &Vec<u8>) -> (a: BmapIn)
    requires
        data@.len() >= 56,
    ensures
        a == spec_bmap_in(data@),
{
    BmapIn { block: read_u64(data, 40), blocksize: read_u32(data, 48) }
}

/// EXCHANGE arguments.
#[derive(Clone, Copy, Debug, PartialEq, Eq, Structural)]
pub struct ExchangeIn {
    pub olddir: u64,
    pub newdir: u64,
    pub options: u64,
}

pub open spec fn spec_exchange_in(s: Seq<u8>) -> ExchangeIn {
    ExchangeIn { olddir: le64_at(s, 40), newdir: le64_at(s, 48), options: le64_at(s, 56) }
}

pub fn parse_exchange_in(data: &Vec<u8>) -> (a: ExchangeIn)
    requires
        data@.len() >= 64,
    ensures
        a == spec_exchange_in(data@),
{
    ExchangeIn {
        olddir: read_u64(data, 40),
        newdir: read_u64(data, 48),
        options: read_u64(data, 56),
    }
}

/// True when the message holds every byte its operation's decoder reads:
/// the full argument record, each zero-terminated name, and trailing data of
/// exactly the declared length.
pub open spec fn wf_args(s: Seq<u8>, op: Opcode) -> bool {
    match op {
        Opcode::Init => s.len() >= 56,
        Opcode::Lookup => has_str(s, 40),
        Opcode::Forget => s.len() >= 48,
        Opcode::Getattr => true,
        Opcode::Setattr => s.len() >= 104,
        Opcode::Readlink => true,
        Opcode::Symlink => has_str(s, 40) && has_str(s, str_end(s, 40)),
        Opcode::Mknod => s.len() >= 48 && has_str(s, 48),
        Opcode::Mkdir => s.len() >= 48 && has_str(s, 48),
        Opcode::Unlink => has_str(s, 40),
        Opcode::Rmdir => has_str(s, 40),
        Opcode::Rename => s.len() >= 48 && has_str(s, 48) && has_str(s, str_end(s, 48)),
        Opcode::Link => s.len() >= 48 && has_str(s, 48),
        Opcode::Open => s.len() >= 48,
        Opcode::Read => s.len() >= 64,
        Opcode::Write => s.len() >= 64 && s.len() - 64 == spec_write_in(s).size,
        Opcode::Statfs => true,
        Opcode::Release => s.len() >= 64,
        Opcode::Fsync => s.len() >= 56,
        Opcode::Setxattr => s.len() >= 56 && has_str(s, 56) && s.len() - str_end(s, 56)
            == spec_setxattr_in(s).size,
        Opcode::Getxattr => s.len() >= 48 && has_str(s, 48),
        Opcode::Listxattr => s.len() >= 48,
        Opcode::Removexattr => has_str(s, 40),
        Opcode::Flush => s.len() >= 64,
        Opcode::Opendir => s.len() >= 48,
        Opcode::Readdir => s.len() >= 64,
        Opcode::Releasedir => s.len() >= 64,
        Opcode::Fsyncdir => s.len() >= 56,
        Opcode::Access => s.len() >= 48,
        Opcode::Bmap => s.len() >= 56,
        Opcode::Setvolname => has_str(s, 40),
        Opcode::Getxtimes => true,
        Opcode::Exchange => s.len() >= 64 && has_str(s, 64) && has_str(s, str_end(s, 64)),
        Opcode::Destroy => true,
        Opcode::Unknown => true,
    }
}

/// A message whose header and arguments can be decoded without underrun.
pub open spec fn wf_msg(s: Seq<u8>) -> bool {
    &&& s.len() >= IN_HEADER_SIZE
    &&& wf_args(s, spec_opcode_of(spec_in_header(s).opcode))
}

/// Attributes of a filesystem entry, as replies carry them.
#[derive(Clone, Copy, Debug, PartialEq, Eq, Structural)]
pub struct FileAttr {
    pub ino: u64,
    pub size: u64,
    pub blocks: u64,
    pub atime: u64,
    pub mtime: u64,
    pub ctime: u64,
    pub atimensec: u32,
    pub mtimensec: u32,
    pub ctimensec: u32,
    pub mode: u32,
    pub nlink: u32,
    pub uid: u32,
    pub gid: u32,
    pub rdev: u32,
}

impl FileAttr {
    /// The 80 bytes this record encodes to.
    pub open spec fn encoded(&self) -> Seq<u8> {
        spec_u64_to_le_bytes(self.ino) + spec_u64_to_le_bytes(self.size) + spec_u64_to_le_bytes(
            self.blocks,
        ) + spec_u64_to_le_bytes(self.atime) + spec_u64_to_le_bytes(self.mtime)
            + spec_u64_to_le_bytes(self.ctime) + spec_u32_to_le_bytes(self.atimensec)
            + spec_u32_to_le_bytes(self.mtimensec) + spec_u32_to_le_bytes(self.ctimensec)
            + spec_u32_to_le_bytes(self.mode) + spec_u32_to_le_bytes(self.nlink)
            + spec_u32_to_le_bytes(self.uid) + spec_u32_to_le_bytes(self.gid)
            + spec_u32_to_le_bytes(self.rdev)
    }

    /// Append the encoding of this record.
    pub fn append_to(&self, out: &mut Vec<u8>)
        ensures
            final(out)@ == old(out)@ + self.encoded(),
    {
        push_u64(out, self.ino);
        push_u64(out, self.size);
        push_u64(out, self.blocks);
        push_u64(out, self.atime);
        push_u64(out, self.mtime);
        push_u64(out, self.ctime);
        push_u32(out, self.atimensec);
        push_u32(out, self.mtimensec);
        push_u32(out, self.ctimensec);
        push_u32(out, self.mode);
        push_u32(out, self.nlink);
        push_u32(out, self.uid);
        push_u32(out, self.gid);
        push_u32(out, self.rdev);
        assert(out@ =~= old(out)@ + self.encoded());
    }
}

/// Reply record of LOOKUP, MKNOD, MKDIR, SYMLINK and LINK: a fresh or found
/// directory entry with its attributes.
#[derive(Clone, Copy, Debug, PartialEq, Eq, Structural)]
pub struct EntryOut {
    pub nodeid: u64,
    pub generation: u64,
    pub entry_valid: u64,
    pub attr_valid: u64,
    pub entry_valid_nsec: u32,
    pub attr_valid_nsec: u32,
    pub attr: FileAttr,
}

impl EntryOut {
    /// The 120 bytes this record encodes to.
    pub open spec fn encoded(&self) -> Seq<u8> {
        spec_u64_to_le_bytes(self.nodeid) + spec_u64_to_le_bytes(self.generation)
            + spec_u64_to_le_bytes(self.entry_valid) + spec_u64_to_le_bytes(self.attr_valid)
            + spec_u32_to_le_bytes(self.entry_valid_nsec) + spec_u32_to_le_bytes(
            self.attr_valid_nsec,
        ) + self.attr.encoded()
    }

    /// Append the encoding of this record.
    pub fn append_to(&self, out: &mut Vec<u8>)
        ensures
            final(out)@ == old(out)@ + self.encoded(),
    {
        push_u64(out, self.nodeid);
        push_u64(out, self.generation);
        push_u64(out, self.entry_valid);
        push_u64(out, self.attr_valid);
        push_u32(out, self.entry_valid_nsec);
        push_u32(out, self.attr_valid_nsec);
        self.attr.append_to(out);
        assert(out@ =~= old(out)@ + self.encoded());
    }
}

/// Reply record of GETATTR and SETATTR.
#[derive(Clone, Copy, Debug, PartialEq, Eq, Structural)]
pub struct AttrOut {
    pub attr_valid: u64,
    pub attr_valid_nsec: u32,
    pub attr: FileAttr,
}

impl AttrOut {
    /// The 96 bytes this record encodes to; the four bytes after the
    /// nanosecond field are reserved and stay zero.
    pub open spec fn encoded(&self) -> Seq<u8> {
        spec_u64_to_le_bytes(self.attr_valid) + spec_u32_to_le_bytes(self.attr_valid_nsec)
            + spec_u32_to_le_bytes(0) + self.attr.encoded()
    }

    /// Append the encoding of this record.
    pub fn append_to(&self, out: &mut Vec<u8>)
        ensures
            final(out)@ == old(out)@ + self.encoded(),
    {
        push_u64(out, self.attr_valid);
        push_u32(out, self.attr_valid_nsec);
        push_u32(out, 0);
        self.attr.append_to(out);
        assert(out@ =~= old(out)@ + self.encoded());
    }
}

/// Reply record of OPEN and OPENDIR: the handle later calls refer to.
#[derive(Clone, Copy, Debug, PartialEq, Eq, Structural)]
pub struct OpenOut {
    pub fh: u64,
    pub open_flags: u32,
}

impl OpenOut {
    /// The 16 bytes this record encodes to.
    pub open spec fn encoded(&self) -> Seq<u8> {
        spec_u64_to_le_bytes(self.fh) + spec_u32_to_le_bytes(self.open_flags)
            + spec_u32_to_le_bytes(0)
    }

    /// Append the encoding of this record.
    pub fn append_to(&self, out: &mut Vec<u8>)
        ensures
            final(out)@ == old(out)@ + self.encoded(),
    {
        push_u64(out, self.fh);
        push_u32(out, self.open_flags);
        push_u32(out, 0);
        assert(out@ =~= old(out)@ + self.encoded());
    }
}

/// Reply record of WRITE: how many bytes the filesystem accepted.
#[derive(Clone, Copy, Debug, PartialEq, Eq, Structural)]
pub struct WriteOut {
    pub size: u32,
}

impl WriteOut {
    /// The 8 bytes this record encodes to.
    pub open spec fn encoded(&self) -> Seq<u8> {
        spec_u32_to_le_bytes(self.size) + spec_u32_to_le_bytes(0)
    }

    /// Append the encoding of this record.
    pub fn append_to(&self, out: &mut Vec<u8>)
        ensures
            final(out)@ == old(out)@ + self.encoded(),
    {
        push_u32(out, self.size);
        push_u32(out, 0);
        assert(out@ =~= old(out)@ + self.encoded());
    }
}

/// Reply record of STATFS.
#[derive(Clone, Copy, Debug, PartialEq, Eq, Structural)]
pub struct StatfsOut {
    pub blocks: u64,
    pub bfree: u64,
    pub bavail: u64,
    pub files: u64,
    pub ffree: u64,
    pub bsize: u32,
    pub namelen: u32,
    pub frsize: u32,
}

impl StatfsOut {
    /// The 56 bytes this record encodes to.
    pub open spec fn encoded(&self) -> Seq<u8> {
        spec_u64_to_le_bytes(self.blocks) + spec_u64_to_le_bytes(self.bfree)
            + spec_u64_to_le_bytes(self.bavail) + spec_u64_to_le_bytes(self.files)
            + spec_u64_to_le_bytes(self.ffree) + spec_u32_to_le_bytes(self.bsize)
            + spec_u32_to_le_bytes(self.namelen) + spec_u32_to_le_bytes(self.frsize)
            + spec_u32_to_le_bytes(0)
    }

    /// Append the encoding of this record.
    pub fn append_to(&self, out: &mut Vec<u8>)
        ensures
            final(out)@ == old(out)@ + self.encoded(),
    {
        push_u64(out, self.blocks);
        push_u64(out, self.bfree);
        push_u64(out, self.bavail);
        push_u64(out, self.files);
        push_u64(out, self.ffree);
        push_u32(out, self.bsize);
        push_u32(out, self.namelen);
        push_u32(out, self.frsize);
        push_u32(out, 0);
        assert(out@ =~= old(out)@ + self.encoded());
    }
}

/// Size-only reply record of GETXATTR, sent when the caller asked with a
/// zero-sized buffer.
#[derive(Clone, Copy, Debug, PartialEq, Eq, Structural)]
pub struct GetxattrOut {
    pub size: u32,
}

impl GetxattrOut {
    /// The 8 bytes this record encodes to.
    pub open spec fn encoded(&self) -> Seq<u8> {
        spec_u32_to_le_bytes(self.size) + spec_u32_to_le_bytes(0)
    }

    /// Append the encoding of this record.
    pub fn append_to(&self, out: &mut Vec<u8>)
        ensures
            final(out)@ == old(out)@ + self.encoded(),
    {
        push_u32(out, self.size);
        push_u32(out, 0);
        assert(out@ =~= old(out)@ + self.encoded());
    }
}

/// Reply record of BMAP: the mapped block.
#[derive(Clone, Copy, Debug, PartialEq, Eq, Structural)]
pub struct BmapOut {
    pub block: u64,
}

impl BmapOut {
    /// The 8 bytes this record encodes to.
    pub open spec fn encoded(&self) -> Seq<u8> {
        spec_u64_to_le_bytes(self.block)
    }

    /// Append the encoding of this record.
    pub fn append_to(&self, out: &mut Vec<u8>)
        ensures
            final(out)@ == old(out)@ + self.encoded(),
    {
        push_u64(out, self.block);
    }
}

/// Reply record of INIT: the driver's own version and settings.
#[derive(Clone, Copy, Debug, PartialEq, Eq, Structural)]
pub struct InitOut {
    pub major: u32,
    pub minor: u32,
    pub max_readahead: u32,
    pub flags: u32,
    pub unused: u32,
    pub max_write: u32,
}

impl InitOut {
    /// The 24 bytes this record encodes to.
    pub open spec fn encoded(&self) -> Seq<u8> {
        spec_u32_to_le_bytes(self.major) + spec_u32_to_le_bytes(self.minor)
            + spec_u32_to_le_bytes(self.max_readahead) + spec_u32_to_le_bytes(self.flags)
            + spec_u32_to_le_bytes(self.unused) + spec_u32_to_le_bytes(self.max_write)
    }

    /// Append the encoding of this record.
    pub fn append_to(&self, out: &mut Vec<u8>)
        ensures
            final(out)@ == old(out)@ + self.encoded(),
    {
        push_u32(out, self.major);
        push_u32(out, self.minor);
        push_u32(out, self.max_readahead);
        push_u32(out, self.flags);
        push_u32(out, self.unused);
        push_u32(out, self.max_write);
        assert(out@ =~= old(out)@ + self.encoded());
    }
}

/// Reply record of GETXTIMES: backup and creation times.
#[derive(Clone, Copy, Debug, PartialEq, Eq, Structural)]
pub struct XtimesOut {
    pub bkuptime: u64,
    pub crtime: u64,
    pub bkuptimensec: u32,
    pub crtimensec: u32,
}

impl XtimesOut {
    /// The 24 bytes this record encodes to.
    pub open spec fn encoded(&self) -> Seq<u8> {
        spec_u64_to_le_bytes(self.bkuptime) + spec_u64_to_le_bytes(self.crtime)
            + spec_u32_to_le_bytes(self.bkuptimensec) + spec_u32_to_le_bytes(self.crtimensec)
    }

    /// Append the encoding of this record.
    pub fn append_to(&self, out: &mut Vec<u8>)
        ensures
            final(out)@ == old(out)@ + self.encoded(),
    {
        push_u64(out, self.bkuptime);
        push_u64(out, self.crtime);
        push_u32(out, self.bkuptimensec);
        push_u32(out, self.crtimensec);
        assert(out@ =~= old(out)@ + self.encoded());
    }
}

} // verus!
