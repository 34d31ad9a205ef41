//! End-to-end exercises of the request lifecycle: session gating, reply
//! framing, and the per-operation boundary rules, driven through a counting
//! mock filesystem.

use fuse::filesystem::Filesystem;
use fuse::reply::{build_frame, parse_out_header};
use fuse::request::{Outcome, Request};
use fuse::session::Session;
use fuse::wire::{
    opcode_of, AttrOut, BmapOut, EntryOut, FileAttr, Opcode, OpenOut, SetattrIn, StatfsOut,
    XtimesOut,
};

const EIO: i32 = 5;
const ERANGE: i32 = 34;
const ENOSYS: i32 = 38;
const EPROTO: i32 = 71;

struct MockFs {
    init_calls: usize,
    destroy_calls: usize,
    lookup_calls: usize,
    getattr_calls: usize,
    forget_calls: usize,
    write_calls: usize,
    getxattr_calls: usize,
    last_forget: u64,
    last_write: Vec<u8>,
    xattr_value: Vec<u8>,
    init_result: Result<(), i32>,
    write_result: Result<u32, i32>,
}

impl MockFs {
    fn new() -> MockFs {
        MockFs {
            init_calls: 0,
            destroy_calls: 0,
            lookup_calls: 0,
            getattr_calls: 0,
            forget_calls: 0,
            write_calls: 0,
            getxattr_calls: 0,
            last_forget: 0,
            last_write: Vec::new(),
            xattr_value: Vec::new(),
            init_result: Ok(()),
            write_result: Ok(0),
        }
    }
}

fn attr() -> FileAttr {
    FileAttr {
        ino: 1,
        size: 0,
        blocks: 0,
        atime: 0,
        mtime: 0,
        ctime: 0,
        atimensec: 0,
        mtimensec: 0,
        ctimensec: 0,
        mode: 0o040755,
        nlink: 2,
        uid: 0,
        gid: 0,
        rdev: 0,
    }
}

impl Filesystem for MockFs {
    fn init(&mut self) -> Result<(), i32> {
        self.init_calls += 1;
        self.init_result
    }
    fn destroy(&mut self) {
        self.destroy_calls += 1;
    }
    fn lookup(&mut self, _parent: u64, _name: Vec<u8>) -> Result<EntryOut, i32> {
        self.lookup_calls += 1;
        Err(ENOSYS)
    }
    fn forget(&mut self, _nodeid: u64, nlookup: u64) {
        self.forget_calls += 1;
        self.last_forget = nlookup;
    }
    fn getattr(&mut self, _nodeid: u64) -> Result<AttrOut, i32> {
        self.getattr_calls += 1;
        Ok(AttrOut { attr_valid: 1, attr_valid_nsec: 0, attr: attr() })
    }
    fn setattr(&mut self, _nodeid: u64, _attr: SetattrIn) -> Result<AttrOut, i32> {
        Err(ENOSYS)
    }
    fn readlink(&mut self, _nodeid: u64) -> Result<Vec<u8>, i32> {
        Err(ENOSYS)
    }
    fn mknod(&mut self, _p: u64, _n: Vec<u8>, _m: u32, _r: u32) -> Result<EntryOut, i32> {
        Err(ENOSYS)
    }
    fn mkdir(&mut self, _p: u64, _n: Vec<u8>, _m: u32) -> Result<EntryOut, i32> {
        Err(ENOSYS)
    }
    fn unlink(&mut self, _p: u64, _n: Vec<u8>) -> Result<(), i32> {
        Err(ENOSYS)
    }
    fn rmdir(&mut self, _p: u64, _n: Vec<u8>) -> Result<(), i32> {
        Err(ENOSYS)
    }
    fn symlink(&mut self, _p: u64, _n: Vec<u8>, _l: Vec<u8>) -> Result<EntryOut, i32> {
        Err(ENOSYS)
    }
    fn rename(&mut self, _p: u64, _n: Vec<u8>, _np: u64, _nn: Vec<u8>) -> Result<(), i32> {
        Err(ENOSYS)
    }
    fn link(&mut self, _nodeid: u64, _np: u64, _nn: Vec<u8>) -> Result<EntryOut, i32> {
        Err(ENOSYS)
    }
    fn open(&mut self, _nodeid: u64, _flags: u32) -> Result<OpenOut, i32> {
        Ok(OpenOut { fh: 42, open_flags: 0 })
    }
    fn read(&mut self, _nodeid: u64, _fh: u64, _offset: u64, _size: u32) -> Result<Vec<u8>, i32> {
        Ok(vec![9, 8, 7])
    }
    fn write(
        &mut self,
        _nodeid: u64,
        _fh: u64,
        _offset: u64,
        data: Vec<u8>,
        _write_flags: u32,
    ) -> Result<u32, i32> {
        self.write_calls += 1;
        self.last_write = data;
        self.write_result
    }
    fn flush(&mut self, _nodeid: u64, _fh: u64, _lock_owner: u64) -> Result<(), i32> {
        Ok(())
    }
    fn release(&mut self, _n: u64, _fh: u64, _f: u32, _lo: u64, _flush: bool) -> Result<(), i32> {
        Ok(())
    }
    fn fsync(&mut self, _nodeid: u64, _fh: u64, _datasync: bool) -> Result<(), i32> {
        Ok(())
    }
    fn opendir(&mut self, _nodeid: u64, _flags: u32) -> Result<OpenOut, i32> {
        Ok(OpenOut { fh: 7, open_flags: 0 })
    }
    fn readdir(&mut self, _nodeid: u64, _fh: u64, _offset: u64, _size: u32) -> Result<Vec<u8>, i32> {
        Ok(Vec::new())
    }
    fn releasedir(&mut self, _nodeid: u64, _fh: u64, _flags: u32) -> Result<(), i32> {
        Ok(())
    }
    fn fsyncdir(&mut self, _nodeid: u64, _fh: u64, _datasync: bool) -> Result<(), i32> {
        Ok(())
    }
    fn statfs(&mut self, _nodeid: u64) -> Result<StatfsOut, i32> {
        Ok(StatfsOut {
            blocks: 100,
            bfree: 50,
            bavail: 40,
            files: 10,
            ffree: 5,
            bsize: 512,
            namelen: 255,
            frsize: 512,
        })
    }
    fn setxattr(
        &mut self,
        _nodeid: u64,
        _name: Vec<u8>,
        value: Vec<u8>,
        _flags: u32,
        _position: u32,
    ) -> Result<(), i32> {
        self.xattr_value = value;
        Ok(())
    }
    fn getxattr(&mut self, _nodeid: u64, _name: Vec<u8>) -> Result<Vec<u8>, i32> {
        self.getxattr_calls += 1;
        Ok(self.xattr_value.clone())
    }
    fn listxattr(&mut self, _nodeid: u64) -> Result<(), i32> {
        Ok(())
    }
    fn removexattr(&mut self, _nodeid: u64, _name: Vec<u8>) -> Result<(), i32> {
        Ok(())
    }
    fn access(&mut self, _nodeid: u64, _mask: u32) -> Result<(), i32> {
        Ok(())
    }
    fn bmap(&mut self, _nodeid: u64, _blocksize: u32, _block: u64) -> Result<BmapOut, i32> {
        Ok(BmapOut { block: 11 })
    }
    fn setvolname(&mut self, _name: Vec<u8>) -> Result<(), i32> {
        Ok(())
    }
    fn exchange(
        &mut self,
        _olddir: u64,
        _on: Vec<u8>,
        _newdir: u64,
        _nn: Vec<u8>,
        _options: u64,
    ) -> Result<(), i32> {
        Ok(())
    }
    fn getxtimes(&mut self, _nodeid: u64) -> Result<XtimesOut, i32> {
        Ok(XtimesOut { bkuptime: 0, crtime: 0, bkuptimensec: 0, crtimensec: 0 })
    }
}

fn le32(v: &mut Vec<u8>, x: u32) {
    for b in x.to_le_bytes() {
        v.push(b);
    }
}

fn le64(v: &mut Vec<u8>, x: u64) {
    for b in x.to_le_bytes() {
        v.push(b);
    }
}

/// A request message: 40-byte header, then the operation's argument bytes.
fn msg(opcode: u32, unique: u64, nodeid: u64, tail: &[u8]) -> Vec<u8> {
    let mut m = Vec::new();
    le32(&mut m, 40 + tail.len() as u32);
    le32(&mut m, opcode);
    le64(&mut m, unique);
    le64(&mut m, nodeid);
    le32(&mut m, 0); // uid
    le32(&mut m, 0); // gid
    le32(&mut m, 0); // pid
    le32(&mut m, 0); // padding
    m.extend_from_slice(tail);
    m
}

fn init_msg(unique: u64, major: u32, minor: u32, max_readahead: u32, flags: u32) -> Vec<u8> {
    let mut tail = Vec::new();
    le32(&mut tail, major);
    le32(&mut tail, minor);
    le32(&mut tail, max_readahead);
    le32(&mut tail, flags);
    msg(26, unique, 0, &tail)
}

fn dispatch_one(se: &mut Session<MockFs>, message: Vec<u8>) -> Outcome {
    let mut req = Request::new();
    assert!(req.read(3, message).is_ok());
    req.dispatch(se)
}

fn expect_frame(out: Outcome) -> Vec<u8> {
    match out {
        Outcome::Reply(f) => f,
        Outcome::Quiet => panic!("expected a reply frame, got none"),
        Outcome::Malformed => panic!("expected a reply frame, message was refused as malformed"),
    }
}

fn init_session(se: &mut Session<MockFs>) {
    let frame = expect_frame(dispatch_one(se, init_msg(1, 7, 8, 65536, 0)));
    let (_, err, _) = parse_out_header(&frame);
    assert_eq!(err, 0);
    assert!(se.initialized);
}

#[test]
fn init_negotiates_version() {
    let mut se = Session::new(MockFs::new());
    let frame = expect_frame(dispatch_one(&mut se, init_msg(5, 7, 8, 65536, 0)));
    let (len, err, unique) = parse_out_header(&frame);
    assert_eq!(len as usize, frame.len());
    assert_eq!(err, 0);
    assert_eq!(unique, 5);
    assert_eq!(frame.len(), 16 + 24);
    let payload = &frame[16..];
    assert_eq!(&payload[0..4], &7u32.to_le_bytes()); // driver major
    assert_eq!(&payload[4..8], &8u32.to_le_bytes()); // driver minor
    assert_eq!(&payload[8..12], &65536u32.to_le_bytes()); // readahead echo
    assert_eq!(&payload[12..16], &0x8001u32.to_le_bytes()); // negotiated flags
    assert_eq!(&payload[16..20], &0u32.to_le_bytes());
    assert_eq!(&payload[20..24], &(16 * 1024 * 1024u32).to_le_bytes()); // max write
    assert!(se.initialized);
    assert!(!se.destroyed);
    assert_eq!(se.proto_major, 7);
    assert_eq!(se.proto_minor, 8);
    assert_eq!(se.filesystem.init_calls, 1);
}

#[test]
fn init_rejects_major_below_floor() {
    let mut se = Session::new(MockFs::new());
    let frame = expect_frame(dispatch_one(&mut se, init_msg(2, 6, 20, 0, 0)));
    let (len, err, unique) = parse_out_header(&frame);
    assert_eq!(len, 16);
    assert_eq!(err, -EPROTO);
    assert_eq!(unique, 2);
    assert!(!se.initialized);
    assert_eq!(se.filesystem.init_calls, 0);
}

#[test]
fn init_rejects_minor_below_floor() {
    let mut se = Session::new(MockFs::new());
    let frame = expect_frame(dispatch_one(&mut se, init_msg(2, 7, 5, 0, 0)));
    let (_, err, _) = parse_out_header(&frame);
    assert_eq!(err, -EPROTO);
    assert!(!se.initialized);
}

#[test]
fn init_failure_leaves_session_uninitialized() {
    let mut se = Session::new(MockFs::new());
    se.filesystem.init_result = Err(EIO);
    let frame = expect_frame(dispatch_one(&mut se, init_msg(3, 7, 8, 0, 0)));
    let (_, err, _) = parse_out_header(&frame);
    assert_eq!(err, -EIO);
    assert!(!se.initialized);
    assert_eq!(se.filesystem.init_calls, 1);
}

#[test]
fn lookup_before_init_is_io_error() {
    let mut se = Session::new(MockFs::new());
    let mut tail = b"foo".to_vec();
    tail.push(0);
    let frame = expect_frame(dispatch_one(&mut se, msg(1, 9, 1, &tail)));
    let (len, err, unique) = parse_out_header(&frame);
    assert_eq!(len, 16);
    assert_eq!(err, -EIO);
    assert_eq!(unique, 9);
    assert!(!se.initialized);
    assert_eq!(se.filesystem.lookup_calls, 0);
}

#[test]
fn lookup_after_init_calls_filesystem_once() {
    let mut se = Session::new(MockFs::new());
    init_session(&mut se);
    let mut tail = b"foo".to_vec();
    tail.push(0);
    let frame = expect_frame(dispatch_one(&mut se, msg(1, 9, 1, &tail)));
    let (_, err, _) = parse_out_header(&frame);
    assert_eq!(err, -ENOSYS);
    assert_eq!(se.filesystem.lookup_calls, 1);
}

#[test]
fn destroy_is_terminal() {
    let mut se = Session::new(MockFs::new());
    init_session(&mut se);
    let frame = expect_frame(dispatch_one(&mut se, msg(38, 11, 0, &[])));
    let (len, err, unique) = parse_out_header(&frame);
    assert_eq!((len, err, unique), (16, 0, 11));
    assert!(se.destroyed);
    assert_eq!(se.filesystem.destroy_calls, 1);
    // Any later operation is refused with an I/O error without reaching the
    // filesystem.
    let frame = expect_frame(dispatch_one(&mut se, msg(3, 12, 1, &[])));
    let (_, err, _) = parse_out_header(&frame);
    assert_eq!(err, -EIO);
    assert_eq!(se.filesystem.getattr_calls, 0);
}

#[test]
fn destroy_hook_runs_once_per_session() {
    let mut se = Session::new(MockFs::new());
    init_session(&mut se);
    expect_frame(dispatch_one(&mut se, msg(38, 11, 0, &[])));
    let frame = expect_frame(dispatch_one(&mut se, msg(38, 12, 0, &[])));
    let (_, err, _) = parse_out_header(&frame);
    assert_eq!(err, 0);
    assert_eq!(se.filesystem.destroy_calls, 1);
}

#[test]
fn forget_never_replies() {
    let mut se = Session::new(MockFs::new());
    init_session(&mut se);
    let mut tail = Vec::new();
    le64(&mut tail, 1);
    match dispatch_one(&mut se, msg(2, 13, 5, &tail)) {
        Outcome::Quiet => {}
        _ => panic!("FORGET must not reply"),
    }
    let mut tail = Vec::new();
    le64(&mut tail, 99);
    match dispatch_one(&mut se, msg(2, 14, 5, &tail)) {
        Outcome::Quiet => {}
        _ => panic!("FORGET must not reply"),
    }
    assert_eq!(se.filesystem.forget_calls, 2);
    assert_eq!(se.filesystem.last_forget, 99);
}

#[test]
fn getattr_reply_length_matches_header() {
    let mut se = Session::new(MockFs::new());
    init_session(&mut se);
    let frame = expect_frame(dispatch_one(&mut se, msg(3, 15, 1, &[])));
    let (len, err, unique) = parse_out_header(&frame);
    assert_eq!(len as usize, frame.len());
    assert_eq!(err, 0);
    assert_eq!(unique, 15);
    assert_eq!(frame.len(), 16 + 96); // header + attribute record
}

#[test]
fn statfs_reply_length_matches_header() {
    let mut se = Session::new(MockFs::new());
    init_session(&mut se);
    let frame = expect_frame(dispatch_one(&mut se, msg(17, 16, 1, &[])));
    let (len, err, _) = parse_out_header(&frame);
    assert_eq!(len as usize, frame.len());
    assert_eq!(err, 0);
    assert_eq!(frame.len(), 16 + 56);
}

#[test]
fn frame_round_trip() {
    let frame = build_frame(77, -EIO, vec![1, 2, 3]);
    let (len, err, unique) = parse_out_header(&frame);
    assert_eq!(len as usize, frame.len());
    assert_eq!(len, 19);
    assert_eq!(err, -EIO);
    assert_eq!(unique, 77);
    assert_eq!(&frame[16..], &[1, 2, 3]);
}

fn getxattr_msg(unique: u64, size: u32) -> Vec<u8> {
    let mut tail = Vec::new();
    le32(&mut tail, size);
    le32(&mut tail, 0);
    tail.extend_from_slice(b"user.test");
    tail.push(0);
    msg(22, unique, 1, &tail)
}

#[test]
fn getxattr_size_zero_reports_length_only() {
    let mut se = Session::new(MockFs::new());
    init_session(&mut se);
    se.filesystem.xattr_value = vec![7; 10];
    let frame = expect_frame(dispatch_one(&mut se, getxattr_msg(20, 0)));
    let (len, err, _) = parse_out_header(&frame);
    assert_eq!(err, 0);
    assert_eq!(len as usize, frame.len());
    assert_eq!(frame.len(), 16 + 8); // size-only record, no value bytes
    assert_eq!(&frame[16..20], &10u32.to_le_bytes());
    assert_eq!(&frame[20..24], &0u32.to_le_bytes());
}

#[test]
fn getxattr_small_buffer_is_out_of_range() {
    let mut se = Session::new(MockFs::new());
    init_session(&mut se);
    se.filesystem.xattr_value = vec![7; 10];
    let frame = expect_frame(dispatch_one(&mut se, getxattr_msg(21, 5)));
    let (len, err, _) = parse_out_header(&frame);
    assert_eq!(len, 16);
    assert_eq!(err, -ERANGE);
}

#[test]
fn getxattr_fitting_buffer_carries_value() {
    let mut se = Session::new(MockFs::new());
    init_session(&mut se);
    se.filesystem.xattr_value = vec![7; 10];
    let frame = expect_frame(dispatch_one(&mut se, getxattr_msg(22, 1024)));
    let (len, err, _) = parse_out_header(&frame);
    assert_eq!(err, 0);
    assert_eq!(len as usize, frame.len());
    assert_eq!(&frame[16..], vec![7; 10].as_slice());
}

fn write_msg(unique: u64, declared: u32, data: &[u8]) -> Vec<u8> {
    let mut tail = Vec::new();
    le64(&mut tail, 42); // fh
    le64(&mut tail, 0); // offset
    le32(&mut tail, declared);
    le32(&mut tail, 0); // write flags
    tail.extend_from_slice(data);
    msg(16, unique, 1, &tail)
}

#[test]
fn write_reports_what_the_filesystem_accepted() {
    let mut se = Session::new(MockFs::new());
    init_session(&mut se);
    se.filesystem.write_result = Ok(3);
    let frame = expect_frame(dispatch_one(&mut se, write_msg(30, 5, &[1, 2, 3, 4, 5])));
    let (len, err, unique) = parse_out_header(&frame);
    assert_eq!(len as usize, frame.len());
    assert_eq!((err, unique), (0, 30));
    assert_eq!(frame.len(), 16 + 8);
    assert_eq!(&frame[16..20], &3u32.to_le_bytes()); // the count reported, not the count sent
    assert_eq!(se.filesystem.last_write, vec![1, 2, 3, 4, 5]);
    assert_eq!(se.filesystem.write_calls, 1);
}

#[test]
fn write_size_mismatch_is_refused() {
    let mut se = Session::new(MockFs::new());
    init_session(&mut se);
    let frame = expect_frame(dispatch_one(&mut se, write_msg(31, 9, &[1, 2, 3])));
    let (_, err, _) = parse_out_header(&frame);
    assert_eq!(err, -EIO);
    assert_eq!(se.filesystem.write_calls, 0);
}

#[test]
fn unknown_opcode_is_not_implemented() {
    let mut se = Session::new(MockFs::new());
    init_session(&mut se);
    let frame = expect_frame(dispatch_one(&mut se, msg(99, 40, 1, &[])));
    let (len, err, unique) = parse_out_header(&frame);
    assert_eq!((len, err, unique), (16, -ENOSYS, 40));
}

#[test]
fn listxattr_success_stays_not_implemented() {
    let mut se = Session::new(MockFs::new());
    init_session(&mut se);
    let mut tail = Vec::new();
    le32(&mut tail, 0);
    le32(&mut tail, 0);
    let frame = expect_frame(dispatch_one(&mut se, msg(23, 41, 1, &tail)));
    let (_, err, _) = parse_out_header(&frame);
    assert_eq!(err, -ENOSYS);
}

#[test]
fn short_message_is_refused_at_read() {
    let mut req = Request::new();
    assert_eq!(req.read(3, vec![0; 10]), Err(EIO));
}

#[test]
fn destroy_before_init_is_io_error() {
    let mut se = Session::new(MockFs::new());
    let frame = expect_frame(dispatch_one(&mut se, msg(38, 50, 0, &[])));
    let (_, err, _) = parse_out_header(&frame);
    assert_eq!(err, -EIO);
    assert!(!se.destroyed);
    assert_eq!(se.filesystem.destroy_calls, 0);
}

#[test]
fn init_underrun_is_malformed() {
    let mut se = Session::new(MockFs::new());
    // An INIT whose negotiation record is cut short cannot be decoded.
    match dispatch_one(&mut se, msg(26, 51, 0, &[1, 2, 3, 4])) {
        Outcome::Malformed => {}
        _ => panic!("a truncated INIT must be refused as malformed"),
    }
    assert!(!se.initialized);
}

#[test]
fn lookup_without_terminator_is_malformed() {
    let mut se = Session::new(MockFs::new());
    init_session(&mut se);
    // A name that never ends cannot be decoded.
    match dispatch_one(&mut se, msg(1, 52, 1, b"foo")) {
        Outcome::Malformed => {}
        _ => panic!("a name without its terminator must be refused as malformed"),
    }
    assert_eq!(se.filesystem.lookup_calls, 0);
}

#[test]
fn setxattr_stores_exactly_the_declared_bytes() {
    let mut se = Session::new(MockFs::new());
    init_session(&mut se);
    let mut tail = Vec::new();
    le32(&mut tail, 4); // value size
    le32(&mut tail, 0); // flags
    le32(&mut tail, 0); // position
    le32(&mut tail, 0); // padding
    tail.extend_from_slice(b"user.test");
    tail.push(0);
    tail.extend_from_slice(&[1, 2, 3, 4]);
    let frame = expect_frame(dispatch_one(&mut se, msg(21, 53, 1, &tail)));
    let (len, err, _) = parse_out_header(&frame);
    assert_eq!((len, err), (16, 0));
    assert_eq!(se.filesystem.xattr_value, vec![1, 2, 3, 4]);
    // The value just stored comes back through GETXATTR.
    let frame = expect_frame(dispatch_one(&mut se, getxattr_msg(54, 16)));
    let (_, err, _) = parse_out_header(&frame);
    assert_eq!(err, 0);
    assert_eq!(&frame[16..], &[1, 2, 3, 4]);
}

#[test]
fn setxattr_size_mismatch_is_refused() {
    let mut se = Session::new(MockFs::new());
    init_session(&mut se);
    let mut tail = Vec::new();
    le32(&mut tail, 9); // declares nine value bytes
    le32(&mut tail, 0);
    le32(&mut tail, 0);
    le32(&mut tail, 0);
    tail.extend_from_slice(b"user.test");
    tail.push(0);
    tail.extend_from_slice(&[1, 2]);
    let frame = expect_frame(dispatch_one(&mut se, msg(21, 55, 1, &tail)));
    let (_, err, _) = parse_out_header(&frame);
    assert_eq!(err, -EIO);
    assert!(se.filesystem.xattr_value.is_empty());
}

#[test]
fn read_reply_carries_the_bytes() {
    let mut se = Session::new(MockFs::new());
    init_session(&mut se);
    let mut tail = Vec::new();
    le64(&mut tail, 42); // fh
    le64(&mut tail, 0); // offset
    le32(&mut tail, 3); // size
    le32(&mut tail, 0); // padding
    let frame = expect_frame(dispatch_one(&mut se, msg(15, 56, 1, &tail)));
    let (len, err, unique) = parse_out_header(&frame);
    assert_eq!(len as usize, frame.len());
    assert_eq!((err, unique), (0, 56));
    assert_eq!(&frame[16..], &[9, 8, 7]);
}

#[test]
fn symlink_decodes_both_names() {
    let mut se = Session::new(MockFs::new());
    init_session(&mut se);
    let mut tail = b"newname".to_vec();
    tail.push(0);
    tail.extend_from_slice(b"target/path");
    tail.push(0);
    let frame = expect_frame(dispatch_one(&mut se, msg(6, 57, 1, &tail)));
    let (_, err, _) = parse_out_header(&frame);
    assert_eq!(err, -ENOSYS); // the mock refuses, but only after a clean decode
}

#[test]
fn nonpositive_errno_is_reported_as_io_error() {
    let mut se = Session::new(MockFs::new());
    se.filesystem.init_result = Err(0);
    let frame = expect_frame(dispatch_one(&mut se, init_msg(58, 7, 8, 0, 0)));
    let (_, err, _) = parse_out_header(&frame);
    assert_eq!(err, -EIO);
    assert!(!se.initialized);
}

#[test]
fn open_reply_carries_the_handle() {
    let mut se = Session::new(MockFs::new());
    init_session(&mut se);
    let mut tail = Vec::new();
    le32(&mut tail, 0); // flags
    le32(&mut tail, 0); // mode
    let frame = expect_frame(dispatch_one(&mut se, msg(14, 59, 1, &tail)));
    let (len, err, _) = parse_out_header(&frame);
    assert_eq!(len as usize, frame.len());
    assert_eq!(err, 0);
    assert_eq!(frame.len(), 16 + 16);
    assert_eq!(&frame[16..24], &42u64.to_le_bytes());
}

#[test]
fn opcode_mapping_is_closed() {
    assert_eq!(opcode_of(26), Opcode::Init);
    assert_eq!(opcode_of(38), Opcode::Destroy);
    assert_eq!(opcode_of(1), Opcode::Lookup);
    assert_eq!(opcode_of(2), Opcode::Forget);
    assert_eq!(opcode_of(16), Opcode::Write);
    assert_eq!(opcode_of(22), Opcode::Getxattr);
    assert_eq!(opcode_of(63), Opcode::Exchange);
    assert_eq!(opcode_of(7), Opcode::Unknown);
    assert_eq!(opcode_of(99), Opcode::Unknown);
    assert_eq!(opcode_of(0), Opcode::Unknown);
}
