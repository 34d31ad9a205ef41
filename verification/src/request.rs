//! One request's life: its message buffer, the channel it arrived on, and the
//! dispatch state machine that routes it into the filesystem and frames the
//! reply.
//!
//! `dispatch` never writes to the channel itself; it hands back an [`Outcome`]
//! and the caller performs the single vectored write (or none, for FORGET).

use vstd::prelude::*;

verus! {

use vstd::bytes::lemma_auto_spec_u32_to_from_le_bytes;
use crate::codec::{fetch_data, fetch_str, read_u64};
use crate::filesystem::Filesystem;
use crate::reply::{
    build_frame, clamp_errno, error_frame, frame_bytes, frame_unique_field, valid_reply,
    Sendable,
};
use crate::session::Session;
use crate::wire::{
    parse_access_in, parse_bmap_in, parse_exchange_in, parse_flush_in, parse_forget_in,
    parse_fsync_in, parse_getxattr_in, parse_in_header, parse_init_in, parse_link_in,
    parse_mkdir_in, parse_mknod_in, parse_open_in, parse_read_in, parse_release_in,
    parse_rename_in, parse_setattr_in, parse_setxattr_in, parse_write_in, opcode_of,
    spec_in_header, spec_init_in, spec_opcode_of, wf_msg, GetxattrOut, InHeader, InitIn, InitOut,
    Opcode, WriteOut, EIO, ENOSYS, EPROTO, ERANGE, FSYNC_DATA_ONLY, INIT_FLAGS, IN_HEADER_SIZE,
    MAX_WRITE_SIZE, MIN_PROTO_MAJOR, MIN_PROTO_MINOR, OUT_HEADER_SIZE, PROTO_MAJOR, PROTO_MINOR,
    RELEASE_FLUSH,
};

/// What dispatching one message amounts to.
pub enum Outcome {
    /// One frame to write back to the channel.
    Reply(Vec<u8>),
    /// Nothing to send: the operation never replies.
    Quiet,
    /// The message is shorter than its operation's arguments; the channel is
    /// a trusted kernel source, so this means a build-level schema mismatch,
    /// and the caller should treat it as fatal.
    Malformed,
}

/// `r` carries exactly the frame `f`.
pub open spec fn replies(r: Outcome, f: Seq<u8>) -> bool {
    match r {
        Outcome::Reply(v) => v@ == f,
        _ => false,
    }
}

/// The kernel version floor: newer majors pass, the floor major needs at
/// least the floor minor.
pub open spec fn version_supported(major: u32, minor: u32) -> bool {
    ||| major > MIN_PROTO_MAJOR
    ||| (major == MIN_PROTO_MAJOR && minor >= MIN_PROTO_MINOR)
}

/// The INIT reply record: the driver's own version and settings, echoing the
/// kernel's readahead figure.
pub open spec fn init_out(a: InitIn) -> InitOut {
    InitOut {
        major: PROTO_MAJOR,
        minor: PROTO_MINOR,
        max_readahead: a.max_readahead,
        flags: INIT_FLAGS,
        unused: 0,
        max_write: MAX_WRITE_SIZE,
    }
}

/// One in-flight request: the raw message and the channel it came from.
pub struct Request {
    data: Vec<u8>,
    fd: Option<i32>,
}

impl Request {
    /// The bytes of the most recently read message.
    pub closed spec fn msg(&self) -> Seq<u8> {
        self.data@
    }

    /// The channel descriptor bound at read time, for the matching reply.
    pub closed spec fn chan(&self) -> Option<i32> {
        self.fd
    }

    /// A fresh request with an empty buffer and no channel bound.
    pub fn new() -> (r: Request)
        ensures
            r.msg().len() == 0,
            r.chan() is None,
    {
        Request { data: Vec::new(), fd: None }
    }

    /// Accept one message read from channel `fd`.  A message too short to
    /// hold a request header is structurally impossible and is refused as an
    /// I/O error; the buffer is cleared so no stale message lingers.
    pub fn read(&mut self, fd: i32, message: Vec<u8>) -> (r: Result<(), i32>)
        ensures
            final(self).chan() == Some(fd),
            message@.len() < IN_HEADER_SIZE ==> r == Err::<(), i32>(EIO) && final(self).msg()
                == Seq::<u8>::empty(),
            message@.len() >= IN_HEADER_SIZE ==> r == Ok::<(), i32>(()) && final(self).msg()
                == message@,
    {
        self.fd = Some(fd);
        if message.len() < IN_HEADER_SIZE {
            self.data = Vec::new();
            Err(EIO)
        } else {
            self.data = message;
            Ok(())
        }
    }

    /// Frame an error reply: empty payload, the errno sent back negated.
    /// An errno that is not positive is not a legal wire error and is
    /// reported as an input/output error instead.
    pub fn reply_error(&self, err: i32) -> (r: Vec<u8>)
        requires
            self.msg().len() >= IN_HEADER_SIZE,
        ensures
            r@ == error_frame(spec_in_header(self.msg()).unique, clamp_errno(err)),
            valid_reply(r@),
            frame_unique_field(r@) == spec_in_header(self.msg()).unique,
    {
        let unique = read_u64(&self.data, 8);
        let e: i32 = if err > 0 {
            err
        } else {
            EIO
        };
        build_frame(unique, -e, Vec::new())
    }

    /// Frame the reply to the decoded message: the record's bytes on success,
    /// or the error negated.  A payload that cannot fit the length field is
    /// reported as an input/output error instead of a corrupt frame.
    pub fn reply<T: Sendable>(&self, result: Result<T, i32>) -> (r: Vec<u8>)
        requires
            self.msg().len() >= IN_HEADER_SIZE,
        ensures
            ({
                let u = spec_in_header(self.msg()).unique;
                &&& valid_reply(r@)
                &&& frame_unique_field(r@) == u
                &&& (match result {
                    Ok(t) => if t.payload().len() + OUT_HEADER_SIZE <= u32::MAX {
                        r@ == frame_bytes(u, 0, t.payload())
                    } else {
                        r@ == error_frame(u, EIO)
                    },
                    Err(e) => r@ == error_frame(u, clamp_errno(e)),
                })
            }),
    {
        let unique = read_u64(&self.data, 8);
        match result {
            Ok(t) => {
                let body = t.to_bytes();
                if body.len() <= u32::MAX as usize - OUT_HEADER_SIZE {
                    build_frame(unique, 0, body)
                } else {
                    build_frame(unique, -EIO, Vec::new())
                }
            },
            Err(e) => self.reply_error(e),
        }
    }

    /// WRITE reply law: the bytes-written field of a successful WRITE reply
    /// is exactly the count the filesystem reported, never fabricated.
    pub fn write_reply(&self, written: u32) -> (r: Vec<u8>)
        requires
            self.msg().len() >= IN_HEADER_SIZE,
        ensures
            r@ == frame_bytes(
                spec_in_header(self.msg()).unique,
                0,
                (WriteOut { size: written }).encoded(),
            ),
            valid_reply(r@),
            frame_unique_field(r@) == spec_in_header(self.msg()).unique,
    {
        proof {
            lemma_auto_spec_u32_to_from_le_bytes();
        }
        self.reply(Ok::<WriteOut, i32>(WriteOut { size: written }))
    }

    /// GETXATTR boundary law: with a stored value of length L and a caller
    /// buffer size S, S = 0 reports only the size L; 0 < S < L is an
    /// out-of-range error; S >= L sends the L value bytes themselves.  A
    /// value too long for the length field is reported as an I/O error.
    pub fn getxattr_reply(&self, size: u32, value: Vec<u8>) -> (r: Vec<u8>)
        requires
            self.msg().len() >= IN_HEADER_SIZE,
        ensures
            ({
                let u = spec_in_header(self.msg()).unique;
                let l = value@.len();
                &&& valid_reply(r@)
                &&& frame_unique_field(r@) == u
                &&& (l + OUT_HEADER_SIZE > u32::MAX ==> r@ == error_frame(u, EIO))
                &&& (l + OUT_HEADER_SIZE <= u32::MAX ==> (if size == 0 {
                    r@ == frame_bytes(u, 0, (GetxattrOut { size: l as u32 }).encoded())
                } else if l > size {
                    r@ == error_frame(u, ERANGE)
                } else {
                    r@ == frame_bytes(u, 0, value@)
                }))
            }),
    {
        let unique = read_u64(&self.data, 8);
        if value.len() > u32::MAX as usize - OUT_HEADER_SIZE {
            build_frame(unique, -EIO, Vec::new())
        } else if size == 0 {
            proof {
                lemma_auto_spec_u32_to_from_le_bytes();
            }
            let out = GetxattrOut { size: value.len() as u32 };
            let body = out.to_bytes();
            build_frame(unique, 0, body)
        } else if value.len() > size as usize {
            build_frame(unique, -ERANGE, Vec::new())
        } else {
            build_frame(unique, 0, value)
        }
    }

    /// Decode the message, enforce the session state machine, call the one
    /// matching filesystem operation, and frame the reply.
    ///
    /// The contract carries the protocol's standing rules: every reply frame
    /// is well-formed and echoes the request id; a well-formed message never
    /// underruns the decoder; before INIT everything else is refused with an
    /// I/O error and the filesystem is left untouched; DESTROY acknowledges
    /// with an empty success frame and is terminal; after DESTROY everything
    /// but INIT and DESTROY is refused with an I/O error; FORGET never
    /// replies; unknown operations are answered "not implemented"; and the
    /// lifecycle flags only ever move forward.
    pub fn dispatch<FS: Filesystem>(&self, se: &mut Session<FS>) -> (r: Outcome)
        requires
            self.msg().len() >= IN_HEADER_SIZE,
            old(se).wf(),
        ensures
            ({
                let s = self.msg();
                let op = spec_opcode_of(spec_in_header(s).opcode);
                let u = spec_in_header(s).unique;
                let a = spec_init_in(s);
                &&& final(se).wf()
                &&& (r matches Outcome::Reply(f) ==> valid_reply(f@) && frame_unique_field(f@)
                    == u)
                &&& (wf_msg(s) ==> !(r is Malformed))
                &&& (r is Malformed ==> !wf_msg(s))
                &&& (final(se).initialized != old(se).initialized ==> op is Init && final(se).initialized)
                &&& (final(se).destroyed != old(se).destroyed ==> op is Destroy && final(se).destroyed)
                &&& (!(op is Init) ==> final(se).proto_major == old(se).proto_major && final(se).proto_minor == old(se).proto_minor)
                &&& (op is Init && s.len() < 56 ==> r is Malformed && *final(se) == *old(se))
                &&& (op is Init && s.len() >= 56 && !version_supported(a.major, a.minor)
                    ==> replies(r, error_frame(u, EPROTO)) && *final(se) == *old(se))
                &&& (op is Init && s.len() >= 56 && version_supported(a.major, a.minor) ==> final(se).proto_major == a.major && final(se).proto_minor == a.minor && final(se).destroyed
                    == old(se).destroyed && !(r is Malformed) && !(r is Quiet))
                &&& (final(se).initialized != old(se).initialized ==> replies(
                    r,
                    frame_bytes(u, 0, init_out(a).encoded()),
                ))
                &&& (!(op is Init) && !old(se).initialized ==> replies(r, error_frame(u, EIO))
                    && *final(se) == *old(se))
                &&& (op is Destroy && old(se).initialized ==> replies(
                    r,
                    frame_bytes(u, 0, Seq::<u8>::empty()),
                ) && final(se).destroyed && final(se).initialized == old(se).initialized)
                &&& (old(se).destroyed && !(op is Destroy) && !(op is Init) ==> replies(
                    r,
                    error_frame(u, EIO),
                ) && *final(se) == *old(se))
                &&& (op is Forget && old(se).initialized && !old(se).destroyed ==> !(r
                    is Reply))
                &&& (op is Forget && old(se).initialized && !old(se).destroyed && wf_msg(s)
                    ==> r is Quiet)
                &&& (r is Quiet ==> op is Forget)
                &&& (op is Unknown && old(se).initialized && !old(se).destroyed ==> replies(
                    r,
                    error_frame(u, ENOSYS),
                ))
            }),
    {
        let h = parse_in_header(&self.data);
        let op = opcode_of(h.opcode);
        match op {
            Opcode::Init => {
                if self.data.len() < 56 {
                    return Outcome::Malformed;
                }
                let arg = parse_init_in(&self.data);
                if arg.major < MIN_PROTO_MAJOR || (arg.major == MIN_PROTO_MAJOR && arg.minor
                    < MIN_PROTO_MINOR) {
                    return Outcome::Reply(self.reply_error(EPROTO));
                }
                se.proto_major = arg.major;
                se.proto_minor = arg.minor;
                match se.filesystem.init() {
                    Err(err) => Outcome::Reply(self.reply_error(err)),
                    Ok(()) => {
                        se.initialized = true;
                        let out = InitOut {
                            major: PROTO_MAJOR,
                            minor: PROTO_MINOR,
                            max_readahead: arg.max_readahead,
                            flags: INIT_FLAGS,
                            unused: 0,
                            max_write: MAX_WRITE_SIZE,
                        };
                        proof {
                            lemma_auto_spec_u32_to_from_le_bytes();
                        }
                        Outcome::Reply(self.reply(Ok::<InitOut, i32>(out)))
                    },
                }
            },
            _ if !se.initialized => Outcome::Reply(self.reply_error(EIO)),
            Opcode::Destroy => {
                // The destroy hook runs at most once per session; a repeated
                // DESTROY is acknowledged without calling it again.
                if !se.destroyed {
                    se.filesystem.destroy();
                    se.destroyed = true;
                }
                Outcome::Reply(self.reply(Ok::<(), i32>(())))
            },
            _ if se.destroyed => Outcome::Reply(self.reply_error(EIO)),
            _ => self.route(h, &mut se.filesystem),
        }
    }

    /// Route a gate-passed ordinary operation: decode its arguments, call the
    /// one matching filesystem method, and frame the reply.
    fn route<FS: Filesystem>(&self, h: InHeader, fs: &mut FS) -> (r: Outcome)
        requires
            self.msg().len() >= IN_HEADER_SIZE,
            h == spec_in_header(self.msg()),
            !(spec_opcode_of(h.opcode) is Init),
            !(spec_opcode_of(h.opcode) is Destroy),
        ensures
            ({
                let s = self.msg();
                let op = spec_opcode_of(h.opcode);
                let u = h.unique;
                &&& (r matches Outcome::Reply(f) ==> valid_reply(f@) && frame_unique_field(f@)
                    == u)
                &&& (wf_msg(s) ==> !(r is Malformed))
                &&& (r is Malformed ==> !wf_msg(s))
                &&& (r is Quiet ==> op is Forget)
                &&& (op is Forget ==> !(r is Reply))
                &&& (op is Unknown ==> replies(r, error_frame(u, ENOSYS)))
            }),
    {
        let op = opcode_of(h.opcode);
        match op {
            Opcode::Lookup => match fetch_str(&self.data, IN_HEADER_SIZE) {
                None => Outcome::Malformed,
                Some((name, _end)) => Outcome::Reply(self.reply(fs.lookup(h.nodeid, name))),
            },
            Opcode::Forget => {
                if self.data.len() < 48 {
                    Outcome::Malformed
                } else {
                    let arg = parse_forget_in(&self.data);
                    fs.forget(h.nodeid, arg.nlookup);
                    Outcome::Quiet
                }
            },
            Opcode::Getattr => Outcome::Reply(self.reply(fs.getattr(h.nodeid))),
            Opcode::Setattr => {
                if self.data.len() < 104 {
                    Outcome::Malformed
                } else {
                    let arg = parse_setattr_in(&self.data);
                    Outcome::Reply(self.reply(fs.setattr(h.nodeid, arg)))
                }
            },
            Opcode::Readlink => Outcome::Reply(self.reply(fs.readlink(h.nodeid))),
            Opcode::Symlink => match fetch_str(&self.data, IN_HEADER_SIZE) {
                None => Outcome::Malformed,
                Some((name, end)) => match fetch_str(&self.data, end) {
                    None => Outcome::Malformed,
                    Some((link, _end)) => Outcome::Reply(
                        self.reply(fs.symlink(h.nodeid, name, link)),
                    ),
                },
            },
            Opcode::Mknod => {
                if self.data.len() < 48 {
                    Outcome::Malformed
                } else {
                    let arg = parse_mknod_in(&self.data);
                    match fetch_str(&self.data, 48) {
                        None => Outcome::Malformed,
                        Some((name, _end)) => Outcome::Reply(
                            self.reply(fs.mknod(h.nodeid, name, arg.mode, arg.rdev)),
                        ),
                    }
                }
            },
            Opcode::Mkdir => {
                if self.data.len() < 48 {
                    Outcome::Malformed
                } else {
                    let arg = parse_mkdir_in(&self.data);
                    match fetch_str(&self.data, 48) {
                        None => Outcome::Malformed,
                        Some((name, _end)) => Outcome::Reply(
                            self.reply(fs.mkdir(h.nodeid, name, arg.mode)),
                        ),
                    }
                }
            },
            Opcode::Unlink => match fetch_str(&self.data, IN_HEADER_SIZE) {
                None => Outcome::Malformed,
                Some((name, _end)) => Outcome::Reply(self.reply(fs.unlink(h.nodeid, name))),
            },
            Opcode::Rmdir => match fetch_str(&self.data, IN_HEADER_SIZE) {
                None => Outcome::Malformed,
                Some((name, _end)) => Outcome::Reply(self.reply(fs.rmdir(h.nodeid, name))),
            },
            Opcode::Rename => {
                if self.data.len() < 48 {
                    Outcome::Malformed
                } else {
                    let arg = parse_rename_in(&self.data);
                    match fetch_str(&self.data, 48) {
                        None => Outcome::Malformed,
                        Some((name, end)) => match fetch_str(&self.data, end) {
                            None => Outcome::Malformed,
                            Some((newname, _end)) => Outcome::Reply(
                                self.reply(fs.rename(h.nodeid, name, arg.newdir, newname)),
                            ),
                        },
                    }
                }
            },
            Opcode::Link => {
                if self.data.len() < 48 {
                    Outcome::Malformed
                } else {
                    let arg = parse_link_in(&self.data);
                    match fetch_str(&self.data, 48) {
                        None => Outcome::Malformed,
                        Some((newname, _end)) => Outcome::Reply(
                            self.reply(fs.link(arg.oldnodeid, h.nodeid, newname)),
                        ),
                    }
                }
            },
            Opcode::Open => {
                if self.data.len() < 48 {
                    Outcome::Malformed
                } else {
                    let arg = parse_open_in(&self.data);
                    Outcome::Reply(self.reply(fs.open(h.nodeid, arg.flags)))
                }
            },
            Opcode::Read => {
                if self.data.len() < 64 {
                    Outcome::Malformed
                } else {
                    let arg = parse_read_in(&self.data);
                    Outcome::Reply(self.reply(fs.read(h.nodeid, arg.fh, arg.offset, arg.size)))
                }
            },
            Opcode::Write => {
                if self.data.len() < 64 {
                    Outcome::Malformed
                } else {
                    let arg = parse_write_in(&self.data);
                    let data = fetch_data(&self.data, 64);
                    if data.len() != arg.size as usize {
                        // The trailing span must be exactly as long as the
                        // record declares; a mismatch is a protocol violation
                        // answered with an I/O error.
                        Outcome::Reply(self.reply_error(EIO))
                    } else {
                        match fs.write(h.nodeid, arg.fh, arg.offset, data, arg.write_flags) {
                            Ok(written) => Outcome::Reply(self.write_reply(written)),
                            Err(e) => Outcome::Reply(self.reply_error(e)),
                        }
                    }
                }
            },
            Opcode::Statfs => Outcome::Reply(self.reply(fs.statfs(h.nodeid))),
            Opcode::Release => {
                if self.data.len() < 64 {
                    Outcome::Malformed
                } else {
                    let arg = parse_release_in(&self.data);
                    let flush = arg.release_flags & RELEASE_FLUSH != 0;
                    Outcome::Reply(
                        self.reply(fs.release(h.nodeid, arg.fh, arg.flags, arg.lock_owner, flush)),
                    )
                }
            },
            Opcode::Fsync => {
                if self.data.len() < 56 {
                    Outcome::Malformed
                } else {
                    let arg = parse_fsync_in(&self.data);
                    let datasync = arg.fsync_flags & FSYNC_DATA_ONLY != 0;
                    Outcome::Reply(self.reply(fs.fsync(h.nodeid, arg.fh, datasync)))
                }
            },
            Opcode::Setxattr => {
                if self.data.len() < 56 {
                    Outcome::Malformed
                } else {
                    let arg = parse_setxattr_in(&self.data);
                    match fetch_str(&self.data, 56) {
                        None => Outcome::Malformed,
                        Some((name, end)) => {
                            let value = fetch_data(&self.data, end);
                            if value.len() != arg.size as usize {
                                // Same protocol violation as a WRITE span
                                // mismatch.
                                Outcome::Reply(self.reply_error(EIO))
                            } else {
                                Outcome::Reply(
                                    self.reply(
                                        fs.setxattr(
                                            h.nodeid,
                                            name,
                                            value,
                                            arg.flags,
                                            arg.position,
                                        ),
                                    ),
                                )
                            }
                        },
                    }
                }
            },
            Opcode::Getxattr => {
                if self.data.len() < 48 {
                    Outcome::Malformed
                } else {
                    let arg = parse_getxattr_in(&self.data);
                    match fetch_str(&self.data, 48) {
                        None => Outcome::Malformed,
                        Some((name, _end)) => match fs.getxattr(h.nodeid, name) {
                            Ok(value) => Outcome::Reply(self.getxattr_reply(arg.size, value)),
                            Err(e) => Outcome::Reply(self.reply_error(e)),
                        },
                    }
                }
            },
            Opcode::Listxattr => {
                if self.data.len() < 48 {
                    Outcome::Malformed
                } else {
                    // The success path is a deliberate gap: the attribute
                    // list is not yet formatted, so it reports "not
                    // implemented" even when the filesystem succeeds.
                    match fs.listxattr(h.nodeid) {
                        Ok(_) => Outcome::Reply(self.reply_error(ENOSYS)),
                        Err(e) => Outcome::Reply(self.reply_error(e)),
                    }
                }
            },
            Opcode::Removexattr => match fetch_str(&self.data, IN_HEADER_SIZE) {
                None => Outcome::Malformed,
                Some((name, _end)) => Outcome::Reply(self.reply(fs.removexattr(h.nodeid, name))),
            },
            Opcode::Flush => {
                if self.data.len() < 64 {
                    Outcome::Malformed
                } else {
                    let arg = parse_flush_in(&self.data);
                    Outcome::Reply(self.reply(fs.flush(h.nodeid, arg.fh, arg.lock_owner)))
                }
            },
            Opcode::Opendir => {
                if self.data.len() < 48 {
                    Outcome::Malformed
                } else {
                    let arg = parse_open_in(&self.data);
                    Outcome::Reply(self.reply(fs.opendir(h.nodeid, arg.flags)))
                }
            },
            Opcode::Readdir => {
                if self.data.len() < 64 {
                    Outcome::Malformed
                } else {
                    let arg = parse_read_in(&self.data);
                    Outcome::Reply(self.reply(fs.readdir(h.nodeid, arg.fh, arg.offset, arg.size)))
                }
            },
            Opcode::Releasedir => {
                if self.data.len() < 64 {
                    Outcome::Malformed
                } else {
                    let arg = parse_release_in(&self.data);
                    Outcome::Reply(self.reply(fs.releasedir(h.nodeid, arg.fh, arg.flags)))
                }
            },
            Opcode::Fsyncdir => {
                if self.data.len() < 56 {
                    Outcome::Malformed
                } else {
                    let arg = parse_fsync_in(&self.data);
                    let datasync = arg.fsync_flags & FSYNC_DATA_ONLY != 0;
                    Outcome::Reply(self.reply(fs.fsyncdir(h.nodeid, arg.fh, datasync)))
                }
            },
            Opcode::Access => {
                if self.data.len() < 48 {
                    Outcome::Malformed
                } else {
                    let arg = parse_access_in(&self.data);
                    Outcome::Reply(self.reply(fs.access(h.nodeid, arg.mask)))
                }
            },
            Opcode::Bmap => {
                if self.data.len() < 56 {
                    Outcome::Malformed
                } else {
                    let arg = parse_bmap_in(&self.data);
                    Outcome::Reply(self.reply(fs.bmap(h.nodeid, arg.blocksize, arg.block)))
                }
            },
            Opcode::Setvolname => match fetch_str(&self.data, IN_HEADER_SIZE) {
                None => Outcome::Malformed,
                Some((name, _end)) => Outcome::Reply(self.reply(fs.setvolname(name))),
            },
            Opcode::Exchange => {
                if self.data.len() < 64 {
                    Outcome::Malformed
                } else {
                    let arg = parse_exchange_in(&self.data);
                    match fetch_str(&self.data, 64) {
                        None => Outcome::Malformed,
                        Some((oldname, end)) => match fetch_str(&self.data, end) {
                            None => Outcome::Malformed,
                            Some((newname, _end)) => Outcome::Reply(
                                self.reply(
                                    fs.exchange(
                                        arg.olddir,
                                        oldname,
                                        arg.newdir,
                                        newname,
                                        arg.options,
                                    ),
                                ),
                            ),
                        },
                    }
                }
            },
            Opcode::Getxtimes => Outcome::Reply(self.reply(fs.getxtimes(h.nodeid))),
            // The lifecycle operations never reach this point: `dispatch`
            // handles them before routing.
            Opcode::Init => Outcome::Malformed,
            Opcode::Destroy => Outcome::Malformed,
            Opcode::Unknown => Outcome::Reply(self.reply_error(ENOSYS)),
        }
    }
}

} // verus!
