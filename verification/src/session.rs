//! The per-mount session: negotiated protocol version, lifecycle flags, and
//! the filesystem implementation the dispatcher routes into.

use vstd::prelude::*;

verus! {

/// State shared by every request of one mount.
///
/// The lifecycle is monotonic: `initialized` flips to true after a successful
/// INIT exchange, `destroyed` flips to true on DESTROY, and neither ever goes
/// back.  The session owns the filesystem implementation for the mount's
/// whole life.
///
/// Dispatch mutates this state, so a deployment that lets several workers
/// read the same channel must serialize their dispatch calls around one
/// session; the simple, race-free shape is a single worker per session.
pub struct Session<FS> {
    pub filesystem: FS,
    pub initialized: bool,
    pub destroyed: bool,
    pub proto_major: u32,
    pub proto_minor: u32,
}

impl<FS> Session<FS> {
    /// A destroyed session went through initialization first.
    pub open spec fn wf(&self) -> bool {
        self.destroyed ==> self.initialized
    }

    /// A fresh, uninitialized session around `filesystem`.
    pub fn new(filesystem: FS) -> (s: Session<FS>)
        ensures
            !s.initialized,
            !s.destroyed,
            s.proto_major == 0,
            s.proto_minor == 0,
            s.wf(),
    {
        Session { filesystem, initialized: false, destroyed: false, proto_major: 0, proto_minor: 0 }
    }
}

} // verus!
