use vstd::prelude::*;
use crate::error::Error;

verus! {

/// A value backed by one raw transport handle.
pub trait AsSocket {
    /// The handle, as a value.
    spec fn handle(&self) -> i32;

    /// Returns the internal handle.
    fn as_socket(&self) -> (r: i32)
        ensures
            r == self.handle(),
    ;
}

/// A socket that is bound, explicitly or by connecting, and so has a local
/// address.
pub trait Bind: AsSocket {
}

/// A connected socket, which also has a peer address.
pub trait Connect: Bind {
}

/// A connected, bidirectional endpoint; sole owner of its handle.
pub struct Stream {
    sock: i32,
}

/// An accepting endpoint bound to a local address; sole owner of its handle.
pub struct Listener {
    sock: i32,
}

impl Stream {
    /// Takes ownership of a connected handle.
    pub fn from_raw(sock: i32) -> (r: Stream)
        ensures
            r.handle() == sock,
    {
        Stream { sock }
    }

    /// Every successful write is already handed to the engine, which keeps no
    /// buffer that needs flushing: this always succeeds.
    pub fn flush(&self) -> (r: Result<(), Error>)
        ensures
            r is Ok,
    {
        Ok(())
    }
}

impl Listener {
    /// Takes ownership of a listening handle.
    pub fn from_raw(sock: i32) -> (r: Listener)
        ensures
            r.handle() == sock,
    {
        Listener { sock }
    }
}

impl AsSocket for Stream {
    closed spec fn handle(&self) -> i32 {
        self.sock
    }

    fn as_socket(&self) -> (r: i32) {
        self.sock
    }
}

impl<'a> AsSocket for &'a Stream {
    closed spec fn handle(&self) -> i32 {
        self.sock
    }

    fn as_socket(&self) -> (r: i32) {
        self.sock
    }
}

impl AsSocket for Listener {
    closed spec fn handle(&self) -> i32 {
        self.sock
    }

    fn as_socket(&self) -> (r: i32) {
        self.sock
    }
}

impl Bind for Stream {
}

impl Connect for Stream {
}

impl Bind for Listener {
}

} // verus!
