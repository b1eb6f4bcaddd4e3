use vstd::prelude::*;

verus! {

/// Smallest engine error code of the "try again" class that means the call would block.
pub const WOULD_BLOCK_FIRST: i32 = 6000;

/// Largest engine error code that means the call would block (no data to read).
pub const WOULD_BLOCK_LAST: i32 = 6002;

/// A categorized failure of a socket or multiplexer operation.
#[derive(PartialEq, Eq, Structural, Clone, Copy, Debug)]
pub enum Error {
    /// The operation could not complete at once under nonblocking mode.
    WouldBlock { code: i32 },
    /// Any other failure reported by the transport engine, with its code.
    Transport { code: i32 },
    /// The handle was already registered with the multiplexer.
    AlreadyRegistered { sock: i32 },
    /// The handle is not registered with the multiplexer.
    NotRegistered { sock: i32 },
}

pub open spec fn is_would_block_code(code: i32) -> bool {
    WOULD_BLOCK_FIRST <= code <= WOULD_BLOCK_LAST
}

pub open spec fn error_of_code(code: i32) -> Error {
    if is_would_block_code(code) {
        Error::WouldBlock { code }
    } else {
        Error::Transport { code }
    }
}

impl Error {
    /// Classifies an error code reported by the transport engine.
    pub fn from_code(code: i32) -> (e: Error)
        ensures
            e == error_of_code(code),
    {
        if WOULD_BLOCK_FIRST <= code && code <= WOULD_BLOCK_LAST {
            Error::WouldBlock { code }
        } else {
            Error::Transport { code }
        }
    }

    /// Whether this is the would-block category, which callers retry on.
    pub fn is_would_block(&self) -> (r: bool)
        ensures
            r == (self is WouldBlock),
    {
        match self {
            Error::WouldBlock { .. } => true,
            _ => false,
        }
    }
}

} // verus!
