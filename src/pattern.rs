use vstd::prelude::*;

verus! {

/// The messaging role of a socket; fixed once the socket is opened.
#[derive(Clone, Copy, Debug, PartialEq, Eq, Structural)]
pub enum SocketPattern {
    Pair,
    Pub,
    Sub,
    Req,
    Rep,
    Dealer,
    Router,
    Pull,
    Push,
    XPub,
    XSub,
    Stream,
}

/// Which directions a socket pattern structurally allows.
#[derive(Clone, Copy, Debug, PartialEq, Eq, Structural)]
pub struct Capabilities {
    pub readable: bool,
    pub writable: bool,
}

/// The two logical directions of a socket.
#[derive(Clone, Copy, Debug, PartialEq, Eq, Structural)]
pub enum Direction {
    Read,
    Write,
}

impl Direction {
    pub open spec fn opposite(self) -> Direction {
        match self {
            Direction::Read => Direction::Write,
            Direction::Write => Direction::Read,
        }
    }

    /// The other direction.
    pub fn other(self) -> (r: Direction)
        ensures
            r == self.opposite(),
    {
        match self {
            Direction::Read => Direction::Write,
            Direction::Write => Direction::Read,
        }
    }
}

/// Patterns that may only send.
pub open spec fn is_send_only(p: SocketPattern) -> bool {
    p is Push || p is Pub
}

/// Patterns that may only receive.
pub open spec fn is_receive_only(p: SocketPattern) -> bool {
    p is Pull || p is Sub
}

/// The capability pair of a pattern: send-only patterns cannot read,
/// receive-only patterns cannot write, every other pattern does both.
pub open spec fn capabilities_of(p: SocketPattern) -> Capabilities {
    Capabilities { readable: !is_send_only(p), writable: !is_receive_only(p) }
}

impl Capabilities {
    pub open spec fn permits(self, dir: Direction) -> bool {
        match dir {
            Direction::Read => self.readable,
            Direction::Write => self.writable,
        }
    }

    /// Whether this capability pair allows operations in `dir`.
    pub fn allows(&self, dir: Direction) -> (r: bool)
        ensures
            r == self.permits(dir),
    {
        match dir {
            Direction::Read => self.readable,
            Direction::Write => self.writable,
        }
    }
}

/// The capability pair of `pattern`.
pub fn capabilities(pattern: SocketPattern) -> (r: Capabilities)
    ensures
        r == capabilities_of(pattern),
{
    match pattern {
        SocketPattern::Push | SocketPattern::Pub => Capabilities { readable: false, writable: true },
        SocketPattern::Pull | SocketPattern::Sub => Capabilities { readable: true, writable: false },
        _ => Capabilities { readable: true, writable: true },
    }
}

} // verus!
