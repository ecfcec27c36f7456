use zmq_async::pattern::{capabilities, Capabilities, Direction, SocketPattern};

fn caps(readable: bool, writable: bool) -> Capabilities {
    Capabilities { readable, writable }
}

#[test]
fn send_only_patterns() {
    assert_eq!(capabilities(SocketPattern::Push), caps(false, true));
    assert_eq!(capabilities(SocketPattern::Pub), caps(false, true));
}

#[test]
fn receive_only_patterns() {
    assert_eq!(capabilities(SocketPattern::Pull), caps(true, false));
    assert_eq!(capabilities(SocketPattern::Sub), caps(true, false));
}

#[test]
fn two_way_patterns() {
    for p in [
        SocketPattern::Pair,
        SocketPattern::Req,
        SocketPattern::Rep,
        SocketPattern::Dealer,
        SocketPattern::Router,
        SocketPattern::XPub,
        SocketPattern::XSub,
        SocketPattern::Stream,
    ] {
        assert_eq!(capabilities(p), caps(true, true));
    }
}

#[test]
fn allows_and_other() {
    let c = caps(true, false);
    assert!(c.allows(Direction::Read));
    assert!(!c.allows(Direction::Write));
    assert_eq!(Direction::Read.other(), Direction::Write);
    assert_eq!(Direction::Write.other(), Direction::Read);
}
