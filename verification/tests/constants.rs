use zmq2::{Constants, Mechanism, SocketType, DONTWAIT, POLLERR, POLLIN, POLLOUT, SNDMORE};
use zmq2::{DEALER, PAIR, PUB, PULL, PUSH, REP, REQ, ROUTER, SUB, XPUB, XSUB};

#[test]
fn socket_type_codes() {
    let all = [PAIR, PUB, SUB, REQ, REP, DEALER, ROUTER, PULL, PUSH, XPUB, XSUB];
    for (i, t) in all.iter().enumerate() {
        assert_eq!(t.to_raw(), i as i32);
        assert_eq!(SocketType::from_raw(i as i32), Some(*t));
    }
    assert_eq!(REQ.to_raw(), 3);
    assert_eq!(SocketType::from_raw(11), None);
    assert_eq!(SocketType::from_raw(-1), None);
}

#[test]
fn constants_codes() {
    assert_eq!(Constants::ZMQ_AFFINITY.to_raw(), 4);
    assert_eq!(Constants::ZMQ_LINGER.to_raw(), 17);
    assert_eq!(Constants::ZMQ_LAST_ENDPOINT.to_raw(), 32);
    assert_eq!(Constants::ZMQ_XPUB_NODROP.to_raw(), 69);
    assert_eq!(Constants::ZMQ_MSG_MORE.to_raw(), 1);
    assert_eq!(Constants::ZMQ_MSG_SHARED.to_raw(), 128);
    assert_eq!(Constants::ZMQ_MSG_MASK.to_raw(), 129);
    assert_eq!(Constants::from_raw(23), Some(Constants::ZMQ_SNDHWM));
    assert_eq!(Constants::from_raw(66), Some(Constants::ZMQ_HANDSHAKE_IVL));
    for missing in [0, 2, 3, 10, 20, 26, 29, 30, 31, 38, 58, 59, 60, 67, 70, 127, 130, -4] {
        assert_eq!(Constants::from_raw(missing), None);
    }
}

#[test]
fn constants_roundtrip() {
    let mut found = 0;
    for raw in -10..300 {
        if let Some(c) = Constants::from_raw(raw) {
            assert_eq!(c.to_raw(), raw);
            found += 1;
        }
    }
    assert_eq!(found, 58);
}

#[test]
fn mechanism_codes() {
    assert_eq!(Mechanism::ZMQ_NULL.to_raw(), 0);
    assert_eq!(Mechanism::ZMQ_GSSAPI.to_raw(), 3);
    assert_eq!(Mechanism::from_raw(1), Some(Mechanism::ZMQ_PLAIN));
    assert_eq!(Mechanism::from_raw(2), Some(Mechanism::ZMQ_CURVE));
    assert_eq!(Mechanism::from_raw(4), None);
}

#[test]
fn flag_values() {
    assert_eq!(DONTWAIT, 1);
    assert_eq!(SNDMORE, 2);
    assert_eq!(POLLIN, 1);
    assert_eq!(POLLOUT, 2);
    assert_eq!(POLLERR, 4);
}
