use zmq2::Error;

const ALL: [Error; 28] = [
    Error::EACCES, Error::EADDRINUSE, Error::EAGAIN, Error::EBUSY, Error::ECONNREFUSED,
    Error::EFAULT, Error::EINTR, Error::EHOSTUNREACH, Error::EINPROGRESS, Error::EINVAL,
    Error::EMFILE, Error::EMSGSIZE, Error::ENAMETOOLONG, Error::ENODEV, Error::ENOENT,
    Error::ENOMEM, Error::ENOTCONN, Error::ENOTSOCK, Error::EPROTO, Error::EPROTONOSUPPORT,
    Error::ENOTSUP, Error::ENOBUFS, Error::ENETDOWN, Error::EADDRNOTAVAIL, Error::EFSM,
    Error::ENOCOMPATPROTO, Error::ETERM, Error::EMTHREAD,
];

#[test]
fn posix_codes_match_libc() {
    assert_eq!(Error::EACCES.to_raw(), libc::EACCES);
    assert_eq!(Error::EADDRINUSE.to_raw(), libc::EADDRINUSE);
    assert_eq!(Error::EAGAIN.to_raw(), libc::EAGAIN);
    assert_eq!(Error::EBUSY.to_raw(), libc::EBUSY);
    assert_eq!(Error::ECONNREFUSED.to_raw(), libc::ECONNREFUSED);
    assert_eq!(Error::EFAULT.to_raw(), libc::EFAULT);
    assert_eq!(Error::EINTR.to_raw(), libc::EINTR);
    assert_eq!(Error::EHOSTUNREACH.to_raw(), libc::EHOSTUNREACH);
    assert_eq!(Error::EINPROGRESS.to_raw(), libc::EINPROGRESS);
    assert_eq!(Error::EINVAL.to_raw(), libc::EINVAL);
    assert_eq!(Error::EMFILE.to_raw(), libc::EMFILE);
    assert_eq!(Error::EMSGSIZE.to_raw(), libc::EMSGSIZE);
    assert_eq!(Error::ENAMETOOLONG.to_raw(), libc::ENAMETOOLONG);
    assert_eq!(Error::ENODEV.to_raw(), libc::ENODEV);
    assert_eq!(Error::ENOENT.to_raw(), libc::ENOENT);
    assert_eq!(Error::ENOMEM.to_raw(), libc::ENOMEM);
    assert_eq!(Error::ENOTCONN.to_raw(), libc::ENOTCONN);
    assert_eq!(Error::ENOTSOCK.to_raw(), libc::ENOTSOCK);
    assert_eq!(Error::EPROTO.to_raw(), libc::EPROTO);
    assert_eq!(Error::EPROTONOSUPPORT.to_raw(), libc::EPROTONOSUPPORT);
}

#[test]
fn zmq_codes() {
    assert_eq!(Error::ENOTSUP.to_raw(), 156384713);
    assert_eq!(Error::ENOBUFS.to_raw(), 156384715);
    assert_eq!(Error::ENETDOWN.to_raw(), 156384716);
    assert_eq!(Error::EADDRNOTAVAIL.to_raw(), 156384718);
    assert_eq!(Error::EFSM.to_raw(), 156384763);
    assert_eq!(Error::ENOCOMPATPROTO.to_raw(), 156384764);
    assert_eq!(Error::ETERM.to_raw(), 156384765);
    assert_eq!(Error::EMTHREAD.to_raw(), 156384766);
}

#[test]
fn decode_own_codes() {
    for e in ALL.iter() {
        assert_eq!(Error::from_raw(e.to_raw()), *e);
        assert_eq!(Error::try_from_raw(e.to_raw()), Some(*e));
    }
}

#[test]
fn decode_eintr() {
    assert_eq!(Error::from_raw(libc::EINTR), Error::EINTR);
}

#[test]
fn decode_stand_in_codes() {
    assert_eq!(Error::from_raw(156384714), Error::EPROTONOSUPPORT);
    assert_eq!(Error::from_raw(156384717), Error::EADDRINUSE);
    assert_eq!(Error::from_raw(156384719), Error::ECONNREFUSED);
    assert_eq!(Error::from_raw(156384720), Error::EINPROGRESS);
    assert_eq!(Error::from_raw(156384721), Error::ENOTSOCK);
}

#[test]
fn unknown_codes_not_decoded() {
    assert_eq!(Error::try_from_raw(0), None);
    assert_eq!(Error::try_from_raw(156384712), None);
    assert_eq!(Error::try_from_raw(156384767), None);
    assert_eq!(Error::try_from_raw(-1), None);
}

#[test]
fn destroy_retried_only_when_interrupted() {
    assert!(zmq2::error::destroy_interrupted(&Err(Error::EINTR)));
    assert!(!zmq2::error::destroy_interrupted(&Err(Error::EFAULT)));
    assert!(!zmq2::error::destroy_interrupted(&Ok(())));
}
