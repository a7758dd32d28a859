use vstd::prelude::*;

verus! {

/// Errors reported by libzmq.
///
/// The codes of the POSIX errors are those of Linux; the others are libzmq's
/// own, offsets from 156384712.
#[derive(Clone, Copy, Debug, PartialEq, Eq, Structural)]
pub enum Error {
    EACCES,
    EADDRINUSE,
    EAGAIN,
    EBUSY,
    ECONNREFUSED,
    EFAULT,
    EINTR,
    EHOSTUNREACH,
    EINPROGRESS,
    EINVAL,
    EMFILE,
    EMSGSIZE,
    ENAMETOOLONG,
    ENODEV,
    ENOENT,
    ENOMEM,
    ENOTCONN,
    ENOTSOCK,
    EPROTO,
    EPROTONOSUPPORT,
    ENOTSUP,
    ENOBUFS,
    ENETDOWN,
    EADDRNOTAVAIL,
    EFSM,
    ENOCOMPATPROTO,
    ETERM,
    EMTHREAD,
}

impl Error {
    /// The numeric code of this error.
    pub open spec fn code(self) -> int {
        match self {
            Error::EACCES => 13,
            Error::EADDRINUSE => 98,
            Error::EAGAIN => 11,
            Error::EBUSY => 16,
            Error::ECONNREFUSED => 111,
            Error::EFAULT => 14,
            Error::EINTR => 4,
            Error::EHOSTUNREACH => 113,
            Error::EINPROGRESS => 115,
            Error::EINVAL => 22,
            Error::EMFILE => 24,
            Error::EMSGSIZE => 90,
            Error::ENAMETOOLONG => 36,
            Error::ENODEV => 19,
            Error::ENOENT => 2,
            Error::ENOMEM => 12,
            Error::ENOTCONN => 107,
            Error::ENOTSOCK => 88,
            Error::EPROTO => 71,
            Error::EPROTONOSUPPORT => 93,
            Error::ENOTSUP => 156384713,
            Error::ENOBUFS => 156384715,
            Error::ENETDOWN => 156384716,
            Error::EADDRNOTAVAIL => 156384718,
            Error::EFSM => 156384763,
            Error::ENOCOMPATPROTO => 156384764,
            Error::ETERM => 156384765,
            Error::EMTHREAD => 156384766,
        }
    }

    /// The error that libzmq's code `raw` stands for, where the binding knows
    /// it. Besides the codes of the variants, libzmq's own stand-ins for
    /// POSIX codes that a platform lacks are understood.
    pub open spec fn decode(raw: int) -> Option<Error> {
        if exists|e: Error| e.code() == raw {
            Some(choose|e: Error| e.code() == raw)
        } else {
            Error::stand_in(raw)
        }
    }

    /// The POSIX errors for which libzmq has codes of its own, used on
    /// platforms that lack them.
    pub open spec fn stand_in(raw: int) -> Option<Error> {
        if raw == 156384712 + 2 {
            Some(Error::EPROTONOSUPPORT)
        } else if raw == 156384712 + 5 {
            Some(Error::EADDRINUSE)
        } else if raw == 156384712 + 7 {
            Some(Error::ECONNREFUSED)
        } else if raw == 156384712 + 8 {
            Some(Error::EINPROGRESS)
        } else if raw == 156384712 + 9 {
            Some(Error::ENOTSOCK)
        } else {
            None
        }
    }

    /// The numeric code of this error.
    pub fn to_raw(&self) -> (raw: i32)
        ensures
            raw == self.code(),
    {
        match self {
            Error::EACCES => 13,
            Error::EADDRINUSE => 98,
            Error::EAGAIN => 11,
            Error::EBUSY => 16,
            Error::ECONNREFUSED => 111,
            Error::EFAULT => 14,
            Error::EINTR => 4,
            Error::EHOSTUNREACH => 113,
            Error::EINPROGRESS => 115,
            Error::EINVAL => 22,
            Error::EMFILE => 24,
            Error::EMSGSIZE => 90,
            Error::ENAMETOOLONG => 36,
            Error::ENODEV => 19,
            Error::ENOENT => 2,
            Error::ENOMEM => 12,
            Error::ENOTCONN => 107,
            Error::ENOTSOCK => 88,
            Error::EPROTO => 71,
            Error::EPROTONOSUPPORT => 93,
            Error::ENOTSUP => 156384713,
            Error::ENOBUFS => 156384715,
            Error::ENETDOWN => 156384716,
            Error::EADDRNOTAVAIL => 156384718,
            Error::EFSM => 156384763,
            Error::ENOCOMPATPROTO => 156384764,
            Error::ETERM => 156384765,
            Error::EMTHREAD => 156384766,
        }
    }

    /// The error for `raw`, or `None` where the code is not one the binding
    /// decodes.
    pub fn try_from_raw(raw: i32) -> (res: Option<Error>)
        ensures
            res == Error::decode(raw as int),
    {
        let res = match raw {
            4 => Some(Error::EINTR),
            13 => Some(Error::EACCES),
            98 => Some(Error::EADDRINUSE),
            11 => Some(Error::EAGAIN),
            16 => Some(Error::EBUSY),
            111 => Some(Error::ECONNREFUSED),
            14 => Some(Error::EFAULT),
            113 => Some(Error::EHOSTUNREACH),
            115 => Some(Error::EINPROGRESS),
            22 => Some(Error::EINVAL),
            24 => Some(Error::EMFILE),
            90 => Some(Error::EMSGSIZE),
            36 => Some(Error::ENAMETOOLONG),
            19 => Some(Error::ENODEV),
            2 => Some(Error::ENOENT),
            12 => Some(Error::ENOMEM),
            107 => Some(Error::ENOTCONN),
            88 => Some(Error::ENOTSOCK),
            71 => Some(Error::EPROTO),
            93 => Some(Error::EPROTONOSUPPORT),
            156384713 => Some(Error::ENOTSUP),
            156384714 => Some(Error::EPROTONOSUPPORT),
            156384715 => Some(Error::ENOBUFS),
            156384716 => Some(Error::ENETDOWN),
            156384717 => Some(Error::EADDRINUSE),
            156384718 => Some(Error::EADDRNOTAVAIL),
            156384719 => Some(Error::ECONNREFUSED),
            156384720 => Some(Error::EINPROGRESS),
            156384721 => Some(Error::ENOTSOCK),
            156384763 => Some(Error::EFSM),
            156384764 => Some(Error::ENOCOMPATPROTO),
            156384765 => Some(Error::ETERM),
            156384766 => Some(Error::EMTHREAD),
            _ => None,
        };
        proof {
            match res {
                Some(c) => {
                    if c.code() == raw {
                        let v = choose|e: Error| e.code() == raw;
                        lemma_error_injective(v, c);
                    } else {
                        assert(forall|e: Error| #[trigger] e.code() != raw);
                    }
                },
                None => {
                    assert(forall|e: Error| #[trigger] e.code() != raw);
                },
            }
        }
        res
    }

    /// The error for `raw`; the code must be one the binding decodes.
    pub fn from_raw(raw: i32) -> (res: Error)
        requires
            Error::decode(raw as int) is Some,
        ensures
            Error::decode(raw as int) == Some(res),
    {
        Error::try_from_raw(raw).unwrap()
    }
}

/// Whether an attempt to destroy a context is to be made again: exactly
/// when the attempt was interrupted.
pub fn destroy_interrupted(result: &Result<(), Error>) -> (b: bool)
    ensures
        b == (*result == Err::<(), Error>(Error::EINTR)),
{
    match result {
        Err(Error::EINTR) => true,
        _ => false,
    }
}

/// Decoding the code of an error gives that error back.
pub proof fn lemma_error_code_roundtrip(e: Error)
    ensures
        Error::decode(e.code()) == Some(e),
{
}

/// Decoding gives an error either from its own code or from libzmq's
/// stand-in code for it.
pub proof fn lemma_error_decode_sound(raw: int)
    requires
        Error::decode(raw) is Some,
    ensures
        Error::decode(raw)->0.code() == raw || raw == 156384712 + 2 || raw == 156384712 + 5
            || raw == 156384712 + 7 || raw == 156384712 + 8 || raw == 156384712 + 9,
{
}

proof fn lemma_error_injective(a: Error, b: Error)
    requires
        a.code() == b.code(),
    ensures
        a == b,
{
}

/// Each error has the code that libzmq reports for it on Linux, and that
/// code decodes as that error: the POSIX numbers for the system errors, and
/// libzmq's own numbers, counted from 156384712, for `ENOTSUP`, `ENOBUFS`,
/// `ENETDOWN`, `EADDRNOTAVAIL`, `EFSM`, `ENOCOMPATPROTO`, `ETERM` and
/// `EMTHREAD`.
pub proof fn lemma_error_libzmq_codes()
    ensures
        Error::EACCES.code() == 13,
        Error::EADDRINUSE.code() == 98,
        Error::EAGAIN.code() == 11,
        Error::EBUSY.code() == 16,
        Error::ECONNREFUSED.code() == 111,
        Error::EFAULT.code() == 14,
        Error::EINTR.code() == 4,
        Error::EHOSTUNREACH.code() == 113,
        Error::EINPROGRESS.code() == 115,
        Error::EINVAL.code() == 22,
        Error::EMFILE.code() == 24,
        Error::EMSGSIZE.code() == 90,
        Error::ENAMETOOLONG.code() == 36,
        Error::ENODEV.code() == 19,
        Error::ENOENT.code() == 2,
        Error::ENOMEM.code() == 12,
        Error::ENOTCONN.code() == 107,
        Error::ENOTSOCK.code() == 88,
        Error::EPROTO.code() == 71,
        Error::EPROTONOSUPPORT.code() == 93,
        Error::ENOTSUP.code() == 156384713,
        Error::ENOBUFS.code() == 156384715,
        Error::ENETDOWN.code() == 156384716,
        Error::EADDRNOTAVAIL.code() == 156384718,
        Error::EFSM.code() == 156384763,
        Error::ENOCOMPATPROTO.code() == 156384764,
        Error::ETERM.code() == 156384765,
        Error::EMTHREAD.code() == 156384766,
        Error::decode(13) == Some(Error::EACCES),
        Error::decode(98) == Some(Error::EADDRINUSE),
        Error::decode(11) == Some(Error::EAGAIN),
        Error::decode(16) == Some(Error::EBUSY),
        Error::decode(111) == Some(Error::ECONNREFUSED),
        Error::decode(14) == Some(Error::EFAULT),
        Error::decode(4) == Some(Error::EINTR),
        Error::decode(113) == Some(Error::EHOSTUNREACH),
        Error::decode(115) == Some(Error::EINPROGRESS),
        Error::decode(22) == Some(Error::EINVAL),
        Error::decode(24) == Some(Error::EMFILE),
        Error::decode(90) == Some(Error::EMSGSIZE),
        Error::decode(36) == Some(Error::ENAMETOOLONG),
        Error::decode(19) == Some(Error::ENODEV),
        Error::decode(2) == Some(Error::ENOENT),
        Error::decode(12) == Some(Error::ENOMEM),
        Error::decode(107) == Some(Error::ENOTCONN),
        Error::decode(88) == Some(Error::ENOTSOCK),
        Error::decode(71) == Some(Error::EPROTO),
        Error::decode(93) == Some(Error::EPROTONOSUPPORT),
        Error::decode(156384713) == Some(Error::ENOTSUP),
        Error::decode(156384715) == Some(Error::ENOBUFS),
        Error::decode(156384716) == Some(Error::ENETDOWN),
        Error::decode(156384718) == Some(Error::EADDRNOTAVAIL),
        Error::decode(156384763) == Some(Error::EFSM),
        Error::decode(156384764) == Some(Error::ENOCOMPATPROTO),
        Error::decode(156384765) == Some(Error::ETERM),
        Error::decode(156384766) == Some(Error::EMTHREAD),
{
    lemma_error_code_roundtrip(Error::EACCES);
    lemma_error_code_roundtrip(Error::EADDRINUSE);
    lemma_error_code_roundtrip(Error::EAGAIN);
    lemma_error_code_roundtrip(Error::EBUSY);
    lemma_error_code_roundtrip(Error::ECONNREFUSED);
    lemma_error_code_roundtrip(Error::EFAULT);
    lemma_error_code_roundtrip(Error::EINTR);
    lemma_error_code_roundtrip(Error::EHOSTUNREACH);
    lemma_error_code_roundtrip(Error::EINPROGRESS);
    lemma_error_code_roundtrip(Error::EINVAL);
    lemma_error_code_roundtrip(Error::EMFILE);
    lemma_error_code_roundtrip(Error::EMSGSIZE);
    lemma_error_code_roundtrip(Error::ENAMETOOLONG);
    lemma_error_code_roundtrip(Error::ENODEV);
    lemma_error_code_roundtrip(Error::ENOENT);
    lemma_error_code_roundtrip(Error::ENOMEM);
    lemma_error_code_roundtrip(Error::ENOTCONN);
    lemma_error_code_roundtrip(Error::ENOTSOCK);
    lemma_error_code_roundtrip(Error::EPROTO);
    lemma_error_code_roundtrip(Error::EPROTONOSUPPORT);
    lemma_error_code_roundtrip(Error::ENOTSUP);
    lemma_error_code_roundtrip(Error::ENOBUFS);
    lemma_error_code_roundtrip(Error::ENETDOWN);
    lemma_error_code_roundtrip(Error::EADDRNOTAVAIL);
    lemma_error_code_roundtrip(Error::EFSM);
    lemma_error_code_roundtrip(Error::ENOCOMPATPROTO);
    lemma_error_code_roundtrip(Error::ETERM);
    lemma_error_code_roundtrip(Error::EMTHREAD);
}

} // verus!
