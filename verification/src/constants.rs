use vstd::prelude::*;

verus! {

/// Send/receive flag: do not block.
pub const DONTWAIT: i32 = 1;

/// Send flag: more frames of the same multipart message follow.
pub const SNDMORE: i32 = 2;

/// Poll event: a message can be received.
pub const POLLIN: i16 = 1;

/// Poll event: a message can be sent.
pub const POLLOUT: i16 = 2;

/// Poll event: an error condition.
pub const POLLERR: i16 = 4;

/// Socket types of libzmq.
#[derive(Clone, Copy, Debug, PartialEq, Eq, Structural)]
pub enum SocketType {
    PAIR,
    PUB,
    SUB,
    REQ,
    REP,
    DEALER,
    ROUTER,
    PULL,
    PUSH,
    XPUB,
    XSUB,
}

impl SocketType {
    /// The numeric code that libzmq uses for this value.
    pub open spec fn code(self) -> int {
        match self {
            SocketType::PAIR => 0,
            SocketType::PUB => 1,
            SocketType::SUB => 2,
            SocketType::REQ => 3,
            SocketType::REP => 4,
            SocketType::DEALER => 5,
            SocketType::ROUTER => 6,
            SocketType::PULL => 7,
            SocketType::PUSH => 8,
            SocketType::XPUB => 9,
            SocketType::XSUB => 10,
        }
    }

    /// The value whose code is `raw`, if any.
    pub open spec fn from_code(raw: int) -> Option<SocketType> {
        if exists|v: SocketType| v.code() == raw {
            Some(choose|v: SocketType| v.code() == raw)
        } else {
            None
        }
    }

    /// The numeric code that libzmq uses for this value.
    pub fn to_raw(&self) -> (raw: i32)
        ensures
            raw == self.code(),
    {
        match self {
            SocketType::PAIR => 0,
            SocketType::PUB => 1,
            SocketType::SUB => 2,
            SocketType::REQ => 3,
            SocketType::REP => 4,
            SocketType::DEALER => 5,
            SocketType::ROUTER => 6,
            SocketType::PULL => 7,
            SocketType::PUSH => 8,
            SocketType::XPUB => 9,
            SocketType::XSUB => 10,
        }
    }

    /// The value whose code is `raw`, or `None` where no value has that code.
    pub fn from_raw(raw: i32) -> (res: Option<SocketType>)
        ensures
            res == SocketType::from_code(raw as int),
    {
        let res = match raw {
            0 => Some(SocketType::PAIR),
            1 => Some(SocketType::PUB),
            2 => Some(SocketType::SUB),
            3 => Some(SocketType::REQ),
            4 => Some(SocketType::REP),
            5 => Some(SocketType::DEALER),
            6 => Some(SocketType::ROUTER),
            7 => Some(SocketType::PULL),
            8 => Some(SocketType::PUSH),
            9 => Some(SocketType::XPUB),
            10 => Some(SocketType::XSUB),
            _ => None,
        };
        proof {
            match res {
                Some(c) => {
                    assert(c.code() == raw);
                    let v = choose|v: SocketType| v.code() == raw;
                    lemma_socket_type_injective(v, c);
                },
                None => {
                    assert(forall|v: SocketType| #[trigger] v.code() != raw);
                },
            }
        }
        res
    }
}

/// Socket option names and message property codes of libzmq.
#[allow(non_camel_case_types)]
#[derive(Clone, Copy, Debug, PartialEq, Eq, Structural)]
pub enum Constants {
    ZMQ_AFFINITY,
    ZMQ_IDENTITY,
    ZMQ_SUBSCRIBE,
    ZMQ_UNSUBSCRIBE,
    ZMQ_RATE,
    ZMQ_RECOVERY_IVL,
    ZMQ_SNDBUF,
    ZMQ_RCVBUF,
    ZMQ_RCVMORE,
    ZMQ_FD,
    ZMQ_EVENTS,
    ZMQ_TYPE,
    ZMQ_LINGER,
    ZMQ_RECONNECT_IVL,
    ZMQ_BACKLOG,
    ZMQ_RECONNECT_IVL_MAX,
    ZMQ_MAXMSGSIZE,
    ZMQ_SNDHWM,
    ZMQ_RCVHWM,
    ZMQ_MULTICAST_HOPS,
    ZMQ_RCVTIMEO,
    ZMQ_SNDTIMEO,
    ZMQ_LAST_ENDPOINT,
    ZMQ_ROUTER_MANDATORY,
    ZMQ_TCP_KEEPALIVE,
    ZMQ_TCP_KEEPALIVE_CNT,
    ZMQ_TCP_KEEPALIVE_IDLE,
    ZMQ_TCP_KEEPALIVE_INTVL,
    ZMQ_IMMEDIATE,
    ZMQ_XPUB_VERBOSE,
    ZMQ_ROUTER_RAW,
    ZMQ_IPV6,
    ZMQ_MECHANISM,
    ZMQ_PLAIN_SERVER,
    ZMQ_PLAIN_USERNAME,
    ZMQ_PLAIN_PASSWORD,
    ZMQ_CURVE_SERVER,
    ZMQ_CURVE_PUBLICKEY,
    ZMQ_CURVE_SECRETKEY,
    ZMQ_CURVE_SERVERKEY,
    ZMQ_PROBE_ROUTER,
    ZMQ_REQ_CORRELATE,
    ZMQ_REQ_RELAXED,
    ZMQ_CONFLATE,
    ZMQ_ZAP_DOMAIN,
    ZMQ_ROUTER_HANDOVER,
    ZMQ_TOS,
    ZMQ_CONNECT_RID,
    ZMQ_GSSAPI_SERVER,
    ZMQ_GSSAPI_PRINCIPAL,
    ZMQ_GSSAPI_SERVICE_PRINCIPAL,
    ZMQ_GSSAPI_PLAINTEXT,
    ZMQ_HANDSHAKE_IVL,
    ZMQ_SOCKS_PROXY,
    ZMQ_XPUB_NODROP,
    ZMQ_MSG_MORE,
    ZMQ_MSG_SHARED,
    ZMQ_MSG_MASK,
}

impl Constants {
    /// The numeric code that libzmq uses for this value.
    pub open spec fn code(self) -> int {
        match self {
            Constants::ZMQ_AFFINITY => 4,
            Constants::ZMQ_IDENTITY => 5,
            Constants::ZMQ_SUBSCRIBE => 6,
            Constants::ZMQ_UNSUBSCRIBE => 7,
            Constants::ZMQ_RATE => 8,
            Constants::ZMQ_RECOVERY_IVL => 9,
            Constants::ZMQ_SNDBUF => 11,
            Constants::ZMQ_RCVBUF => 12,
            Constants::ZMQ_RCVMORE => 13,
            Constants::ZMQ_FD => 14,
            Constants::ZMQ_EVENTS => 15,
            Constants::ZMQ_TYPE => 16,
            Constants::ZMQ_LINGER => 17,
            Constants::ZMQ_RECONNECT_IVL => 18,
            Constants::ZMQ_BACKLOG => 19,
            Constants::ZMQ_RECONNECT_IVL_MAX => 21,
            Constants::ZMQ_MAXMSGSIZE => 22,
            Constants::ZMQ_SNDHWM => 23,
            Constants::ZMQ_RCVHWM => 24,
            Constants::ZMQ_MULTICAST_HOPS => 25,
            Constants::ZMQ_RCVTIMEO => 27,
            Constants::ZMQ_SNDTIMEO => 28,
            Constants::ZMQ_LAST_ENDPOINT => 32,
            Constants::ZMQ_ROUTER_MANDATORY => 33,
            Constants::ZMQ_TCP_KEEPALIVE => 34,
            Constants::ZMQ_TCP_KEEPALIVE_CNT => 35,
            Constants::ZMQ_TCP_KEEPALIVE_IDLE => 36,
            Constants::ZMQ_TCP_KEEPALIVE_INTVL => 37,
            Constants::ZMQ_IMMEDIATE => 39,
            Constants::ZMQ_XPUB_VERBOSE => 40,
            Constants::ZMQ_ROUTER_RAW => 41,
            Constants::ZMQ_IPV6 => 42,
            Constants::ZMQ_MECHANISM => 43,
            Constants::ZMQ_PLAIN_SERVER => 44,
            Constants::ZMQ_PLAIN_USERNAME => 45,
            Constants::ZMQ_PLAIN_PASSWORD => 46,
            Constants::ZMQ_CURVE_SERVER => 47,
            Constants::ZMQ_CURVE_PUBLICKEY => 48,
            Constants::ZMQ_CURVE_SECRETKEY => 49,
            Constants::ZMQ_CURVE_SERVERKEY => 50,
            Constants::ZMQ_PROBE_ROUTER => 51,
            Constants::ZMQ_REQ_CORRELATE => 52,
            Constants::ZMQ_REQ_RELAXED => 53,
            Constants::ZMQ_CONFLATE => 54,
            Constants::ZMQ_ZAP_DOMAIN => 55,
            Constants::ZMQ_ROUTER_HANDOVER => 56,
            Constants::ZMQ_TOS => 57,
            Constants::ZMQ_CONNECT_RID => 61,
            Constants::ZMQ_GSSAPI_SERVER => 62,
            Constants::ZMQ_GSSAPI_PRINCIPAL => 63,
            Constants::ZMQ_GSSAPI_SERVICE_PRINCIPAL => 64,
            Constants::ZMQ_GSSAPI_PLAINTEXT => 65,
            Constants::ZMQ_HANDSHAKE_IVL => 66,
            Constants::ZMQ_SOCKS_PROXY => 68,
            Constants::ZMQ_XPUB_NODROP => 69,
            Constants::ZMQ_MSG_MORE => 1,
            Constants::ZMQ_MSG_SHARED => 128,
            Constants::ZMQ_MSG_MASK => 129,
        }
    }

    /// The value whose code is `raw`, if any.
    pub open spec fn from_code(raw: int) -> Option<Constants> {
        if exists|v: Constants| v.code() == raw {
            Some(choose|v: Constants| v.code() == raw)
        } else {
            None
        }
    }

    /// The numeric code that libzmq uses for this value.
    pub fn to_raw(&self) -> (raw: i32)
        ensures
            raw == self.code(),
    {
        match self {
            Constants::ZMQ_AFFINITY => 4,
            Constants::ZMQ_IDENTITY => 5,
            Constants::ZMQ_SUBSCRIBE => 6,
            Constants::ZMQ_UNSUBSCRIBE => 7,
            Constants::ZMQ_RATE => 8,
            Constants::ZMQ_RECOVERY_IVL => 9,
            Constants::ZMQ_SNDBUF => 11,
            Constants::ZMQ_RCVBUF => 12,
            Constants::ZMQ_RCVMORE => 13,
            Constants::ZMQ_FD => 14,
            Constants::ZMQ_EVENTS => 15,
            Constants::ZMQ_TYPE => 16,
            Constants::ZMQ_LINGER => 17,
            Constants::ZMQ_RECONNECT_IVL => 18,
            Constants::ZMQ_BACKLOG => 19,
            Constants::ZMQ_RECONNECT_IVL_MAX => 21,
            Constants::ZMQ_MAXMSGSIZE => 22,
            Constants::ZMQ_SNDHWM => 23,
            Constants::ZMQ_RCVHWM => 24,
            Constants::ZMQ_MULTICAST_HOPS => 25,
            Constants::ZMQ_RCVTIMEO => 27,
            Constants::ZMQ_SNDTIMEO => 28,
            Constants::ZMQ_LAST_ENDPOINT => 32,
            Constants::ZMQ_ROUTER_MANDATORY => 33,
            Constants::ZMQ_TCP_KEEPALIVE => 34,
            Constants::ZMQ_TCP_KEEPALIVE_CNT => 35,
            Constants::ZMQ_TCP_KEEPALIVE_IDLE => 36,
            Constants::ZMQ_TCP_KEEPALIVE_INTVL => 37,
            Constants::ZMQ_IMMEDIATE => 39,
            Constants::ZMQ_XPUB_VERBOSE => 40,
            Constants::ZMQ_ROUTER_RAW => 41,
            Constants::ZMQ_IPV6 => 42,
            Constants::ZMQ_MECHANISM => 43,
            Constants::ZMQ_PLAIN_SERVER => 44,
            Constants::ZMQ_PLAIN_USERNAME => 45,
            Constants::ZMQ_PLAIN_PASSWORD => 46,
            Constants::ZMQ_CURVE_SERVER => 47,
            Constants::ZMQ_CURVE_PUBLICKEY => 48,
            Constants::ZMQ_CURVE_SECRETKEY => 49,
            Constants::ZMQ_CURVE_SERVERKEY => 50,
            Constants::ZMQ_PROBE_ROUTER => 51,
            Constants::ZMQ_REQ_CORRELATE => 52,
            Constants::ZMQ_REQ_RELAXED => 53,
            Constants::ZMQ_CONFLATE => 54,
            Constants::ZMQ_ZAP_DOMAIN => 55,
            Constants::ZMQ_ROUTER_HANDOVER => 56,
            Constants::ZMQ_TOS => 57,
            Constants::ZMQ_CONNECT_RID => 61,
            Constants::ZMQ_GSSAPI_SERVER => 62,
            Constants::ZMQ_GSSAPI_PRINCIPAL => 63,
            Constants::ZMQ_GSSAPI_SERVICE_PRINCIPAL => 64,
            Constants::ZMQ_GSSAPI_PLAINTEXT => 65,
            Constants::ZMQ_HANDSHAKE_IVL => 66,
            Constants::ZMQ_SOCKS_PROXY => 68,
            Constants::ZMQ_XPUB_NODROP => 69,
            Constants::ZMQ_MSG_MORE => 1,
            Constants::ZMQ_MSG_SHARED => 128,
            Constants::ZMQ_MSG_MASK => 129,
        }
    }

    /// The value whose code is `raw`, or `None` where no value has that code.
    pub fn from_raw(raw: i32) -> (res: Option<Constants>)
        ensures
            res == Constants::from_code(raw as int),
    {
        let res = match raw {
            4 => Some(Constants::ZMQ_AFFINITY),
            5 => Some(Constants::ZMQ_IDENTITY),
            6 => Some(Constants::ZMQ_SUBSCRIBE),
            7 => Some(Constants::ZMQ_UNSUBSCRIBE),
            8 => Some(Constants::ZMQ_RATE),
            9 => Some(Constants::ZMQ_RECOVERY_IVL),
            11 => Some(Constants::ZMQ_SNDBUF),
            12 => Some(Constants::ZMQ_RCVBUF),
            13 => Some(Constants::ZMQ_RCVMORE),
            14 => Some(Constants::ZMQ_FD),
            15 => Some(Constants::ZMQ_EVENTS),
            16 => Some(Constants::ZMQ_TYPE),
            17 => Some(Constants::ZMQ_LINGER),
            18 => Some(Constants::ZMQ_RECONNECT_IVL),
            19 => Some(Constants::ZMQ_BACKLOG),
            21 => Some(Constants::ZMQ_RECONNECT_IVL_MAX),
            22 => Some(Constants::ZMQ_MAXMSGSIZE),
            23 => Some(Constants::ZMQ_SNDHWM),
            24 => Some(Constants::ZMQ_RCVHWM),
            25 => Some(Constants::ZMQ_MULTICAST_HOPS),
            27 => Some(Constants::ZMQ_RCVTIMEO),
            28 => Some(Constants::ZMQ_SNDTIMEO),
            32 => Some(Constants::ZMQ_LAST_ENDPOINT),
            33 => Some(Constants::ZMQ_ROUTER_MANDATORY),
            34 => Some(Constants::ZMQ_TCP_KEEPALIVE),
            35 => Some(Constants::ZMQ_TCP_KEEPALIVE_CNT),
            36 => Some(Constants::ZMQ_TCP_KEEPALIVE_IDLE),
            37 => Some(Constants::ZMQ_TCP_KEEPALIVE_INTVL),
            39 => Some(Constants::ZMQ_IMMEDIATE),
            40 => Some(Constants::ZMQ_XPUB_VERBOSE),
            41 => Some(Constants::ZMQ_ROUTER_RAW),
            42 => Some(Constants::ZMQ_IPV6),
            43 => Some(Constants::ZMQ_MECHANISM),
            44 => Some(Constants::ZMQ_PLAIN_SERVER),
            45 => Some(Constants::ZMQ_PLAIN_USERNAME),
            46 => Some(Constants::ZMQ_PLAIN_PASSWORD),
            47 => Some(Constants::ZMQ_CURVE_SERVER),
            48 => Some(Constants::ZMQ_CURVE_PUBLICKEY),
            49 => Some(Constants::ZMQ_CURVE_SECRETKEY),
            50 => Some(Constants::ZMQ_CURVE_SERVERKEY),
            51 => Some(Constants::ZMQ_PROBE_ROUTER),
            52 => Some(Constants::ZMQ_REQ_CORRELATE),
            53 => Some(Constants::ZMQ_REQ_RELAXED),
            54 => Some(Constants::ZMQ_CONFLATE),
            55 => Some(Constants::ZMQ_ZAP_DOMAIN),
            56 => Some(Constants::ZMQ_ROUTER_HANDOVER),
            57 => Some(Constants::ZMQ_TOS),
            61 => Some(Constants::ZMQ_CONNECT_RID),
            62 => Some(Constants::ZMQ_GSSAPI_SERVER),
            63 => Some(Constants::ZMQ_GSSAPI_PRINCIPAL),
            64 => Some(Constants::ZMQ_GSSAPI_SERVICE_PRINCIPAL),
            65 => Some(Constants::ZMQ_GSSAPI_PLAINTEXT),
            66 => Some(Constants::ZMQ_HANDSHAKE_IVL),
            68 => Some(Constants::ZMQ_SOCKS_PROXY),
            69 => Some(Constants::ZMQ_XPUB_NODROP),
            1 => Some(Constants::ZMQ_MSG_MORE),
            128 => Some(Constants::ZMQ_MSG_SHARED),
            129 => Some(Constants::ZMQ_MSG_MASK),
            _ => None,
        };
        proof {
            match res {
                Some(c) => {
                    assert(c.code() == raw);
                    let v = choose|v: Constants| v.code() == raw;
                    lemma_constants_injective(v, c);
                },
                None => {
                    assert(forall|v: Constants| #[trigger] v.code() != raw);
                },
            }
        }
        res
    }
}

/// Security mechanisms of libzmq.
#[allow(non_camel_case_types)]
#[derive(Clone, Copy, Debug, PartialEq, Eq, Structural)]
pub enum Mechanism {
    ZMQ_NULL,
    ZMQ_PLAIN,
    ZMQ_CURVE,
    ZMQ_GSSAPI,
}

impl Mechanism {
    /// The numeric code that libzmq uses for this value.
    pub open spec fn code(self) -> int {
        match self {
            Mechanism::ZMQ_NULL => 0,
            Mechanism::ZMQ_PLAIN => 1,
            Mechanism::ZMQ_CURVE => 2,
            Mechanism::ZMQ_GSSAPI => 3,
        }
    }

    /// The value whose code is `raw`, if any.
    pub open spec fn from_code(raw: int) -> Option<Mechanism> {
        if exists|v: Mechanism| v.code() == raw {
            Some(choose|v: Mechanism| v.code() == raw)
        } else {
            None
        }
    }

    /// The numeric code that libzmq uses for this value.
    pub fn to_raw(&self) -> (raw: i32)
        ensures
            raw == self.code(),
    {
        match self {
            Mechanism::ZMQ_NULL => 0,
            Mechanism::ZMQ_PLAIN => 1,
            Mechanism::ZMQ_CURVE => 2,
            Mechanism::ZMQ_GSSAPI => 3,
        }
    }

    /// The value whose code is `raw`, or `None` where no value has that code.
    pub fn from_raw(raw: i32) -> (res: Option<Mechanism>)
        ensures
            res == Mechanism::from_code(raw as int),
    {
        let res = match raw {
            0 => Some(Mechanism::ZMQ_NULL),
            1 => Some(Mechanism::ZMQ_PLAIN),
            2 => Some(Mechanism::ZMQ_CURVE),
            3 => Some(Mechanism::ZMQ_GSSAPI),
            _ => None,
        };
        proof {
            match res {
                Some(c) => {
                    assert(c.code() == raw);
                    let v = choose|v: Mechanism| v.code() == raw;
                    lemma_mechanism_injective(v, c);
                },
                None => {
                    assert(forall|v: Mechanism| #[trigger] v.code() != raw);
                },
            }
        }
        res
    }
}

/// Every value is decoded from its own code and from no other, so
/// `from_raw` gives back the value whose `to_raw` it is given.
pub proof fn lemma_socket_type_code_roundtrip(v: SocketType, raw: int)
    ensures
        SocketType::from_code(v.code()) == Some(v),
        SocketType::from_code(raw) == Some(v) ==> v.code() == raw,
{
}

/// Every value is decoded from its own code and from no other, so
/// `from_raw` gives back the value whose `to_raw` it is given.
pub proof fn lemma_constants_code_roundtrip(v: Constants, raw: int)
    ensures
        Constants::from_code(v.code()) == Some(v),
        Constants::from_code(raw) == Some(v) ==> v.code() == raw,
{
}

/// Every value is decoded from its own code and from no other, so
/// `from_raw` gives back the value whose `to_raw` it is given.
pub proof fn lemma_mechanism_code_roundtrip(v: Mechanism, raw: int)
    ensures
        Mechanism::from_code(v.code()) == Some(v),
        Mechanism::from_code(raw) == Some(v) ==> v.code() == raw,
{
}

proof fn lemma_socket_type_injective(a: SocketType, b: SocketType)
    requires
        a.code() == b.code(),
    ensures
        a == b,
{
}

proof fn lemma_constants_injective(a: Constants, b: Constants)
    requires
        a.code() == b.code(),
    ensures
        a == b,
{
}

proof fn lemma_mechanism_injective(a: Mechanism, b: Mechanism)
    requires
        a.code() == b.code(),
    ensures
        a == b,
{
}

/// Each socket type has the number that libzmq gives it, and that number
/// reads back as that type: `PAIR` is 0, `PUB` 1, `SUB` 2, and so on up to
/// `XSUB`, 10.
pub proof fn lemma_socket_type_libzmq_codes()
    ensures
        SocketType::PAIR.code() == 0,
        SocketType::PUB.code() == 1,
        SocketType::SUB.code() == 2,
        SocketType::REQ.code() == 3,
        SocketType::REP.code() == 4,
        SocketType::DEALER.code() == 5,
        SocketType::ROUTER.code() == 6,
        SocketType::PULL.code() == 7,
        SocketType::PUSH.code() == 8,
        SocketType::XPUB.code() == 9,
        SocketType::XSUB.code() == 10,
        SocketType::from_code(0) == Some(SocketType::PAIR),
        SocketType::from_code(1) == Some(SocketType::PUB),
        SocketType::from_code(2) == Some(SocketType::SUB),
        SocketType::from_code(3) == Some(SocketType::REQ),
        SocketType::from_code(4) == Some(SocketType::REP),
        SocketType::from_code(5) == Some(SocketType::DEALER),
        SocketType::from_code(6) == Some(SocketType::ROUTER),
        SocketType::from_code(7) == Some(SocketType::PULL),
        SocketType::from_code(8) == Some(SocketType::PUSH),
        SocketType::from_code(9) == Some(SocketType::XPUB),
        SocketType::from_code(10) == Some(SocketType::XSUB),
{
    lemma_socket_type_code_roundtrip(SocketType::PAIR, 0);
    lemma_socket_type_code_roundtrip(SocketType::PUB, 1);
    lemma_socket_type_code_roundtrip(SocketType::SUB, 2);
    lemma_socket_type_code_roundtrip(SocketType::REQ, 3);
    lemma_socket_type_code_roundtrip(SocketType::REP, 4);
    lemma_socket_type_code_roundtrip(SocketType::DEALER, 5);
    lemma_socket_type_code_roundtrip(SocketType::ROUTER, 6);
    lemma_socket_type_code_roundtrip(SocketType::PULL, 7);
    lemma_socket_type_code_roundtrip(SocketType::PUSH, 8);
    lemma_socket_type_code_roundtrip(SocketType::XPUB, 9);
    lemma_socket_type_code_roundtrip(SocketType::XSUB, 10);
}

/// Each socket option and message property has the number that libzmq
/// gives it, and that number reads back as that option: `ZMQ_SUBSCRIBE` is
/// 6 and `ZMQ_UNSUBSCRIBE` is 7, `ZMQ_RCVMORE` is 13, `ZMQ_MSG_MORE` is 1.
pub proof fn lemma_constants_libzmq_codes()
    ensures
        Constants::ZMQ_AFFINITY.code() == 4,
        Constants::ZMQ_IDENTITY.code() == 5,
        Constants::ZMQ_SUBSCRIBE.code() == 6,
        Constants::ZMQ_UNSUBSCRIBE.code() == 7,
        Constants::ZMQ_RATE.code() == 8,
        Constants::ZMQ_RECOVERY_IVL.code() == 9,
        Constants::ZMQ_SNDBUF.code() == 11,
        Constants::ZMQ_RCVBUF.code() == 12,
        Constants::ZMQ_RCVMORE.code() == 13,
        Constants::ZMQ_FD.code() == 14,
        Constants::ZMQ_EVENTS.code() == 15,
        Constants::ZMQ_TYPE.code() == 16,
        Constants::ZMQ_LINGER.code() == 17,
        Constants::ZMQ_RECONNECT_IVL.code() == 18,
        Constants::ZMQ_BACKLOG.code() == 19,
        Constants::ZMQ_RECONNECT_IVL_MAX.code() == 21,
        Constants::ZMQ_MAXMSGSIZE.code() == 22,
        Constants::ZMQ_SNDHWM.code() == 23,
        Constants::ZMQ_RCVHWM.code() == 24,
        Constants::ZMQ_MULTICAST_HOPS.code() == 25,
        Constants::ZMQ_RCVTIMEO.code() == 27,
        Constants::ZMQ_SNDTIMEO.code() == 28,
        Constants::ZMQ_LAST_ENDPOINT.code() == 32,
        Constants::ZMQ_ROUTER_MANDATORY.code() == 33,
        Constants::ZMQ_TCP_KEEPALIVE.code() == 34,
        Constants::ZMQ_TCP_KEEPALIVE_CNT.code() == 35,
        Constants::ZMQ_TCP_KEEPALIVE_IDLE.code() == 36,
        Constants::ZMQ_TCP_KEEPALIVE_INTVL.code() == 37,
        Constants::ZMQ_IMMEDIATE.code() == 39,
        Constants::ZMQ_XPUB_VERBOSE.code() == 40,
        Constants::ZMQ_ROUTER_RAW.code() == 41,
        Constants::ZMQ_IPV6.code() == 42,
        Constants::ZMQ_MECHANISM.code() == 43,
        Constants::ZMQ_PLAIN_SERVER.code() == 44,
        Constants::ZMQ_PLAIN_USERNAME.code() == 45,
        Constants::ZMQ_PLAIN_PASSWORD.code() == 46,
        Constants::ZMQ_CURVE_SERVER.code() == 47,
        Constants::ZMQ_CURVE_PUBLICKEY.code() == 48,
        Constants::ZMQ_CURVE_SECRETKEY.code() == 49,
        Constants::ZMQ_CURVE_SERVERKEY.code() == 50,
        Constants::ZMQ_PROBE_ROUTER.code() == 51,
        Constants::ZMQ_REQ_CORRELATE.code() == 52,
        Constants::ZMQ_REQ_RELAXED.code() == 53,
        Constants::ZMQ_CONFLATE.code() == 54,
        Constants::ZMQ_ZAP_DOMAIN.code() == 55,
        Constants::ZMQ_ROUTER_HANDOVER.code() == 56,
        Constants::ZMQ_TOS.code() == 57,
        Constants::ZMQ_CONNECT_RID.code() == 61,
        Constants::ZMQ_GSSAPI_SERVER.code() == 62,
        Constants::ZMQ_GSSAPI_PRINCIPAL.code() == 63,
        Constants::ZMQ_GSSAPI_SERVICE_PRINCIPAL.code() == 64,
        Constants::ZMQ_GSSAPI_PLAINTEXT.code() == 65,
        Constants::ZMQ_HANDSHAKE_IVL.code() == 66,
        Constants::ZMQ_SOCKS_PROXY.code() == 68,
        Constants::ZMQ_XPUB_NODROP.code() == 69,
        Constants::ZMQ_MSG_MORE.code() == 1,
        Constants::ZMQ_MSG_SHARED.code() == 128,
        Constants::ZMQ_MSG_MASK.code() == 129,
        Constants::from_code(4) == Some(Constants::ZMQ_AFFINITY),
        Constants::from_code(5) == Some(Constants::ZMQ_IDENTITY),
        Constants::from_code(6) == Some(Constants::ZMQ_SUBSCRIBE),
        Constants::from_code(7) == Some(Constants::ZMQ_UNSUBSCRIBE),
        Constants::from_code(8) == Some(Constants::ZMQ_RATE),
        Constants::from_code(9) == Some(Constants::ZMQ_RECOVERY_IVL),
        Constants::from_code(11) == Some(Constants::ZMQ_SNDBUF),
        Constants::from_code(12) == Some(Constants::ZMQ_RCVBUF),
        Constants::from_code(13) == Some(Constants::ZMQ_RCVMORE),
        Constants::from_code(14) == Some(Constants::ZMQ_FD),
        Constants::from_code(15) == Some(Constants::ZMQ_EVENTS),
        Constants::from_code(16) == Some(Constants::ZMQ_TYPE),
        Constants::from_code(17) == Some(Constants::ZMQ_LINGER),
        Constants::from_code(18) == Some(Constants::ZMQ_RECONNECT_IVL),
        Constants::from_code(19) == Some(Constants::ZMQ_BACKLOG),
        Constants::from_code(21) == Some(Constants::ZMQ_RECONNECT_IVL_MAX),
        Constants::from_code(22) == Some(Constants::ZMQ_MAXMSGSIZE),
        Constants::from_code(23) == Some(Constants::ZMQ_SNDHWM),
        Constants::from_code(24) == Some(Constants::ZMQ_RCVHWM),
        Constants::from_code(25) == Some(Constants::ZMQ_MULTICAST_HOPS),
        Constants::from_code(27) == Some(Constants::ZMQ_RCVTIMEO),
        Constants::from_code(28) == Some(Constants::ZMQ_SNDTIMEO),
        Constants::from_code(32) == Some(Constants::ZMQ_LAST_ENDPOINT),
        Constants::from_code(33) == Some(Constants::ZMQ_ROUTER_MANDATORY),
        Constants::from_code(34) == Some(Constants::ZMQ_TCP_KEEPALIVE),
        Constants::from_code(35) == Some(Constants::ZMQ_TCP_KEEPALIVE_CNT),
        Constants::from_code(36) == Some(Constants::ZMQ_TCP_KEEPALIVE_IDLE),
        Constants::from_code(37) == Some(Constants::ZMQ_TCP_KEEPALIVE_INTVL),
        Constants::from_code(39) == Some(Constants::ZMQ_IMMEDIATE),
        Constants::from_code(40) == Some(Constants::ZMQ_XPUB_VERBOSE),
        Constants::from_code(41) == Some(Constants::ZMQ_ROUTER_RAW),
        Constants::from_code(42) == Some(Constants::ZMQ_IPV6),
        Constants::from_code(43) == Some(Constants::ZMQ_MECHANISM),
        Constants::from_code(44) == Some(Constants::ZMQ_PLAIN_SERVER),
        Constants::from_code(45) == Some(Constants::ZMQ_PLAIN_USERNAME),
        Constants::from_code(46) == Some(Constants::ZMQ_PLAIN_PASSWORD),
        Constants::from_code(47) == Some(Constants::ZMQ_CURVE_SERVER),
        Constants::from_code(48) == Some(Constants::ZMQ_CURVE_PUBLICKEY),
        Constants::from_code(49) == Some(Constants::ZMQ_CURVE_SECRETKEY),
        Constants::from_code(50) == Some(Constants::ZMQ_CURVE_SERVERKEY),
        Constants::from_code(51) == Some(Constants::ZMQ_PROBE_ROUTER),
        Constants::from_code(52) == Some(Constants::ZMQ_REQ_CORRELATE),
        Constants::from_code(53) == Some(Constants::ZMQ_REQ_RELAXED),
        Constants::from_code(54) == Some(Constants::ZMQ_CONFLATE),
        Constants::from_code(55) == Some(Constants::ZMQ_ZAP_DOMAIN),
        Constants::from_code(56) == Some(Constants::ZMQ_ROUTER_HANDOVER),
        Constants::from_code(57) == Some(Constants::ZMQ_TOS),
        Constants::from_code(61) == Some(Constants::ZMQ_CONNECT_RID),
        Constants::from_code(62) == Some(Constants::ZMQ_GSSAPI_SERVER),
        Constants::from_code(63) == Some(Constants::ZMQ_GSSAPI_PRINCIPAL),
        Constants::from_code(64) == Some(Constants::ZMQ_GSSAPI_SERVICE_PRINCIPAL),
        Constants::from_code(65) == Some(Constants::ZMQ_GSSAPI_PLAINTEXT),
        Constants::from_code(66) == Some(Constants::ZMQ_HANDSHAKE_IVL),
        Constants::from_code(68) == Some(Constants::ZMQ_SOCKS_PROXY),
        Constants::from_code(69) == Some(Constants::ZMQ_XPUB_NODROP),
        Constants::from_code(1) == Some(Constants::ZMQ_MSG_MORE),
        Constants::from_code(128) == Some(Constants::ZMQ_MSG_SHARED),
        Constants::from_code(129) == Some(Constants::ZMQ_MSG_MASK),
{
    lemma_constants_code_roundtrip(Constants::ZMQ_AFFINITY, 4);
    lemma_constants_code_roundtrip(Constants::ZMQ_IDENTITY, 5);
    lemma_constants_code_roundtrip(Constants::ZMQ_SUBSCRIBE, 6);
    lemma_constants_code_roundtrip(Constants::ZMQ_UNSUBSCRIBE, 7);
    lemma_constants_code_roundtrip(Constants::ZMQ_RATE, 8);
    lemma_constants_code_roundtrip(Constants::ZMQ_RECOVERY_IVL, 9);
    lemma_constants_code_roundtrip(Constants::ZMQ_SNDBUF, 11);
    lemma_constants_code_roundtrip(Constants::ZMQ_RCVBUF, 12);
    lemma_constants_code_roundtrip(Constants::ZMQ_RCVMORE, 13);
    lemma_constants_code_roundtrip(Constants::ZMQ_FD, 14);
    lemma_constants_code_roundtrip(Constants::ZMQ_EVENTS, 15);
    lemma_constants_code_roundtrip(Constants::ZMQ_TYPE, 16);
    lemma_constants_code_roundtrip(Constants::ZMQ_LINGER, 17);
    lemma_constants_code_roundtrip(Constants::ZMQ_RECONNECT_IVL, 18);
    lemma_constants_code_roundtrip(Constants::ZMQ_BACKLOG, 19);
    lemma_constants_code_roundtrip(Constants::ZMQ_RECONNECT_IVL_MAX, 21);
    lemma_constants_code_roundtrip(Constants::ZMQ_MAXMSGSIZE, 22);
    lemma_constants_code_roundtrip(Constants::ZMQ_SNDHWM, 23);
    lemma_constants_code_roundtrip(Constants::ZMQ_RCVHWM, 24);
    lemma_constants_code_roundtrip(Constants::ZMQ_MULTICAST_HOPS, 25);
    lemma_constants_code_roundtrip(Constants::ZMQ_RCVTIMEO, 27);
    lemma_constants_code_roundtrip(Constants::ZMQ_SNDTIMEO, 28);
    lemma_constants_code_roundtrip(Constants::ZMQ_LAST_ENDPOINT, 32);
    lemma_constants_code_roundtrip(Constants::ZMQ_ROUTER_MANDATORY, 33);
    lemma_constants_code_roundtrip(Constants::ZMQ_TCP_KEEPALIVE, 34);
    lemma_constants_code_roundtrip(Constants::ZMQ_TCP_KEEPALIVE_CNT, 35);
    lemma_constants_code_roundtrip(Constants::ZMQ_TCP_KEEPALIVE_IDLE, 36);
    lemma_constants_code_roundtrip(Constants::ZMQ_TCP_KEEPALIVE_INTVL, 37);
    lemma_constants_code_roundtrip(Constants::ZMQ_IMMEDIATE, 39);
    lemma_constants_code_roundtrip(Constants::ZMQ_XPUB_VERBOSE, 40);
    lemma_constants_code_roundtrip(Constants::ZMQ_ROUTER_RAW, 41);
    lemma_constants_code_roundtrip(Constants::ZMQ_IPV6, 42);
    lemma_constants_code_roundtrip(Constants::ZMQ_MECHANISM, 43);
    lemma_constants_code_roundtrip(Constants::ZMQ_PLAIN_SERVER, 44);
    lemma_constants_code_roundtrip(Constants::ZMQ_PLAIN_USERNAME, 45);
    lemma_constants_code_roundtrip(Constants::ZMQ_PLAIN_PASSWORD, 46);
    lemma_constants_code_roundtrip(Constants::ZMQ_CURVE_SERVER, 47);
    lemma_constants_code_roundtrip(Constants::ZMQ_CURVE_PUBLICKEY, 48);
    lemma_constants_code_roundtrip(Constants::ZMQ_CURVE_SECRETKEY, 49);
    lemma_constants_code_roundtrip(Constants::ZMQ_CURVE_SERVERKEY, 50);
    lemma_constants_code_roundtrip(Constants::ZMQ_PROBE_ROUTER, 51);
    lemma_constants_code_roundtrip(Constants::ZMQ_REQ_CORRELATE, 52);
    lemma_constants_code_roundtrip(Constants::ZMQ_REQ_RELAXED, 53);
    lemma_constants_code_roundtrip(Constants::ZMQ_CONFLATE, 54);
    lemma_constants_code_roundtrip(Constants::ZMQ_ZAP_DOMAIN, 55);
    lemma_constants_code_roundtrip(Constants::ZMQ_ROUTER_HANDOVER, 56);
    lemma_constants_code_roundtrip(Constants::ZMQ_TOS, 57);
    lemma_constants_code_roundtrip(Constants::ZMQ_CONNECT_RID, 61);
    lemma_constants_code_roundtrip(Constants::ZMQ_GSSAPI_SERVER, 62);
    lemma_constants_code_roundtrip(Constants::ZMQ_GSSAPI_PRINCIPAL, 63);
    lemma_constants_code_roundtrip(Constants::ZMQ_GSSAPI_SERVICE_PRINCIPAL, 64);
    lemma_constants_code_roundtrip(Constants::ZMQ_GSSAPI_PLAINTEXT, 65);
    lemma_constants_code_roundtrip(Constants::ZMQ_HANDSHAKE_IVL, 66);
    lemma_constants_code_roundtrip(Constants::ZMQ_SOCKS_PROXY, 68);
    lemma_constants_code_roundtrip(Constants::ZMQ_XPUB_NODROP, 69);
    lemma_constants_code_roundtrip(Constants::ZMQ_MSG_MORE, 1);
    lemma_constants_code_roundtrip(Constants::ZMQ_MSG_SHARED, 128);
    lemma_constants_code_roundtrip(Constants::ZMQ_MSG_MASK, 129);
}

/// Each security mechanism has the number that libzmq gives it, and that
/// number reads back as that mechanism.
pub proof fn lemma_mechanism_libzmq_codes()
    ensures
        Mechanism::ZMQ_NULL.code() == 0,
        Mechanism::ZMQ_PLAIN.code() == 1,
        Mechanism::ZMQ_CURVE.code() == 2,
        Mechanism::ZMQ_GSSAPI.code() == 3,
        Mechanism::from_code(0) == Some(Mechanism::ZMQ_NULL),
        Mechanism::from_code(1) == Some(Mechanism::ZMQ_PLAIN),
        Mechanism::from_code(2) == Some(Mechanism::ZMQ_CURVE),
        Mechanism::from_code(3) == Some(Mechanism::ZMQ_GSSAPI),
{
    lemma_mechanism_code_roundtrip(Mechanism::ZMQ_NULL, 0);
    lemma_mechanism_code_roundtrip(Mechanism::ZMQ_PLAIN, 1);
    lemma_mechanism_code_roundtrip(Mechanism::ZMQ_CURVE, 2);
    lemma_mechanism_code_roundtrip(Mechanism::ZMQ_GSSAPI, 3);
}

} // verus!
