//! Core logic of a binding to the ZeroMQ messaging library: the socket
//! types, option codes, security mechanisms and error codes of libzmq with
//! their numeric encodings, the message frame, the codecs that read and
//! write socket option values, the multipart send/receive protocol, CURVE
//! key pairs and the Z85 text codec.
//!
//! The calls into libzmq itself go through raw pointers and are made by
//! the code that drives this crate; it hands the results to the functions
//! here, which decide what they mean.

pub mod bench;
pub mod constants;
pub mod curve;
pub mod error;
pub mod message;
pub mod multipart;
pub mod order;
pub mod sockopt;
pub mod text;
pub mod z85;

pub use crate::constants::{
    Constants, Mechanism, SocketType, DONTWAIT, POLLERR, POLLIN, POLLOUT, SNDMORE,
};
pub use crate::constants::SocketType::{
    DEALER, PAIR, PUB, PULL, PUSH, REP, REQ, ROUTER, SUB, XPUB, XSUB,
};
pub use crate::curve::CurveKeyPair;
pub use crate::error::Error;
pub use crate::message::{message_property, Message};
pub use crate::text::bytes_to_string;
pub use crate::z85::{z85_decode, z85_encode, DecodeError, EncodeError, NulError};
