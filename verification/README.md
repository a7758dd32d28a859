# zmq2

A binding to the ZeroMQ messaging library (libzmq), split in two.

`src/` is the library, verified with Verus. It holds what the binding
decides rather than what libzmq does:

- `constants`: socket types, socket option codes, security mechanisms and
  the send/poll flags, each with its numeric code and the decoding of codes;
- `error`: the errors of libzmq and the decoding of error numbers;
- `message`: the message frame (its bytes and "more" flag), with equality
  and lexicographic order over the bytes; `order` holds `PartialOrd`;
- `sockopt`: the codecs for option values that libzmq reports or takes;
- `multipart`: the flags of each frame of a multipart message, and the
  collection of the frames of one that is received;
- `z85`: the Z85 text encoding, with the proofs that decoding undoes
  encoding and that valid text re-encodes to itself;
- `curve`: CURVE key pairs;
- `bench`: the tally kept by the collecting side of a throughput benchmark;
- `text`: UTF-8 conversions.

`app/` is ordinary Rust: contexts, sockets, polling and proxies, which talk
to libzmq through `zmq-sys` with raw pointers and hand the answers to the
library, and two small demonstration programs.

`tests/` runs the library on concrete values.
