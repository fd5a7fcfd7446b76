# anng

The logic of asynchronous NNG (nanomsg-next-generation) bindings, written in Verus with each
function's behaviour stated as a contract and proved. What comes from the standard library or
the operating system (the kind and text of an OS error number, socket-address formatting and
parsing, UTF-8 decoding, `Duration` arithmetic) is called through small trusted wrappers whose
contracts name or tie the result; nothing more is stated of an OS error's kind or text than
that it is the one the standard library gives that error number.

- `src/` is the verified library:
  - `message.rs`: messages (header, body, read position, capacity), their growth strategy,
    and the byte-buffer operations (`Buf`/`BufMut`-style reading and writing);
  - `aio.rs`: the errors of asynchronous operations, how NNG's error numbers map onto them
    and onto I/O error kinds, and the message slot of an operation with its cancellation
    rules (a cancelled receive never loses its message);
  - `init.rs`: checking a thread-pool configuration and turning it into NNG's parameters;
  - `options.rs`: durations as NNG milliseconds;
  - `pipes.rs`: endpoint URLs, built from socket addresses or read from NNG, and TCP URLs
    parsed into socket addresses;
  - `protocols.rs`: the protocol markers and the decisions sockets make on NNG's results;
  - `sys.rs`, `nng.rs`: NNG's codes and the synchronous API's error type, parameters, pipes
    and durations;
  - `nonzero.rs`, `text.rs`: non-zero integers and digit formatting.
- `tests/` exercises the library on concrete values.
- `app/` holds what the verifier does not see: `std::io` and `bytes` trait implementations on
  messages, I/O errors, and the conversion of parsed addresses into `std::net` types.
