# seamless

Calls between languages: a C, Rust or Ruby program calls a function written
in another of these languages, on the same machine or through a call
server.

`src/` is the verified library:

- `lib.rs`: values and types that cross a call, signatures, `type_of`,
  `is_localhost`.
- `language/`: the languages by name, how each lays values out (`c.rs`,
  `rust.rs`: little-endian bytes; `ruby.rs`: Ruby `VALUE`s through the Ruby
  runtime), and the `libffi` descriptors of types.
- `config.rs`: the table of callable functions and signature lookup.
- `error.rs`: call errors and their messages.
- `local.rs`, `remote.rs`, `server.rs`: the checks made before a call runs,
  on this machine, through a server, and on the server; `remote.rs` also
  frames messages on the connection.
- `sample_callee.rs`: the sample library that calls are tried against.

`app/` is the unverified edge: the call server, the C entry point
`foreign_call`, reading arguments out of a caller's memory, `libffi` and the
Ruby runtime, reading `callable_functions.json`, and CBOR on the wire.
