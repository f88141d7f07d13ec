# ninetyfive

The client side of the NinetyFive code completion service, written in Verus.

- `src/` is the library. It decides when the service is started and stopped, which completions are
  remembered, what is sent and when, how replies make up a completion, which connection is kept, and
  how a completion on display follows what the user types. Every function is verified against its
  contract; what holds of a request as a whole is stated in `src/delta_laws.rs` and
  `src/file_content.rs`, and what holds of the tasks that send and read messages in
  `src/outgoing.rs` and `src/incoming.rs`.
- `app/` puts the library to work in the editor: sockets, tasks, buffers and settings.
- `tests/` runs the library on concrete values.

What the library has from other crates (`rand`, `serde_json`, `url`, `tungstenite`, `postage`) is
called through small functions marked `external_body`. Their contracts are not proved; each says in
its doc comment what it claims.
