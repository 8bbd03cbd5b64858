# electrum_streaming_client

A streaming, sans-IO Electrum client, verified with Verus.

The library under `src/` holds what a client decides: which bytes ask for a request, which request
a response belongs to, what a message of the server means and who gets it. It does no I/O. Every
function states what it returns in its contract, and Verus proves it.

- `request`, `response`, `notification`: the typed methods of the Electrum protocol.
- `State`: the requests that wait for a response. `State::track_request` gives them IDs,
  `State::process_incoming` resolves them.
- `ids`: which IDs requests get. An ID under which a request still waits is passed over.
- `BatchRequest`: several requests in one message.
- `io`: one message on each line, going out (`encode_message`) and coming in (`ReadStreamer`).
- `client`: what a worker does about a request or a message.
- `decode`: the traits by which JSON values are read as the library's types.
- `chain`, `text`, `value`: transactions, texts and JSON values as they stand in messages.

Public functions named `lemma_..` state what holds across functions: that a request is resolved
once and by its own response only, that a message never breaks its line, that messages come out of
a stream in their order, and the like.

The crate under `app/` adds the rest: serde forms of the types, the iterator and the stream over a
connection, and the asynchronous and blocking clients with their channels, futures and threads.

Functions marked `#[verifier::external_body]` call `bitcoin` or `serde_json`. Verus believes their
contracts, and the comment above each says what is claimed. Those that only show a value, or hash
it, claim nothing.
