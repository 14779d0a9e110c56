# handy_llm

Verified core of the Handier enhancement sidecar, written in Verus.

- `src/json.rs`: JSON text as the protocol writes it (string literals and
  numbers rendered by `serde_json`) and the members of a reply read back.
- `src/text.rs`: trimming of protocol lines by Unicode white space.
- `src/protocol.rs`: the sidecar's requests and responses, the engine job a
  request calls for, the answer to each request, and the line encoding.
- `src/client.rs`: the app-side handle on the sidecar process as a state
  machine: which line to send, what each reply means, which state follows.
- `src/locate.rs`: where the sidecar binary is looked for, in order.
- `src/laws.rs`: properties that span functions (framing, ids, answers).
- `app/`: the process plumbing (spawning, pipes, timeouts, the stdin/stdout
  loop, serde parsing of requests) around the library.
