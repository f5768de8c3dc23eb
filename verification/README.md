# distributed-channel

Distributes work items from a producer to consumers found on the local
network, and carries their results back.

- `src/` is the verified library (Verus):
  - `wire`: the length-prefixed frame format of messages, with the proof that
    a reader gets back what a writer framed and refuses frames announcing
    more than 16 MiB;
  - `node`: node settings and the ALPN identifier and mDNS service name derived
    from the protocol name;
  - `discovery`: which mDNS announcements are forwarded (never this node's own,
    never twice for one peer), which local addresses are advertised, and a set
    of seen peer ids;
  - `producer`, `consumer`: the per-connection decisions of each side as
    state machines;
  - `message`, `work`: the message types and the example's work computation.
- `app/` is the program around it: async networking with iroh, mDNS with
  swarm-discovery, serialization with postcard, threads and channels.
- `tests/` runs the library on concrete values.
