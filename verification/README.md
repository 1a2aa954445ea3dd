# SPA views

Safe, verified views of SPA and PipeWire structures.

- `src/sys.rs`: the SPA structure layouts as plain values, the SPA numbering
  constants, and the inline SPA helpers (building and inspecting commands,
  bounds-checking metadata) with their contracts.
- `src/buffer/`: data planes, chunks and buffer metadata (`buffer::meta`
  holds the richer metadata views), with their flag sets.
- `src/pod/`, `src/node/`: command pods and node commands.
- `src/flags.rs`: what the flag sets share: the bit facts behind each one's
  `lemma_flag_laws`, and the text form of a flag value.
- `src/context.rs`: how connecting a context answers the daemon's reply.
- `app/`: the calls into the PipeWire C library (contexts, registry proxies)
  and textual forms of planes and chunks.
