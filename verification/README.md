# kubeless

A list-then-watch driver for any source of objects, verified with Verus, and the metadata types
that such objects carry. It needs no Kubernetes cluster.

- `src/source.rs`: the driver. `step` takes a state to an item or to what is to be asked of the
  source; `resume` takes the reply to the next state.
- `src/protocol.rs`: the driver as a mathematical machine. The contracts in `source.rs` are stated
  over it.
- `src/laws.rs`: what holds of every run: the order of events, the completeness of the list, the
  cursor that a watch resumes from, and what each error does.
- `src/watcher.rs`: events and errors.
- `src/k8s.rs`: object metadata.
- `app/`: the driver as an asynchronous stream over a real transport, and the metadata types in
  their serialised form.
