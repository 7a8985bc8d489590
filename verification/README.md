# waitable

Asynchronous operations on the waitables of the WebAssembly component model, as
a state machine verified with Verus.

- `src/op.rs`: `WaitableOp`, what an operation has to provide.
- `src/operation.rs`: `WaitableOperation`, which drives one.
- `src/cabi.rs`: calls into the current task, as the host actions they consist of.
- `src/step.rs`: what the functions of an operation hand back to their caller.
- `src/model.rs`: an operation as a mathematical value, and the relations that the
  contracts speak of.
- `src/laws.rs`: what holds over any number of calls. Above all, the host calls an
  operation back only while its memory is there.
- `app/`: futures over these operations, on the C interface of the host.

Asking for the asynchronous cancellation of an operation that is registered with
the host does not take the registration back. If the request completes the
operation at once, the registration stays behind: see `System::strands`.
