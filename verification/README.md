# event_loop

Typed request/response messaging between handles and an event loop over
tokio channels.

- `src/` is the verified library (Verus): the values that travel over the
  channels (`MessageEvent`, `MessageResult`, `MessageType`, `MessageError`),
  the replies an event loop sends back, the routing of results to the request
  that waits for them (`reply::PendingReply`), the errors of refused sends,
  and the text of each error.
- `app/` is the asynchronous side: the `EventLoop` family of traits and
  `MessageHandle`, whose async methods await the channels and hand what comes
  back to the library.
- `tests/` exercise the library with real tokio channels.
