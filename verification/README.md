# tokio-curl

An asynchronous HTTP client using futures, backed by libcurl.

libcurl leaves all waiting to the program that uses it: it asks for a timer and for
events on sockets, and has to be told when they come. This project does that on a
`tokio-core` event loop.

- `src/` is the library `tokio_curl`: the state of the driver task and everything
  that is decided about requests, sockets and timeouts, verified with Verus. What
  holds of the whole is stated in `src/laws.rs`. What is believed of libcurl's
  bindings, of `slab`, of `futures` and of `libc` is stated in `src/outside.rs` and
  `src/slots.rs`, and nowhere else.
- `app/` is the driver task itself: the event loop, the calls of libcurl, and the
  `Session` and `Perform` that programs use.
- `tests/` holds the library's tests. They need no network.

A request goes this way. `Session::perform` makes a message and a future
(`perform::request`). The driver adds the transfer to libcurl and stores the
request (`State::check_message`). libcurl asks for a timer
(`State::schedule_timeout`) and for sockets to be watched
(`State::schedule_socket`), and is told of what happens (`State::check_timeout`,
`State::check_socket`). When the transfer is over the request is taken out again
(`State::check_completions`), its reply is made (`perform::completion`) and sent,
and the future turns it into a result (`perform::poll`). If the future is dropped
instead, the driver gives the transfer up (`State::check_cancel`).
