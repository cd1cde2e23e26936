# gilvave_ui

The client of the Gilvave chat: a Sycamore web interface over a library whose
rules are proved with Verus.

- `src/` is the library. It decides what the interface shows and sends:
  grouping of chat messages and their date dividers, the calendar of message
  timestamps, form validation, the screens and dialogs as state machines, the
  server and channel lists, the HTTP routes and the retry after a token
  refresh, the routing of commands to the HTTP API or the gateway, and the
  gateway's URL and reconnection delays. Every function carries a contract;
  the laws that relate several functions are public proof functions named
  `law_*`.
- `tests/` runs the library on concrete values.
- `app/` is the program around it: the Sycamore components, the browser's
  `fetch` and local storage, the WebSocket gateway, and the serde copies of
  the library's types that make up the wire format.
