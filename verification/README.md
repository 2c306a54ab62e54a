# mac_notification_sys

Notification payloads, action buttons, response routing and the send
protocol of macOS user notifications, proved with Verus.

- `src/` — the verified library:
  - `os` — Apple OS versions and their (partial) order;
  - `text` — `str` equality and order by UTF-8 bytes, sorting and joining;
  - `un` — the notification builder, actions and categories, responses,
    the pending-response registry (`un::delegate`), the send protocol as a
    state machine (`un::send`) and the permission outcome (`un::auth`);
  - `application`, `error` — the registration of the delivering
    application and its errors.
- `app/` — the macOS side: Objective-C objects, the notification center,
  the worker thread and run loops, driving the library's decisions.
- `tests/` — tests of the library.
