# veruna

The core of the Veruna site engine, written in Verus and verified.

- `src/` is the verified library: sites and how a request's URL selects one,
  pages and the resolution of a request path to a page (a state machine fed
  by storage), users (registration with Argon2 password hashing, login,
  creation of the administrator, the user list, registration events),
  roles (the first user becomes administrator), nodes, the records and query
  texts of the storage side, and the editor.js renderer.
- `tests/` exercises the library on concrete values.
- `app/` is the asynchronous engine around it: the kits that lock the
  stores and await them, the SurrealDB repositories and schema, the thread
  that listens to registrations, and the JSON entry point of the renderer.
