# ipabuyer_core

The host bridge of the IPAbuyer core: the C ABI through which the desktop
application logs in, searches the App Store, purchases and downloads apps,
keeps the purchased-apps database and synchronises it. The services behind
those calls (the ipatool client, the login and synchronisation services, the
App Store search, the database and the download queue) are not part of this
crate; what it holds is the bridge's own logic.

`src/` holds, verified with Verus, every decision that bridge makes:

- `ffi`: status codes, the per-thread last error (a read empties it), reading
  string arguments, refusing the first bad argument, turning panics into a
  status code, and one module per group of calls (`auth`, `catalog`, `db`,
  `downloads`, `purchase`, `sync`) with the arguments each call takes, the
  JSON documents it returns and the state of the polled tasks.
- `ffi::document`: JSON documents as a tree whose shape the contracts state.
- `auth`, `appcatalog`, `downloads`, `ipatool`, `purchases`: the values that
  the services hand to the bridge.

`app/` holds what Verus does not check: raw pointers, `catch_unwind`, the
thread-local last error, serialising documents with serde_json, reading the
host's JSON inputs with serde, and the worker threads of the polled tasks. Of
the exports it defines those that need no service: `version`, `last_error`,
`free_string`, and the status, cancel and destroy calls of the synchronisation
and download-queue handles. The exports that call a service (login, search,
purchase, the database calls, creating and starting the tasks) are built from
the verified functions of `src/` once those services are linked in.
