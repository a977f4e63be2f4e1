# defguard_admin

The decisions behind two administrative features of a VPN server, written in Verus:

- reading and changing the server's settings, with the restrictions of a public demo instance
  (`settings`, `save`, `ldap`, `response`);
- filling the activity log with plausible events (`activity_log`, `event`, `random`, `clock`).

`src/` holds the verified library. It performs no I/O: saving settings and trying out directory
settings are state machines that name one thing to do outside at a time and are handed what came of
it. What holds over whole runs is stated and proved in `save_laws`, `settings_laws`, `ldap` and
`activity_laws`.

`app/` is the ordinary Rust around it: HTTP endpoints, JSON documents, the clock and storage.
`tests/` exercises the library on concrete values.
