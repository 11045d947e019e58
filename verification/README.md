# Karon

Karon connects the chapter's card scanners (NFC readers and Kerberos
scanners) with its SSO, Hive and VoteIT: a scanned card checks its owner in
to or out of a chapter meeting, with the VoteIT permissions that their
membership grants.

- `src/` is the verified library: VoteIT permissions and requests
  (`voteit`), membership types and member records (`sso`), the database
  records and token checks (`db`), the check-in steps of the API
  (`server::api`), the worker's retry policy (`server::worker`), error
  reporting (`server`, `auth`, `cookies`), the login decisions (`auth`),
  event routing for the web client (`client`) and UUID handling (`ids`).
- `app/` is the server around it: actix-web handlers, sessions, the
  PostgreSQL queries, the OIDC client and the HTTP calls to SSO, Hive and
  VoteIT.
- `tests/` runs the library on concrete values.
