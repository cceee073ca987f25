# starriver

The verified core of the starriver blogging service, written in Verus.

`src/` is the library; every function in it carries a contract that Verus
proves:

- `base`: errors and the mapping of database failures, file name and upload
  handling (the type sniffer that decides, chunk by chunk, whether an upload
  may be stored), identifiers in text, request validation helpers, the shared
  vocabulary of authentication (errors, session cookie, request matchers),
  and how a transaction ends.
- `domain`: the aggregates (articles, blog posts, users) and their states, as
  plain values that the persistence logic reads.
- `application`: what a repository update writes (attachments to drop and to
  add, and field-by-field changes), the mapping of states to their stored
  numbers, the decisions of a login inside a transaction, refusals for missing
  entities, and the commands with their validation rules.
- `adapter`: the two form-login flows (which requests are logins, which need
  a login, the session cookie, the answers to failures), the login credential
  and the timing-attack delay.

Laws that span functions stand in `src/` as public proof functions named
`law_*`.

`app/` holds the edges that Verus does not see: conversions from axum, uuid,
time and sea-orm values, the login flows over axum requests, streaming of
multipart uploads to disk, the repository writes, and the services that run a
login in a transaction, send verification mails and read pages of articles. `tests/` exercises the library with the real
outside crates linked.
