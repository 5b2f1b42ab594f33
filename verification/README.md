# libra

The logic of a Spotify terminal client, verified with Verus.

- `src/` is the verified library: the OAuth settings and scopes, the
  redirect listener's request handling and the extraction of the
  authorization code, the PKCE code challenge, the access-token cache
  rules (expiry stamping, expiry tests, reuse or renewal), the user
  configuration, key bindings and the text helpers they rest on (UTF-8
  requests split on Unicode white space, decimal rendering).
- `app/` is the program around it: terminal, network, browser, files,
  environment and JSON.
- `tests/` runs the library against concrete values.
