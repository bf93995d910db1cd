# csp_reporter

A small service that takes browser Content-Security-Policy violation reports and writes them,
as structured log entries, to standard output.

- `src/` is the library: which reports are taken, what they are answered, what is logged of them,
  the routes and the configuration. All of it is verified with Verus.
- `app/` is the HTTP server around it.
- `tests/` runs the library, with the real HTTP router where routes are concerned.

## Configuration

| variable | meaning | default |
| --- | --- | --- |
| `PORT` | TCP port to listen on | `8080` |
| `CSP_ENDPOINT` | path at which reports are taken; begins with `/` | `/csp-report` |
| `GOOGLE_CLOUD_PROJECT` | project in whose traces log entries are placed | none |

## What is trusted

Verus believes, without proof, what `src/headers.rs` says of `http`'s header map, what
`src/json.rs` says of `serde_json`, and what `src/text.rs` says of a few functions of the standard
library. Each such item names the function that it speaks of.
