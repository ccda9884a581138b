# cloudflare_dyndns

Keeps a Cloudflare DNS A record pointed at the public IPv4 address of the
host it runs on, for hosts with a dynamic address.

Configuration comes from environment variables (optionally from a `.env` or
`.env.example` file found in the working directory or up to five of its parents):

- `CLOUDFLARE_API_TOKEN`: the API token.
- `DOMAIN`: the zone, for example `acme.com`.
- `RECORD`: the record label without the domain, for example `www`; the empty
  string names the zone's root record.
- `CHECK_INTERVAL_SEC`: seconds between checks, 900 by default.
- `DEBUG`: `true` (exactly) for extra logging.

Layout:

- `src/` is the library, verified with Verus: the meaning of the configuration,
  the Cloudflare addresses and answers, the lookup of a record (a state
  machine), the public-address answer, the search
  for a `.env` file, and the main loop as a state machine (`daemon`).
- `app/` is the program around it: environment, files, HTTP, sleeping and
  printing, driving the library's state machines.
- `tests/` runs the library on concrete values.
