# unidpp_hub

The UniDPP hub: a stateless signed relay between willing
pairs divided by protocols. The hub carries no storage; relaying is a
function of the request.

## Layout

- `src/` — the verified library:
  - `hex.rs`: lower-case hexadecimal rendering and reading, and the law
    that reading gives back what rendering wrote;
  - `text.rs`: Unicode whitespace and trimming;
  - `config.rs`: what the three environment keys decide, the key seed
    and the keyring mode;
  - `paths.rs`, `routes.rs`: the routed paths and the route table;
  - `documents.rs`: the discovery document and the keyring document;
  - `relay.rs`: what a relay and a relay verification are answered.
- `app/` — the HTTP service: environment reading, the key pair, the
  relay and signature check of `unidpp_signatif`, the OpenAPI contract,
  the router and the listener.
- `tests/` — tests of the library.
