# bi_cli

A library for the Beyond Identity command line tool, with its behaviour stated in
`requires`/`ensures` contracts and proved by Verus, and the `bi` program around it.

- `src/` is the verified library:
  - `beyond_identity/api/common/`: building request URLs (`url`, `call`), the requests of
    each API resource (`*/api.rs`) and of each command (`*/command.rs`), pagination and
    status checks (`api_client`), filters, the rate-limit and token policies of the
    middlewares, and how a refused request is shown (`serialize`).
  - `beyond_identity/`: provisioning a tenant from a token's issuer (`tenant`), the stored
    bearer token (`api_token`), the URLs of the helper commands, and the helper commands'
    decisions (`commands`, `helper/*`): which identities are swept or offered, in which
    order they leave their groups and roles and are deleted, how the operator's selection
    is read, how SSO labels are sanitized, the SCIM set-up.
  - `ai/`: the prompt of the AI helper and how its answer is shown.
  - `text`, `weburl`, `copies`: verified text operations, URLs through the `url` crate
    (each URL built is parsed again and kept only where it parses back to itself), and
    copies of optional strings.
- `tests/` runs the library on concrete values.
- `app/` is the program: command-line parsing, HTTP, files, and the terminal.
