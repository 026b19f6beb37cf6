# dra (verified core)

`dra` downloads release assets from GitHub, installs portable applications and keeps
a registry of what it installed. This crate holds the logic of the tool, verified
with Verus:

- `src/github/` — URL rewriting through download proxies (`proxy`), the requests the
  GitHub client makes and how it picks its token (`client`), releases and `{tag}`
  patterns (`release`, `tagged_asset`).
- `src/registry/` — the registry of installed applications and its laws.
- `src/installer/portable_app/` — where a portable application's files go and the
  contents of its `.desktop`, `.service` and `uninstall.sh` files.
- `src/cli/` — the decisions behind `install-app`, `list`, `remove` and `update`.
- `src/paths.rs`, `src/text.rs`, `src/decimal.rs` — paths, strings and numbers.

`app/` is the command line program around it: arguments, files, processes, HTTP.
