# barforge

The logic of the Barforge web site and desktop app, the registry of Waybar modules, written
in Verus: every function in `src/` carries a contract that Verus proves.

- `src/` — the verified library: registry URLs, redirect rules, sign-in tokens and the GitHub
  OAuth client, forms and upload checks, the command palette's scoring and ranking, browsing
  and sorting in the desktop app, stars, notifications, recently viewed modules, theme, the
  page logic of the web site, and the server's settings and request decisions.
- `tests/` — tests that run the library with the real outside crates linked.
- `app/` — the server's start-up around the library: reading the environment, preparing the
  session store's directory, and the JSON forms of the library's records.

Calls into `url`, `ring`, `base64`, `semver` and `oauth2` sit behind small trusted wrappers
whose contracts are stated next to them; everything else is proved.
