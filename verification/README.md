# rustpbx configuration and console logic

A Verus library holding the configuration model, the web console's URL,
permission, addon and page-context rules, and the version and update-check
logic of a SIP PBX, each function with a contract that Verus proves.

- `src/text.rs`: character-level string operations (trim, find, strip, join).
- `src/config/`: configuration sections and their defaults, recording
  policies, proxy realms and generated directories, the whole configuration.
- `src/console/`: base path and URLs, session key, page context defaults,
  permissions, addon pages and toggling (including the edit of the
  configuration text through `toml_edit`), dashboard metrics.
- `src/version.rs`: version strings, update-check query and notifications.
- `tests/`: tests of the library on concrete values.
- `app/`: what the library leaves to the application: the TOML file format
  (serde copies of the configuration types), reading files and the
  environment, the HTTP update check, reading and writing the configuration
  file, and floating-point figures.
