# credinform_cli

A command-line client for the Credinform and FNS company-information
services, built around a library verified with Verus.

- `src/` — the verified library: the configuration, the request addresses
  and bodies, what is read out of the responses, where downloads are saved,
  the plan of a run, shell completion choices and the access-token cache,
  with the laws they obey stated as proof functions.
- `app/` — the program: argument parsing, HTTP, files, JSON and TOML
  (de)serialization, logging, the progress bar and concurrent downloads.
- `tests/` — tests of the library on concrete values.
