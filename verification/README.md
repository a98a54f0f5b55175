# videopos

License checking for the VideoPOS desktop shell, verified with Verus.

- `src/` is the library: the license record and its expiry rule (`license`,
  `clock`), the license server's request and reply formats (`api`, `json`),
  the validity check as a state machine with its laws (`validity`), the choice
  of streaming address and the connectivity probe (`network`), and what the
  shell does with a check's outcome (`startup`).
- `app/` is the Tauri shell: files, HTTP, the machine id, the window and the
  streaming servers. It drives the library's validity check, doing each action
  the check asks for.
