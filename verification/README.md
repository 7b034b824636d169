# agentnotify_desktop

The decision logic of the AgentNotify desktop host (a Windows notification tool), written
in Verus and proved against its contracts.

- `src/` is the verified library:
  - `update/`: release lookup and version order, checksum files, signature policy, the
    signed release manifest and the decisions on its detached signature's signer, the file
    list of a legacy release, ZIP entry safety and extraction limits, the mapping of release
    files into the install root and the undoing of a failed replacement, and the update
    service's decisions (including the fall-back from the installer to the ZIP).
  - `lifecycle/`: the lifecycle controller, pausing (saved setting and outbox gate kept in
    step, the settings text read and written), tray menu, window and single-instance
    decisions, autostart.
  - `platform/`: application directories, process output capture and results, background
    task registry, credential names.
  - `production/`: settings persistence, agent configuration, delivery targets, runtime
    files and states, and the records shown to the interface.
  - `bridge/`: the data exchanged with the interface and its errors.
  - `json.rs`: parsed JSON values, member lookup and update, around serde_json's parser
    and pretty printer.
  - `text.rs`, `winpath.rs`: the character and Windows path models the contracts use.
- `app/` is the command-line side: environment, files, JSON and ZIP reading around the
  library.
- `tests/` exercise the library on concrete values.

Calls into `sha2`, `reqwest::Url`, `serde_json`, `uuid` and std's formatting stand behind
small trusted wrappers whose contracts name their results; everything else in `src/` is
proved.
