# mentci-egui

The egui client shell for the Mentci daemon, with its decisions verified by
Verus.

`src/` is the verified library:

- `text` — Unicode trimming, separator splitting, `u64` parsing and printing,
  line joining, each proved against its specification.
- `policy_editor` — the intercept-policy form and editor state: proposal
  validation, editing an existing policy, and folding the daemon's replies in.
- `control` — the remote-control modes and vocabulary.
- `shell` — the window's own decisions: bootstrap, request gating, control
  command routing, approval-card and header labels, colour-scheme choice.
- `daemon_client` — socket choice, the frame-size limit and reading reply
  frames.
- `sockets`, `error`, `mentci`, `workbench` — socket paths, errors, the
  daemon's values as plain values, and the workbench pane texts.

`app/` is the egui window, the Unix-socket I/O, the environment, the NOTA
codecs and the conversions to the `signal-mentci` wire values.
