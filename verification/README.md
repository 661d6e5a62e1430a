# Qingjian shell decisions, verified

The decision logic of the Qingjian input method's shells (macOS, Windows text service
and input server, Linux server, command line), written in Verus and proved against
its contracts.

- `src/keys.rs`, `src/text.rs`, `src/layout.rs`: key codes and chords, text helpers,
  candidates and the drawn frame.
- `src/router/`: the input server's router: navigation over candidate pages, the
  shortcuts during composition, the global mode and the status bar, phrase learning,
  and the sessions of the Linux front end.
- `src/mac/`: the macOS host: Caps Lock and switch-key taps, the learn-phrase form,
  the rescoring timers, the shortcut recorder, the input controller's decisions.
- `src/tsf/`: the Windows text service: switch-key taps, the mode and its
  compartments, the preserved keys.
- `src/badge.rs`, `src/about.rs`, `src/repl.rs`: the mode badge's placement, the
  update line, the command line's commands.

The conversion engine and everything that talks to the operating system stay with
the caller: `app/` holds the command line's loop and the server's key loop, generic
over the engine. Laws that span several calls are public proof functions named
`law_*`.
