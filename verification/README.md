# worktree

A manager for Git worktrees in a bare-repository ("Bare Hub") layout, with a
command line and an interactive terminal interface.

- `src/` is the verified library (Verus): the parsers of git's output, the
  decisions of every command, the state machine of the interactive
  interface (one step function per screen, the background results and the
  timers), and what each widget shows. `src/laws.rs` holds the proved
  properties that span several functions.
- `app/` is the program around it: argument parsing, running `git`, files,
  the keyring, the Gemini client, the terminal loop and the drawing.
- `tests/` runs the library on concrete inputs.
