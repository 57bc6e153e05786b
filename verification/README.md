# revolver

A progress spinner for the shell, as a zshrs plugin: `revolver start <message>`,
`revolver update <message>`, `revolver stop`, `revolver demo`, with the options
`-h`/`--help`, `-v`/`--version` and `-s`/`--style <name>`.

- `src/` is the verified library:
  - `styles.rs`: the table of 55 styles (name, frame interval in milliseconds,
    frames), lookup by name, the demo's steps, and the proof that every style
    can be animated;
  - `cli.rs`: the command line, read into what it asks for and what the builtin
    then does, against a specification of the argument scan;
  - `animation.rs`: the line drawn on each tick, the frame cycle, the message
    cut to the terminal's width, the interruptible sleep and the choice of the
    terminal's width;
  - `session.rs`: the slot of the one running spinner and the `update` / `stop`
    decisions with their exit statuses;
  - `text.rs`: string comparison and assembly.
- `app/` is the plugin around it: the builtin's entry point, the process-wide
  slot, the animator thread, the terminal and its size.
- `tests/` runs the library on concrete command lines, styles and frames.
