# miri_layout

Layout decisions for miri, a workspace manager that gives the niri compositor a
master layout (one master column, one child column) beside niri's own scrolling
layout.

- `src/` is the verified library. It keeps what the service knows of workspaces
  and windows (`service_state`), decides what a niri event or a user action asks
  of the layout (`service`, `layout`, `mode_logic`), and returns each decision as
  a sequence of steps (`plan`): niri actions, log lines, or a stop.
- `app/` is the program: it reads the configuration, talks to niri and to the
  command-line client, hands the library plain snapshots of niri's state, turns
  the symbolic widths of the steps into niri size changes and sends the actions.
- `tests/` runs the library on concrete layouts.
