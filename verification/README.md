# palm_launcher

A launcher for the Stardust XR desktop that hangs off the palm of a hand (or a
controller): pulling its handle along a line selects one of the commands given on
the command line, and releasing the handle launches the selected command; pulling
past every command turns the line into one that closes (derezzes) the objects it
reaches.

- `src/` is the verified library: the targets and their command-line names and bus
  addresses (`target.rs`), the addresses of exported spatial references
  (`spatial_ref.rs`), and the launcher's decisions for each event and what it shows
  in each state (`launcher.rs`), with the laws that relate them.
- `app/` is the client: it connects to the server, draws the scene, reads the pose of
  the handle, turns it into a slot index, and runs the commands that the library
  selects.
- `tests/` runs the library on concrete values.
