# regolith-inputd

A daemon that keeps sway's input settings (pointer, touchpad, keyboard
repeat, keyboard layouts) in step with the desktop's settings store, GNOME's
gsettings or COSMIC's cosmic-config, in both directions.

- `src/` is the verified library (Verus): backend choice, the sway commands
  for each kind of setting, routing of changed settings keys, the merge of
  values that sway reports back into stored settings, the gates that keep
  the two directions from echoing each other, the decision for each event
  from sway, and the startup retry policy. Laws about these stand there as
  proof functions.
- `app/` is the daemon around it: connections to sway, reading and writing
  the settings stores, watching them, threads and sleeps. The GNOME and
  COSMIC handlers are behind the `gnome` and `cosmic` cfg flags.
- `tests/` runs the library on concrete values.
