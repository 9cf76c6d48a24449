# pop_analytics_panel

The analytics panel of Pop!_OS for the HP Dev One: the settings panel, the
first-run setup page, the EULA page and the summary that shows what is
collected.

- `src/` is the library, verified with Verus. Each view is a state machine:
  `update` takes a message and returns the actions that the view asks for,
  with a contract that gives them exactly (`step`, `answer`). It also
  classifies the errors of the vendor service, counts download progress and
  turns the gzip-compressed JSON of a download into pretty-printed JSON.
- `app/` is the GTK side: the relm widgets, which perform those actions, the
  background jobs that talk to the vendor service, localization and the C
  entry points used by GNOME Settings.
- `tests/` runs the library on concrete messages and data.
