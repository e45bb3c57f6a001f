# no-afk

A menu bar utility that stops macOS sleeping, blanking the display, or locking the screen. It
holds IOKit power assertions, the same public API every video player uses.

The library, `awake_core`, is written in Verus: what its functions do is stated in contracts and
proved. Four items are trusted instead: the drop of a `Guard`, which hands a verified function's
report to stderr, and the reading of the OS clock. The app around the library owns the tray, the
menu, the system calls and the settings file.

```
src/lib.rs        Flags / Request / Handle / Guard, the Backend trait
src/session.rs    durations, countdown, auto-end
src/macos.rs      what to ask of IOKit, and what to make of its answers
src/windows.rs    stub with implementation notes
src/linux.rs      stub with implementation notes
src/presence.rs   when a synthetic keystroke is allowed, and how one goes
src/fake.rs       in-memory backend for tests
src/leak.rs       nothing leaks, proved over the in-memory backend
src/settings.rs   how the settings file is read and written, step by step
src/shell.rs      what a click does, and what is shown
src/text.rs       numbers as text
src/time.rs       spans of time and readings of a clock
app/              tray, menu, once-a-second tick, IOKit and CoreGraphics calls, JSON
app/examples/     dev tools: hold a session, list what is held on the system
```

## Design notes

**Leaked assertions are the failure mode that matters.** If an app loses track of an assertion
while it runs, the machine silently never sleeps again and there is no UI left to fix it. So a
`Guard` releases on drop, a partial acquire rolls back, and a release tries every id. Drop is
written so as not to panic over a failed release; that it does not, and that it is reached, is
tested rather than proved.

**Timed sessions hand the deadline to the kernel** rather than relying on an app-side timer: the
OS deadline still fires if the process is suspended.

**Presence is another matter.** Slack and Teams read the HID idle counter, and no power assertion
resets it.
