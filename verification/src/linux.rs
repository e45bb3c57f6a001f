//! Linux backend: **not yet implemented**.
//!
//! There is no single mechanism on Linux. The way to go is a **cascade**: try each in order,
//! keep *every* one that succeeds, and only fail if all of them fail. Desktop environments
//! disagree about which one is authoritative, and holding several is harmless.
//!
//! 1. `org.freedesktop.login1.Manager.Inhibit` (systemd-logind), the system-sleep layer. It
//!    returns a file descriptor; closing it releases the lock.
//! 2. Wayland `zwp_idle_inhibit_manager_v1`, the compositor-native path.
//! 3. `org.freedesktop.ScreenSaver.Inhibit`, the de-facto portable path.
//! 4. `org.freedesktop.portal.Inhibit`, required under Flatpak and Snap confinement.
//! 5. X11: `XScreenSaverSuspend`, or `xset s off` with `xset -dpms`.
//!
//! The flag mapping is lossy: `display` maps to the idle inhibitors (2 to 5) and `system` to
//! logind (1). `disk` has no equivalent and should be ignored rather than treated as an error.

use vstd::prelude::*;

use crate::{Backend, Error, Handle, HandleView, Request, RequestView};

verus! {

#[derive(Debug, Default)]
pub struct DbusBackend;

impl Backend for DbusBackend {
    open spec fn goes_by(&self, name: Seq<char>) -> bool {
        name == "linux/dbus"@
    }

    open spec fn acquires(
        pre: DbusBackend,
        req: RequestView,
        post: DbusBackend,
        result: Result<HandleView, Error>,
    ) -> bool {
        &&& post == pre
        &&& result == Err::<HandleView, Error>(
            Error::Unsupported("keep-awake is not implemented on Linux yet"),
        )
    }

    open spec fn releases(
        pre: DbusBackend,
        handle: HandleView,
        post: DbusBackend,
        result: Result<(), Error>,
    ) -> bool {
        &&& post == pre
        &&& result == Err::<(), Error>(
            Error::Unsupported("keep-awake is not implemented on Linux yet"),
        )
    }

    fn name(&self) -> (name: &'static str) {
        "linux/dbus"
    }

    fn acquire(&mut self, _req: &Request) -> (result: Result<Handle, Error>) {
        Err(Error::Unsupported("keep-awake is not implemented on Linux yet"))
    }

    fn release(&mut self, _handle: &Handle) -> (result: Result<(), Error>) {
        Err(Error::Unsupported("keep-awake is not implemented on Linux yet"))
    }
}

} // verus!
