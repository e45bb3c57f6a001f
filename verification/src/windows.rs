//! Windows backend: **not yet implemented**.
//!
//! The primary mechanism is `PowerCreateRequest`, `PowerSetRequest` and `PowerClearRequest`.
//! The request's handle goes into [`Handle::ids`] as a `u64`; releasing it is
//! `PowerClearRequest` for each type set, then `CloseHandle`. Requests show up in
//! `powercfg /requests`, so name them legibly.
//!
//! `SetThreadExecutionState` is the fallback. It is simpler but materially weaker: it is
//! per-thread, it only resets the idle timer, and it does not keep work running across Modern
//! Standby.
//!
//! **No OS-side timeout exists.** Windows has no kernel-enforced deadline, so
//! [`Request::timeout`] must be honoured by an app-side timer here.

use vstd::prelude::*;

use crate::{Backend, Error, Handle, HandleView, Request, RequestView};

verus! {

#[derive(Debug, Default)]
pub struct PowerRequestBackend;

impl Backend for PowerRequestBackend {
    open spec fn goes_by(&self, name: Seq<char>) -> bool {
        name == "windows/powerrequest"@
    }

    open spec fn acquires(
        pre: PowerRequestBackend,
        req: RequestView,
        post: PowerRequestBackend,
        result: Result<HandleView, Error>,
    ) -> bool {
        &&& post == pre
        &&& result == Err::<HandleView, Error>(
            Error::Unsupported("keep-awake is not implemented on Windows yet"),
        )
    }

    open spec fn releases(
        pre: PowerRequestBackend,
        handle: HandleView,
        post: PowerRequestBackend,
        result: Result<(), Error>,
    ) -> bool {
        &&& post == pre
        &&& result == Err::<(), Error>(
            Error::Unsupported("keep-awake is not implemented on Windows yet"),
        )
    }

    fn name(&self) -> (name: &'static str) {
        "windows/powerrequest"
    }

    fn acquire(&mut self, _req: &Request) -> (result: Result<Handle, Error>) {
        Err(Error::Unsupported("keep-awake is not implemented on Windows yet"))
    }

    fn release(&mut self, _handle: &Handle) -> (result: Result<(), Error>) {
        Err(Error::Unsupported("keep-awake is not implemented on Windows yet"))
    }
}

} // verus!
