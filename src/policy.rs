use vstd::prelude::*;

verus! {

/// Configuration of one limiter's window: its length in seconds and how many
/// requests it admits within it.
#[derive(Clone, Copy, Debug, PartialEq, Eq, Structural)]
pub struct WindowPolicy {
    pub window_secs: u64,
    pub max_requests: u64,
}

impl WindowPolicy {
    pub open spec fn wf(&self) -> bool {
        self.window_secs > 0 && self.max_requests >= 1
    }

    /// A policy of `window_secs` seconds and `max_requests` requests; `None`
    /// where the window is empty or no request would be admitted.
    pub fn new(window_secs: u64, max_requests: u64) -> (r: Option<WindowPolicy>)
        ensures
            r == (if window_secs > 0 && max_requests >= 1 {
                Some(WindowPolicy { window_secs, max_requests })
            } else {
                None
            }),
            r matches Some(p) ==> p.wf(),
    {
        if window_secs > 0 && max_requests >= 1 {
            Some(WindowPolicy { window_secs, max_requests })
        } else {
            None
        }
    }
}

} // verus!
