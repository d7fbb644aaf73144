//! The fixed candidate range for the callback port, and the scan that walks
//! it in ascending order. Binding itself is an operating-system step taken
//! by the caller; the scan decides which port to try next and when the
//! range is exhausted.

use vstd::prelude::*;

verus! {

/// Lowest candidate port for a callback session.
pub const OAUTH_PORT_MIN: u16 = 17900;

/// Highest candidate port for a callback session.
pub const OAUTH_PORT_MAX: u16 = 17999;

/// Whether `p` is one of the candidate ports.
pub open spec fn in_port_range(p: u16) -> bool {
    OAUTH_PORT_MIN <= p && p <= OAUTH_PORT_MAX
}

/// An in-progress scan of the candidate range: `next` is the first port not
/// yet tried.
pub struct PortScan {
    /// The next candidate; one past the highest when the range is
    /// exhausted.
    pub next: u16,
}

impl PortScan {
    /// The scan never leaves the range except by one step past its end.
    pub open spec fn wf(self) -> bool {
        OAUTH_PORT_MIN <= self.next && self.next <= OAUTH_PORT_MAX + 1
    }

    /// A scan that starts at the bottom of the range.
    pub fn begin() -> (r: PortScan)
        ensures
            r.wf(),
            r.next == OAUTH_PORT_MIN,
    {
        PortScan { next: OAUTH_PORT_MIN }
    }

    /// The candidate to try binding now, or `None` when every port in the
    /// range has been tried.
    pub fn current(&self) -> (r: Option<u16>)
        requires
            self.wf(),
        ensures
            r == if self.next <= OAUTH_PORT_MAX {
                Option::Some(self.next)
            } else {
                Option::<u16>::None
            },
            (r matches Some(p) ==> in_port_range(p)),
    {
        if self.next <= OAUTH_PORT_MAX {
            Some(self.next)
        } else {
            None
        }
    }

    /// Moves past a candidate whose bind failed; the scan tries ports in
    /// ascending order, each exactly once.
    pub fn advance(&mut self)
        requires
            old(self).wf(),
            old(self).next <= OAUTH_PORT_MAX,
        ensures
            final(self).wf(),
            final(self).next == old(self).next + 1,
    {
        self.next = self.next + 1;
    }
}

} // verus!
