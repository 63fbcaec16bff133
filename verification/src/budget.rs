use vstd::prelude::*;

use crate::errno::Errno;

verus! {

/// The symlink-expansion limit used when the system reports none.
pub const DEFAULT_SYMLOOP_MAX: u16 = 40;

/// A bounded counter of symlink expansions: at most `max` expansions may
/// be advanced through; any further attempt fails with `ELOOP`.
#[derive(Clone, Copy, Debug)]
pub struct SymlinkCounter {
    max: u16,
    cur: u16,
}

impl SymlinkCounter {
    /// The configured maximum number of expansions.
    pub closed spec fn spec_max(&self) -> u16 {
        self.max
    }

    /// The number of expansions advanced through so far.
    pub closed spec fn spec_used(&self) -> u16 {
        self.cur
    }

    /// The counter's invariant: it never counts past its maximum.
    pub open spec fn wf(&self) -> bool {
        self.spec_used() <= self.spec_max()
    }

    /// A counter with the default expansion limit, for systems that report
    /// no limit of their own.
    pub fn new() -> (r: Self)
        ensures
            r.spec_max() == DEFAULT_SYMLOOP_MAX,
            r.spec_used() == 0,
            r.wf(),
    {
        Self { max: DEFAULT_SYMLOOP_MAX, cur: 0 }
    }

    /// A counter with the given expansion limit, typically the value the
    /// system reports for its symlink-loop maximum.
    pub fn with_max(max: u16) -> (r: Self)
        ensures
            r.spec_max() == max,
            r.spec_used() == 0,
            r.wf(),
    {
        Self { max, cur: 0 }
    }

    /// A counter that permits no expansion at all: the first attempt to
    /// advance fails.
    pub fn nolinks() -> (r: Self)
        ensures
            r.spec_max() == 0,
            r.spec_used() == 0,
            r.wf(),
    {
        Self { max: 0, cur: 0 }
    }

    /// Reports whether the budget is used up, without consuming any of it.
    pub fn exhausted(&self) -> (r: bool)
        ensures
            r == (self.spec_used() >= self.spec_max()),
    {
        self.cur >= self.max
    }

    /// Consumes one expansion from the budget. Fails with `ELOOP`, leaving
    /// the counter unchanged, exactly when the budget is already used up;
    /// otherwise counts one expansion.
    pub fn advance(&mut self) -> (r: Result<(), Errno>)
        ensures
            old(self).spec_used() >= old(self).spec_max() ==> {
                &&& r == Result::<(), Errno>::Err(Errno::ELOOP)
                &&& *final(self) == *old(self)
            },
            old(self).spec_used() < old(self).spec_max() ==> {
                &&& r == Result::<(), Errno>::Ok(())
                &&& final(self).spec_used() == old(self).spec_used() + 1
                &&& final(self).spec_max() == old(self).spec_max()
            },
            old(self).wf() ==> final(self).wf(),
    {
        if self.cur >= self.max {
            Err(Errno::ELOOP)
        } else {
            self.cur = self.cur + 1;
            Ok(())
        }
    }

    /// The configured maximum.
    pub fn max(&self) -> (r: u16)
        ensures
            r == self.spec_max(),
    {
        self.max
    }

    /// The count of expansions made so far.
    pub fn used(&self) -> (r: u16)
        ensures
            r == self.spec_used(),
    {
        self.cur
    }
}

} // verus!
