//! Admission to the store: at most `capacity` store operations run at
//! once, each bounded by a timeout. An operation that cannot be admitted
//! fails at once with a reportable error instead of queueing behind the
//! others.

use vstd::prelude::*;

verus! {

#[derive(Debug, Clone, Copy, PartialEq, Eq, Structural)]
pub enum GatewayError {
    /// Every connection is in use; the caller may try again.
    Exhausted,
}

/// The store gateway's accounting of connections in use.
pub struct PoolContainer {
    capacity: u32,
    in_use: u32,
    timeout_ms: u64,
}

impl PoolContainer {
    pub closed spec fn spec_capacity(&self) -> nat {
        self.capacity as nat
    }

    pub closed spec fn spec_in_use(&self) -> nat {
        self.in_use as nat
    }

    pub closed spec fn spec_timeout_ms(&self) -> nat {
        self.timeout_ms as nat
    }

    pub open spec fn wf(&self) -> bool {
        self.spec_in_use() <= self.spec_capacity()
    }

    /// A gateway for `capacity` concurrent operations of at most
    /// `timeout_ms` milliseconds each, none running.
    pub fn new(capacity: u32, timeout_ms: u64) -> (r: PoolContainer)
        ensures
            r.wf(),
            r.spec_capacity() == capacity,
            r.spec_in_use() == 0,
            r.spec_timeout_ms() == timeout_ms,
    {
        PoolContainer { capacity, in_use: 0, timeout_ms }
    }

    pub fn capacity(&self) -> (r: u32)
        ensures
            r == self.spec_capacity(),
    {
        self.capacity
    }

    pub fn in_use(&self) -> (r: u32)
        ensures
            r == self.spec_in_use(),
    {
        self.in_use
    }

    pub fn timeout_ms(&self) -> (r: u64)
        ensures
            r == self.spec_timeout_ms(),
    {
        self.timeout_ms
    }

    /// Admits one operation if a connection is free.
    pub fn try_acquire(&mut self) -> (r: Result<(), GatewayError>)
        requires
            old(self).wf(),
        ensures
            final(self).wf(),
            final(self).spec_capacity() == old(self).spec_capacity(),
            final(self).spec_timeout_ms() == old(self).spec_timeout_ms(),
            old(self).spec_in_use() < old(self).spec_capacity() ==> r is Ok && final(self).spec_in_use()
                == old(self).spec_in_use() + 1,
            old(self).spec_in_use() >= old(self).spec_capacity() ==> r == Err::<(), GatewayError>(
                GatewayError::Exhausted,
            ) && final(self).spec_in_use() == old(self).spec_in_use(),
    {
        if self.in_use < self.capacity {
            self.in_use = self.in_use + 1;
            Ok(())
        } else {
            Err(GatewayError::Exhausted)
        }
    }

    /// Hands back the connection of a finished (or timed-out) operation.
    pub fn release(&mut self)
        requires
            old(self).wf(),
        ensures
            final(self).wf(),
            final(self).spec_capacity() == old(self).spec_capacity(),
            final(self).spec_timeout_ms() == old(self).spec_timeout_ms(),
            final(self).spec_in_use() == if old(self).spec_in_use() > 0 {
                old(self).spec_in_use() - 1
            } else {
                0
            },
    {
        if self.in_use > 0 {
            self.in_use = self.in_use - 1;
        }
    }
}

} // verus!
