//! Leasing bus-visible memory through the GPU's mailbox broker.
//!
//! A lease is acquired in two steps — allocate a handle, lock it to get a
//! bus address — and released in two — unlock, free.  The broker is a
//! privileged device the surrounding program opens; the client records
//! every call in a ghost trace so that the acquisition discipline is
//! visible in the contracts: ordering is preserved, and when the lock
//! step fails the already-allocated handle is freed before the error is
//! surfaced.

use vstd::prelude::*;
use rpi_mailbox::Mailbox;
use crate::addr::spec_translate;

verus! {

#[verifier::external_type_specification]
#[verifier::external_body]
pub struct ExMailbox(Mailbox);

#[verifier::external_type_specification]
#[verifier::external_body]
pub struct ExMailboxError(rpi_mailbox::error::Error);

/// One call made through the broker, with its outcome.
pub enum MbOp {
    Alloc { size: u32, align: u32, handle: Option<u32> },
    Lock { handle: u32, bus: Option<u32> },
    Unlock { bus: u32, ok: bool },
    Free { handle: u32, ok: bool },
}

/// The successful value of a broker call, if any.
pub open spec fn spec_ok_u32(r: Result<u32, rpi_mailbox::error::Error>) -> Option<u32> {
    match r {
        Ok(v) => Some(v),
        Err(_) => None,
    }
}

/// A leased, locked region of GPU memory: its broker handle, the bus
/// address the DMA engine must use, and the physical address the region
/// can be mapped at.
pub struct BusLease {
    /// The broker's handle for the allocation.
    pub handle: u32,
    /// The region's address as the GPU/DMA subsystem sees it.
    pub bus_addr: u32,
    /// The physical address the bus address aliases.
    pub phys_addr: u32,
}

impl BusLease {
    /// The recorded physical address is the translation of the bus
    /// address.
    pub open spec fn wf(&self) -> bool {
        self.phys_addr == spec_translate(self.bus_addr)
    }
}

/// A lease could not be acquired: the allocation itself failed, or the
/// lock step failed after a successful allocation (which was then freed).
#[derive(Debug)]
pub enum AllocationError {
    Alloc(rpi_mailbox::error::Error),
    Lock(rpi_mailbox::error::Error),
}

/// The broker connection, with the ghost trace of the calls made on it.
pub struct MailboxClient {
    mb: Mailbox,
    ops: Ghost<Seq<MbOp>>,
}

impl MailboxClient {
    /// The calls made through this client, oldest first.
    pub closed spec fn trace(&self) -> Seq<MbOp> {
        self.ops@
    }

    /// Wrap an open broker connection; the trace starts empty.
    pub fn new(mb: Mailbox) -> (c: MailboxClient)
        ensures
            c.trace() == Seq::<MbOp>::empty(),
    {
        MailboxClient { mb, ops: Ghost(Seq::empty()) }
    }

    /// Relies on rpi_mailbox::mailbox_mem_alloc: requests a
    /// zero-initialized, direct-access allocation of `size` bytes at
    /// `align` alignment and returns its handle.  The call is recorded.
    #[verifier::external_body]
    fn alloc_raw(&mut self, size: u32, align: u32) -> (r: Result<
        u32,
        rpi_mailbox::error::Error,
    >)
        ensures
            final(self).trace() == old(self).trace().push(
                MbOp::Alloc { size, align, handle: spec_ok_u32(r) },
            ),
    {
        rpi_mailbox::mailbox_mem_alloc(
            &self.mb,
            size,
            align,
            rpi_mailbox::memflag::Flags::MEM_FLAG_DIRECT
                | rpi_mailbox::memflag::Flags::MEM_FLAG_ZERO,
        )
    }

    /// Relies on rpi_mailbox::mailbox_mem_lock: pins the allocation and
    /// returns its bus address.  The call is recorded.
    #[verifier::external_body]
    fn lock_raw(&mut self, handle: u32) -> (r: Result<u32, rpi_mailbox::error::Error>)
        ensures
            final(self).trace() == old(self).trace().push(
                MbOp::Lock { handle, bus: spec_ok_u32(r) },
            ),
    {
        rpi_mailbox::mailbox_mem_lock(&self.mb, handle)
    }

    /// Relies on rpi_mailbox::mailbox_mem_unlock: unpins the allocation
    /// named by its bus address.  The call is recorded.
    #[verifier::external_body]
    fn unlock_raw(&mut self, bus: u32) -> (ok: bool)
        ensures
            final(self).trace() == old(self).trace().push(MbOp::Unlock { bus, ok }),
    {
        rpi_mailbox::mailbox_mem_unlock(&self.mb, bus).is_ok()
    }

    /// Relies on rpi_mailbox::mailbox_mem_free: releases the allocation.
    /// The call is recorded.
    #[verifier::external_body]
    fn free_raw(&mut self, handle: u32) -> (ok: bool)
        ensures
            final(self).trace() == old(self).trace().push(MbOp::Free { handle, ok }),
    {
        rpi_mailbox::mailbox_mem_free(&self.mb, handle).is_ok()
    }

    /// Acquire a lease: allocate, then lock.  On success the lease's
    /// physical address is the translation of its bus address.  If the
    /// lock step fails, the allocated handle is freed — best effort —
    /// before the error is surfaced, so a partial acquisition still
    /// releases what it acquired.
    pub fn acquire(&mut self, size: u32, align: u32) -> (r: Result<BusLease, AllocationError>)
        ensures
            match r {
                Ok(l) => {
                    &&& l.wf()
                    &&& final(self).trace() == old(self).trace() + seq![
                        MbOp::Alloc { size, align, handle: Some(l.handle) },
                        MbOp::Lock { handle: l.handle, bus: Some(l.bus_addr) },
                    ]
                },
                Err(AllocationError::Alloc(_)) => final(self).trace() == old(self).trace()
                    + seq![MbOp::Alloc { size, align, handle: None }],
                Err(AllocationError::Lock(_)) => exists|h: u32, freed: bool|
                    final(self).trace() == old(self).trace() + seq![
                        MbOp::Alloc { size, align, handle: Some(h) },
                        MbOp::Lock { handle: h, bus: None },
                        MbOp::Free { handle: h, ok: freed },
                    ],
            },
    {
        let handle = match self.alloc_raw(size, align) {
            Ok(h) => h,
            Err(e) => {
                assert(self.trace() =~= old(self).trace() + seq![
                    MbOp::Alloc { size, align, handle: None },
                ]);
                return Err(AllocationError::Alloc(e));
            },
        };
        match self.lock_raw(handle) {
            Ok(bus) => {
                let phys = crate::addr::translate(bus);
                assert(self.trace() =~= old(self).trace() + seq![
                    MbOp::Alloc { size, align, handle: Some(handle) },
                    MbOp::Lock { handle, bus: Some(bus) },
                ]);
                Ok(BusLease { handle, bus_addr: bus, phys_addr: phys })
            },
            Err(e) => {
                let freed = self.free_raw(handle);
                assert(self.trace() =~= old(self).trace() + seq![
                    MbOp::Alloc { size, align, handle: Some(handle) },
                    MbOp::Lock { handle, bus: None },
                    MbOp::Free { handle, ok: freed },
                ]);
                Err(AllocationError::Lock(e))
            },
        }
    }

    /// Release a lease whose mapping the caller has already dropped:
    /// unlock, then free, in that order, attempting both even if the
    /// unlock fails.  Reports whether both steps succeeded.
    pub fn release(&mut self, lease: &BusLease) -> (ok: bool)
        ensures
            exists|unlocked: bool, freed: bool|
                final(self).trace() == old(self).trace() + seq![
                    MbOp::Unlock { bus: lease.bus_addr, ok: unlocked },
                    MbOp::Free { handle: lease.handle, ok: freed },
                ] && ok == (unlocked && freed),
    {
        let unlocked = self.unlock_raw(lease.bus_addr);
        let freed = self.free_raw(lease.handle);
        assert(self.trace() =~= old(self).trace() + seq![
            MbOp::Unlock { bus: lease.bus_addr, ok: unlocked },
            MbOp::Free { handle: lease.handle, ok: freed },
        ]);
        unlocked && freed
    }
}

} // verus!
