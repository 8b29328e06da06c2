//! The system-information syscall decision.
//!
//! The syscall hands the kernel a guest address to fill in. The guest virtual
//! memory subsystem first translates that address; the host is queried only
//! when the translation succeeds. The decision between the two outcomes is
//! made here; the translation itself and the host query are performed by the
//! surrounding runtime.

use vstd::prelude::*;

verus! {

/// The host error code for a bad guest address.
pub const EFAULT: i32 = 14;

/// What the syscall does next, decided from the address translation outcome.
#[derive(Clone, Copy, PartialEq, Eq, Structural, Debug)]
pub enum SysInfoStep {
    /// The guest address does not translate: the syscall returns a fault
    /// without touching the host.
    Fault,
    /// The guest address translates to this physical address: query the host
    /// and fill the structure there.
    QueryHost(u64),
}

impl SysInfoStep {
    /// The syscall's return value once the step ran: the fault code for a bad
    /// address, otherwise whatever the host query returned.
    pub fn ReturnValue(&self, hostResult: i64) -> (r: i64)
        ensures
            *self is Fault ==> r == -(EFAULT as i64),
            *self is QueryHost ==> r == hostResult,
    {
        match self {
            SysInfoStep::Fault => -(EFAULT as i64),
            SysInfoStep::QueryHost(_) => hostResult,
        }
    }
}

/// Decides the system-information syscall from the outcome of translating the
/// guest's destination address: a failed translation faults, a successful one
/// queries the host at the translated address.
pub fn SysInfo(translated: Option<u64>) -> (r: SysInfoStep)
    ensures
        translated is None ==> r == SysInfoStep::Fault,
        translated matches Some(addr) ==> r == SysInfoStep::QueryHost(addr),
{
    match translated {
        Option::None => SysInfoStep::Fault,
        Option::Some(addr) => SysInfoStep::QueryHost(addr),
    }
}

} // verus!
