//! Physical and virtual addresses, checked by the rules of the x86_64 crate.
use vstd::prelude::*;

verus! {

/// A physical address has none of bits 52 to 63 set.
pub open spec fn phys_addr_valid(v: u64) -> bool {
    v < 0x10_0000_0000_0000u64
}

/// A virtual address is canonical: bits 48 to 63 are copies of bit 47.
pub open spec fn virt_addr_canonical(v: u64) -> bool {
    v < 0x8000_0000_0000u64 || v >= 0xffff_8000_0000_0000u64
}

/// A physical address is one whose bits 52 to 63 are all zero.
pub proof fn lemma_phys_addr_valid_bits(v: u64)
    ensures
        phys_addr_valid(v) <==> v & 0xfff0_0000_0000_0000u64 == 0,
{
    assert(v < 0x10_0000_0000_0000u64 <==> v & 0xfff0_0000_0000_0000u64 == 0) by (bit_vector);
}

/// A canonical virtual address has bits 47 to 63 all zero or all one.
pub proof fn lemma_virt_addr_canonical_bits(v: u64)
    ensures
        virt_addr_canonical(v) <==> (v >> 47u64 == 0 || v >> 47u64 == 0x1ffffu64),
{
    assert((v < 0x8000_0000_0000u64 || v >= 0xffff_8000_0000_0000u64) <==> (v >> 47u64 == 0 || v
        >> 47u64 == 0x1ffffu64)) by (bit_vector);
}

/// Builds an `x86_64::PhysAddr` with `PhysAddr::new` and reads it back with
/// `PhysAddr::as_u64`. The x86_64 crate panics in `new` when one of bits 52
/// to 63 is set and otherwise stores the address unchanged, which
/// `as_u64` returns.
#[verifier::external_body]
fn x86_64_phys_addr(v: u64) -> (r: u64)
    requires
        phys_addr_valid(v),
    ensures
        r == v,
{
    ::x86_64::PhysAddr::new(v).as_u64()
}

/// Builds an `x86_64::VirtAddr` with `VirtAddr::new` and reads it back with
/// `VirtAddr::as_u64`. The x86_64 crate panics in `new` unless bits 48 to 63
/// are a sign extension of bit 47, and otherwise stores the address
/// unchanged, which `as_u64` returns.
#[verifier::external_body]
fn x86_64_virt_addr(v: u64) -> (r: u64)
    requires
        virt_addr_canonical(v),
    ensures
        r == v,
{
    ::x86_64::VirtAddr::new(v).as_u64()
}

/// A physical address (see `phys_addr_valid`).
#[derive(Debug, Clone, Copy, PartialEq, Eq, Structural)]
pub struct PhysAddr {
    addr: u64,
}

impl PhysAddr {
    #[verifier::type_invariant]
    spec fn inv(self) -> bool {
        phys_addr_valid(self.addr)
    }

    /// The address as a number.
    pub closed spec fn value(self) -> u64 {
        self.addr
    }

    /// The physical address `addr`; it must have none of bits 52 to 63 set.
    pub fn new(addr: u64) -> (r: PhysAddr)
        requires
            phys_addr_valid(addr),
        ensures
            r.value() == addr,
    {
        PhysAddr { addr: x86_64_phys_addr(addr) }
    }

    /// The address as a number.
    pub fn as_u64(self) -> (r: u64)
        ensures
            r == self.value(),
            phys_addr_valid(r),
    {
        proof {
            use_type_invariant(self);
        }
        self.addr
    }
}

/// A canonical virtual address (see `virt_addr_canonical`).
#[derive(Debug, Clone, Copy, PartialEq, Eq, Structural)]
pub struct VirtAddr {
    addr: u64,
}

impl VirtAddr {
    #[verifier::type_invariant]
    spec fn inv(self) -> bool {
        virt_addr_canonical(self.addr)
    }

    /// The address as a number.
    pub closed spec fn value(self) -> u64 {
        self.addr
    }

    /// The virtual address `addr`; it must be canonical.
    pub fn new(addr: u64) -> (r: VirtAddr)
        requires
            virt_addr_canonical(addr),
        ensures
            r.value() == addr,
    {
        VirtAddr { addr: x86_64_virt_addr(addr) }
    }

    /// The address as a number.
    pub fn as_u64(self) -> (r: u64)
        ensures
            r == self.value(),
            virt_addr_canonical(r),
    {
        proof {
            use_type_invariant(self);
        }
        self.addr
    }
}

} // verus!
