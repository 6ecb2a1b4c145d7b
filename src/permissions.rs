//! Capability permission bits and their derivation from mapping permissions.
use vstd::prelude::*;

verus! {

/// The permission bits of a CHERI-RISC-V capability, as the kernel numbers them.
#[derive(Debug, Clone, Copy, PartialEq, Eq)]
pub struct CheriRiscv64CapPermissions;

impl CheriRiscv64CapPermissions {
    pub const PERMIT_STORE: u32 = 1u32 << 0u32;
    pub const LOAD_MUTABLE: u32 = 1u32 << 1u32;
    pub const PERMIT_EL: u32 = 1u32 << 2u32;
    pub const PERMIT_SL: u32 = 1u32 << 3u32;
    pub const GLOBAL: u32 = 1u32 << 4u32;
    pub const CAPABILITY: u32 = 1u32 << 5u32;
    pub const USER_00: u32 = 1u32 << 6u32;
    pub const USER_01: u32 = 1u32 << 7u32;
    pub const USER_02: u32 = 1u32 << 8u32;
    pub const USER_03: u32 = 1u32 << 9u32;
    pub const ACCESS_SYSTEM_REGISTERS: u32 = 1u32 << 16u32;
    pub const PERMIT_EXECUTE: u32 = 1u32 << 17u32;
    pub const PERMIT_LOAD: u32 = 1u32 << 18u32;
}

/// The architecture-neutral permission bits of a memory mapping.
#[derive(Debug, Clone, Copy, PartialEq, Eq)]
pub struct SysMapPerms;

impl SysMapPerms {
    pub const READ: u8 = 1u8;
    pub const WRITE: u8 = 2u8;
    pub const EXECUTE: u8 = 4u8;
    pub const CHERI: u8 = 8u8;
}

/// The four capability bits that a mapping permission can grant.
pub open spec fn mapped_cap_bits() -> u32 {
    CheriRiscv64CapPermissions::PERMIT_LOAD | CheriRiscv64CapPermissions::PERMIT_STORE
        | CheriRiscv64CapPermissions::PERMIT_EXECUTE | CheriRiscv64CapPermissions::CAPABILITY
}

/// Whether `perms` grants exactly the capability bits that `map_perms` asks for:
/// load for read, store for write, execute for execute, capability for the CHERI bit,
/// and nothing else.
pub open spec fn translates(map_perms: u8, perms: u32) -> bool {
    &&& (perms & CheriRiscv64CapPermissions::PERMIT_LOAD != 0) == (map_perms & SysMapPerms::READ
        != 0)
    &&& (perms & CheriRiscv64CapPermissions::PERMIT_STORE != 0) == (map_perms & SysMapPerms::WRITE
        != 0)
    &&& (perms & CheriRiscv64CapPermissions::PERMIT_EXECUTE != 0) == (map_perms
        & SysMapPerms::EXECUTE != 0)
    &&& (perms & CheriRiscv64CapPermissions::CAPABILITY != 0) == (map_perms & SysMapPerms::CHERI
        != 0)
    &&& perms & !mapped_cap_bits() == 0
}

/// Translates mapping permissions into the capability permission mask.
pub fn cap_perms_from_map_perms(map_perms: u8) -> (r: u32)
    ensures
        translates(map_perms, r),
{
    let mut cap_perms: u32 = 0;
    if map_perms & SysMapPerms::READ != 0 {
        cap_perms = cap_perms | CheriRiscv64CapPermissions::PERMIT_LOAD;
    }
    let ghost p1 = cap_perms;
    if map_perms & SysMapPerms::WRITE != 0 {
        cap_perms = cap_perms | CheriRiscv64CapPermissions::PERMIT_STORE;
    }
    let ghost p2 = cap_perms;
    if map_perms & SysMapPerms::EXECUTE != 0 {
        cap_perms = cap_perms | CheriRiscv64CapPermissions::PERMIT_EXECUTE;
    }
    let ghost p3 = cap_perms;
    if map_perms & SysMapPerms::CHERI != 0 {
        cap_perms = cap_perms | CheriRiscv64CapPermissions::CAPABILITY;
    }
    proof {
        lemma_translation_steps(map_perms, p1, p2, p3, cap_perms);
    }
    cap_perms
}

proof fn lemma_translation_steps(m: u8, p1: u32, p2: u32, p3: u32, p4: u32)
    by (bit_vector)
    requires
        p1 == if m & SysMapPerms::READ != 0 {
            0u32 | CheriRiscv64CapPermissions::PERMIT_LOAD
        } else {
            0u32
        },
        p2 == if m & SysMapPerms::WRITE != 0 {
            p1 | CheriRiscv64CapPermissions::PERMIT_STORE
        } else {
            p1
        },
        p3 == if m & SysMapPerms::EXECUTE != 0 {
            p2 | CheriRiscv64CapPermissions::PERMIT_EXECUTE
        } else {
            p2
        },
        p4 == if m & SysMapPerms::CHERI != 0 {
            p3 | CheriRiscv64CapPermissions::CAPABILITY
        } else {
            p3
        },
    ensures
        translates(m, p4),
{
}

/// The translation is a function: one mapping permission value admits a single mask.
/// With no mapping permission set, that mask is empty, and every mask holds only the
/// four bits that mapping permissions can grant.
pub proof fn lemma_translation_unique(map_perms: u8, p: u32, q: u32)
    requires
        translates(map_perms, p),
        translates(map_perms, q),
    ensures
        p == q,
        map_perms & 0xFu8 == 0 ==> p == 0,
        p & mapped_cap_bits() == p,
{
    assert(translates(map_perms, p) && translates(map_perms, q) ==> p == q) by (bit_vector);
    assert(translates(map_perms, p) && map_perms & 0xFu8 == 0 ==> p == 0) by (bit_vector);
    assert(translates(map_perms, p) ==> p & mapped_cap_bits() == p) by (bit_vector);
}

} // verus!
