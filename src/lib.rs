//! Boot-time capability seeding for CHERI protection domains: which capabilities a
//! domain's registers and symbols start with, and the invocations that install them.
pub mod cap_meta;
pub mod cheri;
pub mod elf;
pub mod permissions;
pub mod sel4;
pub mod util;
