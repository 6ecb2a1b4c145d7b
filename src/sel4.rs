//! Build configuration and the boot-program invocations this crate emits.
use vstd::prelude::*;

verus! {

/// Target architectures of the build.
#[derive(Debug, Clone, Copy, PartialEq, Eq, Structural)]
pub enum Arch {
    Aarch64,
    Riscv64,
    X86_64,
}

/// The parts of the build configuration that capability seeding reads.
#[derive(Debug, Clone, Copy, PartialEq, Eq, Structural)]
pub struct Config {
    pub arch: Arch,
    pub stack_top: u64,
}

impl Config {
    /// Virtual address just past the top of every protection domain's stack.
    pub fn pd_stack_top(&self) -> (r: u64)
        ensures
            r == self.stack_top,
    {
        self.stack_top
    }
}

/// One step of the boot program that the loader replays against the kernel.
#[derive(Debug, Clone, Copy, PartialEq, Eq, Structural)]
pub enum Invocation {
    /// Write a capability into register `reg_idx` of the thread `tcb` running in `vspace_root`.
    CheriWriteRegister {
        tcb: u64,
        vspace_root: u64,
        reg_idx: u64,
        cheri_base: u64,
        cheri_addr: u64,
        cheri_size: u64,
        cheri_meta: u64,
    },
    /// Write a capability into page `page`, at virtual address `vaddr` of `vspace_root`.
    CheriWriteMemoryCap {
        tcb: u64,
        vspace_root: u64,
        page: u64,
        vaddr: u64,
        cheri_base: u64,
        cheri_addr: u64,
        cheri_size: u64,
        cheri_meta: u64,
    },
}

} // verus!
