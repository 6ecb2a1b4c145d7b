//! Decides which capabilities a CHERI protection domain starts with, and emits the
//! invocations that install them.
use vstd::prelude::*;

use crate::cap_meta::{
    encode_meta,
    lemma_meta_determined_by_fields,
    meta_int_mode,
    meta_perms,
    meta_reserved,
    meta_sentry,
    meta_valid,
    CheriRiscv64CapMeta,
};
use crate::elf::{symbol_lookup, ElfFile, ElfSegment};
use crate::permissions::{cap_perms_from_map_perms, translates, CheriRiscv64CapPermissions};
use crate::sel4::{Arch, Config, Invocation};
use crate::util::round_down;

verus! {

/// Register index of the program counter capability.
pub const REG_PCC: u64 = 0;

/// Register index of the stack pointer capability.
pub const REG_CSP: u64 = 2;

/// Register index of the first argument, which carries the code-origin capability.
pub const REG_CA0: u64 = 16;

/// Register index of the second argument, which carries the data-origin capability.
pub const REG_CA1: u64 = 17;

/// Register index of the default data capability.
pub const REG_DDC: u64 = 35;

/// Permissions of code capabilities: all but store and system-register access.
pub const CODE_CAP_PERMS: u32 = u32::MAX & !(CheriRiscv64CapPermissions::PERMIT_STORE
    | CheriRiscv64CapPermissions::ACCESS_SYSTEM_REGISTERS);

/// Permissions of data and stack capabilities: all but execute.
pub const DATA_CAP_PERMS: u32 = u32::MAX & !CheriRiscv64CapPermissions::PERMIT_EXECUTE;

/// A page already mapped into some protection domain: page capability, index of the
/// domain, mapped virtual address, and further fields this crate does not read.
pub type PageDescriptor = (u64, usize, u64, u64, u64, u64, u64);

/// Why a domain's capabilities could not be set up. Each one ends the build.
#[derive(Debug, PartialEq, Eq)]
pub enum CheriError {
    /// A pure-capability image does not have exactly one code and one data segment.
    MalformedImage,
    /// The symbol to seed a capability into is not in the image.
    UnresolvedSymbol(String),
    /// The build targets an architecture for which no CHERI seeding is implemented.
    UnsupportedArch(Arch),
}

/// The byte length of a segment.
pub open spec fn seg_len(s: ElfSegment) -> int {
    s.data@.len() as int
}

/// A register-write invocation.
pub open spec fn write_register(
    tcb: u64,
    vspace: u64,
    reg_idx: u64,
    base: u64,
    addr: u64,
    size: u64,
    meta: u64,
) -> Invocation {
    Invocation::CheriWriteRegister {
        tcb: tcb,
        vspace_root: vspace,
        reg_idx: reg_idx,
        cheri_base: base,
        cheri_addr: addr,
        cheri_size: size,
        cheri_meta: meta,
    }
}

/// Whether the image has the segment layout a pure-capability domain needs.
pub open spec fn has_single_code_and_data(elf: &ElfFile) -> bool {
    elf.code_segments@.len() == 1 && elf.data_segments@.len() == 1
}

/// The bounds of a pure-capability domain's capabilities are representable: the stack
/// fits below the stack top, and the data segment ends in the address space, no lower
/// than the code segment starts.
pub open spec fn reg_context_fits(config: &Config, stack_size: u64, elf: &ElfFile) -> bool {
    elf.spec_is_purecap() && has_single_code_and_data(elf) ==> {
        let code = elf.code_segments@[0];
        let data = elf.data_segments@[0];
        &&& stack_size <= config.stack_top
        &&& code.virt_addr <= data.virt_addr + seg_len(data) <= u64::MAX
    }
}

/// The five register writes of a pure-capability domain, in order: a null default data
/// capability; a sentry program counter capability over code and data, at the entry
/// point; the stack; the code-origin capability; the data-origin capability.
pub open spec fn purecap_reg_invocations(
    config: &Config,
    tcb: u64,
    vspace: u64,
    stack_size: u64,
    elf: &ElfFile,
) -> Seq<Invocation> {
    let code = elf.code_segments@[0];
    let data = elf.data_segments@[0];
    seq![
        write_register(tcb, vspace, REG_DDC, 0, 0, 0, 0),
        write_register(
            tcb,
            vspace,
            REG_PCC,
            code.virt_addr,
            elf.entry,
            (data.virt_addr + seg_len(data) - code.virt_addr) as u64,
            encode_meta(true, false, true, CODE_CAP_PERMS),
        ),
        write_register(
            tcb,
            vspace,
            REG_CSP,
            (config.stack_top - stack_size) as u64,
            config.stack_top,
            stack_size,
            encode_meta(true, false, false, DATA_CAP_PERMS),
        ),
        write_register(
            tcb,
            vspace,
            REG_CA0,
            code.virt_addr,
            code.virt_addr,
            seg_len(code) as u64,
            encode_meta(true, false, false, CODE_CAP_PERMS),
        ),
        write_register(
            tcb,
            vspace,
            REG_CA1,
            data.virt_addr,
            data.virt_addr,
            seg_len(data) as u64,
            encode_meta(true, false, false, DATA_CAP_PERMS),
        ),
    ]
}

/// The two register writes of a hybrid domain: an unbounded integer-mode sentry
/// program counter capability at the entry point, then an unbounded default data
/// capability, both with every permission.
pub open spec fn hybrid_reg_invocations(tcb: u64, vspace: u64, entry: u64) -> Seq<Invocation> {
    seq![
        write_register(tcb, vspace, REG_PCC, 0, entry, u64::MAX, encode_meta(true, true, true, u32::MAX)),
        write_register(tcb, vspace, REG_DDC, 0, 0, u64::MAX, encode_meta(true, true, false, u32::MAX)),
    ]
}

/// What initializing a domain's registers yields on CHERI-RISC-V: the invocations to
/// append, or the error.
pub open spec fn riscv_reg_context(
    config: &Config,
    tcb: u64,
    vspace: u64,
    stack_size: u64,
    elf: &ElfFile,
) -> Result<Seq<Invocation>, CheriError> {
    if elf.spec_is_purecap() {
        if has_single_code_and_data(elf) {
            Ok(purecap_reg_invocations(config, tcb, vspace, stack_size, elf))
        } else {
            Err(CheriError::MalformedImage)
        }
    } else {
        Ok(hybrid_reg_invocations(tcb, vspace, elf.entry))
    }
}

/// What initializing a domain's registers yields for the configured architecture.
pub open spec fn arch_reg_context(
    config: &Config,
    tcb: u64,
    vspace: u64,
    stack_size: u64,
    elf: &ElfFile,
) -> Result<Seq<Invocation>, CheriError> {
    if config.arch == Arch::Riscv64 {
        riscv_reg_context(config, tcb, vspace, stack_size, elf)
    } else {
        Err(CheriError::UnsupportedArch(config.arch))
    }
}

/// A call with outcome `r` took the list from `before` to `after` as `expected` says:
/// on success it appended exactly the expected invocations; on error it returned that
/// error and left the list alone.
pub open spec fn appended_as(
    before: Seq<Invocation>,
    after: Seq<Invocation>,
    r: Result<(), CheriError>,
    expected: Result<Seq<Invocation>, CheriError>,
) -> bool {
    match expected {
        Ok(s) => r is Ok && after == before + s,
        Err(e) => r == Err::<(), CheriError>(e) && after == before,
    }
}

fn cheri_riscv_tcb_init_reg_context(
    config: &Config,
    system_invocations: &mut Vec<Invocation>,
    tcb_cptr: u64,
    vspace_cptr: u64,
    stack_size: u64,
    pd_elf_file: &ElfFile,
) -> (r: Result<(), CheriError>)
    requires
        reg_context_fits(config, stack_size, pd_elf_file),
    ensures
        appended_as(
            old(system_invocations)@,
            final(system_invocations)@,
            r,
            riscv_reg_context(config, tcb_cptr, vspace_cptr, stack_size, pd_elf_file),
        ),
{
    let purecap = pd_elf_file.is_purecap();
    let ghost before = system_invocations@;
    assert(meta_reserved(0u64) == 0u64) by (bit_vector);

    if purecap {
        let code_segments = &pd_elf_file.code_segments;
        let data_segments = &pd_elf_file.data_segments;

        if code_segments.len() != 1 || data_segments.len() != 1 {
            return Err(CheriError::MalformedImage);
        }

        // Null default data capability: a pure-capability domain gets none.
        system_invocations.push(
            Invocation::CheriWriteRegister {
                tcb: tcb_cptr,
                vspace_root: vspace_cptr,
                reg_idx: REG_DDC,
                cheri_base: 0,
                cheri_addr: 0,
                cheri_size: 0,
                cheri_meta: 0,
            },
        );

        let mut meta = CheriRiscv64CapMeta::new();

        // Program counter capability. It covers code and data alike, so that call
        // targets in the data segment need no capability of their own.
        meta.set_v(true);
        meta.set_ct(true);
        meta.set_m(false);
        meta.set_ap(CODE_CAP_PERMS);
        proof {
            lemma_meta_determined_by_fields(meta@);
        }
        let code = &code_segments[0];
        let data = &data_segments[0];
        system_invocations.push(
            Invocation::CheriWriteRegister {
                tcb: tcb_cptr,
                vspace_root: vspace_cptr,
                reg_idx: REG_PCC,
                cheri_base: code.virt_addr,
                cheri_addr: pd_elf_file.entry,
                cheri_size: data.virt_addr + data.data.len() as u64 - code.virt_addr,
                cheri_meta: meta.raw(),
            },
        );

        // Stack pointer capability.
        meta.set_ct(false);
        meta.set_ap(DATA_CAP_PERMS);
        proof {
            lemma_meta_determined_by_fields(meta@);
        }
        let stack_top = config.pd_stack_top();
        system_invocations.push(
            Invocation::CheriWriteRegister {
                tcb: tcb_cptr,
                vspace_root: vspace_cptr,
                reg_idx: REG_CSP,
                cheri_base: stack_top - stack_size,
                cheri_addr: stack_top,
                cheri_size: stack_size,
                cheri_meta: meta.raw(),
            },
        );

        // Code-origin capability, from which the startup code derives code capabilities.
        meta.set_ap(CODE_CAP_PERMS);
        proof {
            lemma_meta_determined_by_fields(meta@);
        }
        system_invocations.push(
            Invocation::CheriWriteRegister {
                tcb: tcb_cptr,
                vspace_root: vspace_cptr,
                reg_idx: REG_CA0,
                cheri_base: code.virt_addr,
                cheri_addr: code.virt_addr,
                cheri_size: code.data.len() as u64,
                cheri_meta: meta.raw(),
            },
        );

        // Data-origin capability, from which the startup code derives data capabilities.
        meta.set_ap(DATA_CAP_PERMS);
        proof {
            lemma_meta_determined_by_fields(meta@);
        }
        system_invocations.push(
            Invocation::CheriWriteRegister {
                tcb: tcb_cptr,
                vspace_root: vspace_cptr,
                reg_idx: REG_CA1,
                cheri_base: data.virt_addr,
                cheri_addr: data.virt_addr,
                cheri_size: data.data.len() as u64,
                cheri_meta: meta.raw(),
            },
        );
        assert(system_invocations@ =~= before + purecap_reg_invocations(
            config,
            tcb_cptr,
            vspace_cptr,
            stack_size,
            pd_elf_file,
        ));
    } else {
        // Hybrid image: program counter and default data capabilities are almighty.
        let mut meta = CheriRiscv64CapMeta::new();

        meta.set_v(true);
        meta.set_ct(true);
        meta.set_m(true);
        meta.set_ap(u32::MAX);
        proof {
            lemma_meta_determined_by_fields(meta@);
        }
        system_invocations.push(
            Invocation::CheriWriteRegister {
                tcb: tcb_cptr,
                vspace_root: vspace_cptr,
                reg_idx: REG_PCC,
                cheri_base: 0,
                cheri_addr: pd_elf_file.entry,
                cheri_size: u64::MAX,
                cheri_meta: meta.raw(),
            },
        );

        meta.set_ct(false);
        proof {
            lemma_meta_determined_by_fields(meta@);
        }
        system_invocations.push(
            Invocation::CheriWriteRegister {
                tcb: tcb_cptr,
                vspace_root: vspace_cptr,
                reg_idx: REG_DDC,
                cheri_base: 0,
                cheri_addr: 0,
                cheri_size: u64::MAX,
                cheri_meta: meta.raw(),
            },
        );
        assert(system_invocations@ =~= before + hybrid_reg_invocations(
            tcb_cptr,
            vspace_cptr,
            pd_elf_file.entry,
        ));
    }
    Ok(())
}

/// Appends the invocations that set up the initial capability registers of one
/// protection domain. Only CHERI-RISC-V is supported; on any error nothing is appended.
pub fn cheri_arch_tcb_init_reg_context(
    config: &Config,
    system_invocations: &mut Vec<Invocation>,
    tcb_cptr: u64,
    vspace_cptr: u64,
    stack_size: u64,
    pd_elf_file: &ElfFile,
) -> (r: Result<(), CheriError>)
    requires
        reg_context_fits(config, stack_size, pd_elf_file),
    ensures
        appended_as(
            old(system_invocations)@,
            final(system_invocations)@,
            r,
            arch_reg_context(config, tcb_cptr, vspace_cptr, stack_size, pd_elf_file),
        ),
        config.arch != Arch::Riscv64 ==> r is Err && final(system_invocations)@ == old(
            system_invocations,
        )@,
{
    match config.arch {
        Arch::Riscv64 => cheri_riscv_tcb_init_reg_context(
            config,
            system_invocations,
            tcb_cptr,
            vspace_cptr,
            stack_size,
            pd_elf_file,
        ),
        _ => Err(CheriError::UnsupportedArch(config.arch)),
    }
}

/// Whether descriptor `i` is the first one for domain `pd_idx` mapped at `vaddr`.
pub open spec fn is_first_page(descs: Seq<PageDescriptor>, pd_idx: usize, vaddr: u64, i: int) -> bool {
    &&& 0 <= i < descs.len()
    &&& descs[i].2 == vaddr && descs[i].1 == pd_idx
    &&& forall|j: int| 0 <= j < i ==> !(descs[j].2 == vaddr && descs[j].1 == pd_idx)
}

/// The page capability of the first descriptor for domain `pd_idx` mapped at `vaddr`,
/// or 0 where there is none.
pub open spec fn page_cptr_for(descs: Seq<PageDescriptor>, pd_idx: usize, vaddr: u64) -> u64 {
    if exists|i: int| is_first_page(descs, pd_idx, vaddr, i) {
        descs[choose|i: int| is_first_page(descs, pd_idx, vaddr, i)].0
    } else {
        0
    }
}

/// Finds the capability of the page that domain `pd_idx` has mapped at `vaddr`;
/// 0 where no such page is listed.
pub fn find_page_cptr(pd_page_descriptors: &[PageDescriptor], pd_idx: usize, vaddr: u64) -> (r: u64)
    ensures
        r == page_cptr_for(pd_page_descriptors@, pd_idx, vaddr),
{
    let mut i: usize = 0;
    while i < pd_page_descriptors.len()
        invariant
            i <= pd_page_descriptors@.len(),
            forall|j: int|
                0 <= j < i ==> !(pd_page_descriptors@[j].2 == vaddr && pd_page_descriptors@[j].1
                    == pd_idx),
        decreases pd_page_descriptors@.len() - i,
    {
        let d = &pd_page_descriptors[i];
        if d.2 == vaddr && d.1 == pd_idx {
            proof {
                assert(is_first_page(pd_page_descriptors@, pd_idx, vaddr, i as int));
                let k = choose|k: int| is_first_page(pd_page_descriptors@, pd_idx, vaddr, k);
                assert(k == i as int);
            }
            return d.0;
        }
        i = i + 1;
    }
    0
}

/// Whether `meta` is the metadata of a seeded symbol capability: tagged, in capability
/// mode, not a sentry, with exactly the permissions that `map_perms` translates to.
pub open spec fn symbol_cap_meta(meta: u64, map_perms: u8) -> bool {
    &&& meta_valid(meta)
    &&& !meta_int_mode(meta)
    &&& !meta_sentry(meta)
    &&& meta_reserved(meta) == 0
    &&& translates(map_perms, meta_perms(meta))
}

/// Whether `inv` writes the capability `[addr, addr + size)`, pointing at `addr`, into
/// page `page` at `vaddr`, for the thread `tcb` in `vspace`, with the permissions that
/// `map_perms` translates to.
pub open spec fn is_symbol_cap_write(
    inv: Invocation,
    tcb: u64,
    vspace: u64,
    page: u64,
    vaddr: u64,
    addr: u64,
    size: u64,
    map_perms: u8,
) -> bool {
    match inv {
        Invocation::CheriWriteMemoryCap {
            tcb: t,
            vspace_root: v,
            page: p,
            vaddr: va,
            cheri_base: b,
            cheri_addr: a,
            cheri_size: sz,
            cheri_meta: m,
        } => t == tcb && v == vspace && p == page && va == vaddr && b == addr && a == addr && sz
            == size && symbol_cap_meta(m, map_perms),
        _ => false,
    }
}

/// The list went from `before` to `after` by seeding one symbol capability: for a
/// pure-capability image exactly one write as `is_symbol_cap_write` describes was
/// appended; for a hybrid image nothing was.
pub open spec fn symbol_cap_appended(
    before: Seq<Invocation>,
    after: Seq<Invocation>,
    purecap: bool,
    tcb: u64,
    vspace: u64,
    page: u64,
    vaddr: u64,
    addr: u64,
    size: u64,
    map_perms: u8,
) -> bool {
    if purecap {
        &&& after.len() == before.len() + 1
        &&& after.drop_last() == before
        &&& is_symbol_cap_write(after.last(), tcb, vspace, page, vaddr, addr, size, map_perms)
    } else {
        after == before
    }
}

fn cheri_riscv_write_sym_cap(
    system_invocations: &mut Vec<Invocation>,
    pd_elf_file: &ElfFile,
    tcb_cptr: u64,
    vspace_cptr: u64,
    page_cptr: u64,
    vaddr: u64,
    addr: u64,
    size: u64,
    map_perms: u8,
)
    ensures
        symbol_cap_appended(
            old(system_invocations)@,
            final(system_invocations)@,
            pd_elf_file.spec_is_purecap(),
            tcb_cptr,
            vspace_cptr,
            page_cptr,
            vaddr,
            addr,
            size,
            map_perms,
        ),
{
    let purecap = pd_elf_file.is_purecap();
    if purecap {
        let ghost before = system_invocations@;
        assert(meta_reserved(0u64) == 0u64 && !meta_sentry(0u64)) by (bit_vector);
        let mut meta = CheriRiscv64CapMeta::new();
        let cap_perms = cap_perms_from_map_perms(map_perms);

        meta.set_v(true);
        meta.set_m(false);
        meta.set_ap(cap_perms);

        system_invocations.push(
            Invocation::CheriWriteMemoryCap {
                tcb: tcb_cptr,
                vspace_root: vspace_cptr,
                page: page_cptr,
                vaddr,
                cheri_base: addr,
                cheri_addr: addr,
                cheri_size: size,
                cheri_meta: meta.raw(),
            },
        );
        assert(system_invocations@.drop_last() =~= before);
    }
}

/// Where a symbol capability is seeded: the symbol's address, and the capability of the
/// page that holds it (0 where none is listed), the page being the symbol's address
/// rounded down to a multiple of `size`.
pub open spec fn symbol_page_cptr(descs: Seq<PageDescriptor>, pd_idx: usize, sym_vaddr: u64, size: u64) -> u64 {
    page_cptr_for(descs, pd_idx, (sym_vaddr - sym_vaddr % size) as u64)
}

/// Seeds the symbol `sym` of a protection domain's image with the capability
/// `[addr, addr + size)` that carries the translation of `map_perms`. The symbol must
/// exist; only CHERI-RISC-V is supported; on any error nothing is appended.
pub fn cheri_arch_write_sym_cap(
    config: &Config,
    system_invocations: &mut Vec<Invocation>,
    pd_page_descriptors: &[PageDescriptor],
    pd_elf_file: &ElfFile,
    sym: &str,
    pd_idx: usize,
    tcb_cptr: u64,
    vspace_cptr: u64,
    addr: u64,
    size: u64,
    map_perms: u8,
) -> (r: Result<(), CheriError>)
    requires
        size > 0,
    ensures
        match symbol_lookup(pd_elf_file.symbols@, sym@) {
            None => {
                &&& r matches Err(CheriError::UnresolvedSymbol(name)) && name@ == sym@
                &&& final(system_invocations)@ == old(system_invocations)@
            },
            Some((sym_vaddr, _)) => if config.arch == Arch::Riscv64 {
                &&& r is Ok
                &&& symbol_cap_appended(
                    old(system_invocations)@,
                    final(system_invocations)@,
                    pd_elf_file.spec_is_purecap(),
                    tcb_cptr,
                    vspace_cptr,
                    symbol_page_cptr(pd_page_descriptors@, pd_idx, sym_vaddr, size),
                    sym_vaddr,
                    addr,
                    size,
                    map_perms,
                )
            } else {
                &&& r == Err::<(), CheriError>(CheriError::UnsupportedArch(config.arch))
                &&& final(system_invocations)@ == old(system_invocations)@
            },
        },
        config.arch != Arch::Riscv64 ==> r is Err && final(system_invocations)@ == old(
            system_invocations,
        )@,
{
    let sym_vaddr = match pd_elf_file.find_symbol(sym) {
        Some((value, _)) => value,
        None => {
            return Err(CheriError::UnresolvedSymbol(sym.to_owned()));
        },
    };
    let symbol_page = round_down(sym_vaddr, size);
    let page_cptr = find_page_cptr(pd_page_descriptors, pd_idx, symbol_page);

    match config.arch {
        Arch::Riscv64 => {
            cheri_riscv_write_sym_cap(
                system_invocations,
                pd_elf_file,
                tcb_cptr,
                vspace_cptr,
                page_cptr,
                sym_vaddr,
                addr,
                size,
                map_perms,
            );
            Ok(())
        },
        _ => Err(CheriError::UnsupportedArch(config.arch)),
    }
}

} // verus!
