use microkit_cheri::cheri::{cheri_arch_write_sym_cap, find_page_cptr, CheriError, PageDescriptor};
use microkit_cheri::elf::{ElfFile, ElfFlagsRiscv, ElfSymbol};
use microkit_cheri::permissions::SysMapPerms;
use microkit_cheri::sel4::{Arch, Config, Invocation};
use microkit_cheri::util::round_down;

fn image(flags: u64) -> ElfFile {
    ElfFile {
        flags,
        entry: 0x1000,
        code_segments: Vec::new(),
        data_segments: Vec::new(),
        symbols: vec![
            ElfSymbol { name: "other".to_string(), value: 0x9000, size: 8 },
            ElfSymbol { name: "shared_buf".to_string(), value: 0x4_2010, size: 16 },
            ElfSymbol { name: "shared_buf".to_string(), value: 0x7_7000, size: 16 },
        ],
    }
}

fn descriptors() -> Vec<PageDescriptor> {
    vec![
        (0x100, 1, 0x4_2000, 0, 0, 0, 0),
        (0x200, 0, 0x4_1000, 0, 0, 0, 0),
        (0x300, 0, 0x4_2000, 0, 0, 0, 0),
        (0x400, 0, 0x4_2000, 0, 0, 0, 0),
    ]
}

fn riscv() -> Config {
    Config { arch: Arch::Riscv64, stack_top: 0x80000 }
}

#[test]
fn purecap_symbol_gets_one_memory_write() {
    let mut invs = Vec::new();
    let r = cheri_arch_write_sym_cap(
        &riscv(),
        &mut invs,
        &descriptors(),
        &image(ElfFlagsRiscv::EF_RISCV_CAP_MODE),
        "shared_buf",
        0,
        7,
        8,
        0x5000_0000,
        0x1000,
        SysMapPerms::READ | SysMapPerms::WRITE,
    );
    assert_eq!(r, Ok(()));
    assert_eq!(
        invs,
        vec![Invocation::CheriWriteMemoryCap {
            tcb: 7,
            vspace_root: 8,
            page: 0x300,
            vaddr: 0x4_2010,
            cheri_base: 0x5000_0000,
            cheri_addr: 0x5000_0000,
            cheri_size: 0x1000,
            cheri_meta: 0x0004_0001_0000_0001,
        }]
    );
}

#[test]
fn purecap_symbol_carries_translated_perms() {
    let mut invs = Vec::new();
    let r = cheri_arch_write_sym_cap(
        &riscv(),
        &mut invs,
        &descriptors(),
        &image(ElfFlagsRiscv::EF_RISCV_CAP_MODE),
        "other",
        0,
        7,
        8,
        0x6000,
        0x1000,
        SysMapPerms::READ | SysMapPerms::CHERI,
    );
    assert_eq!(r, Ok(()));
    match invs[0] {
        Invocation::CheriWriteMemoryCap { page, vaddr, cheri_meta, .. } => {
            assert_eq!(page, 0);
            assert_eq!(vaddr, 0x9000);
            assert_eq!(cheri_meta, 0x0004_0020_0000_0001);
        }
        _ => panic!("expected a memory write"),
    }
}

#[test]
fn hybrid_symbol_gets_no_write() {
    let mut invs = Vec::new();
    let r = cheri_arch_write_sym_cap(
        &riscv(),
        &mut invs,
        &descriptors(),
        &image(0),
        "shared_buf",
        0,
        7,
        8,
        0x5000_0000,
        0x1000,
        SysMapPerms::READ,
    );
    assert_eq!(r, Ok(()));
    assert!(invs.is_empty());
}

#[test]
fn unresolved_symbol_fails_without_output() {
    let mut invs = Vec::new();
    let r = cheri_arch_write_sym_cap(
        &riscv(),
        &mut invs,
        &descriptors(),
        &image(ElfFlagsRiscv::EF_RISCV_CAP_MODE),
        "missing",
        0,
        7,
        8,
        0x5000_0000,
        0x1000,
        SysMapPerms::READ,
    );
    assert_eq!(r, Err(CheriError::UnresolvedSymbol("missing".to_string())));
    assert!(invs.is_empty());
}

#[test]
fn sym_cap_on_unsupported_arch_fails_without_output() {
    for arch in [Arch::Aarch64, Arch::X86_64] {
        let config = Config { arch, stack_top: 0x80000 };
        let mut invs = Vec::new();
        let r = cheri_arch_write_sym_cap(
            &config,
            &mut invs,
            &descriptors(),
            &image(ElfFlagsRiscv::EF_RISCV_CAP_MODE),
            "shared_buf",
            0,
            7,
            8,
            0x5000_0000,
            0x1000,
            SysMapPerms::READ,
        );
        assert_eq!(r, Err(CheriError::UnsupportedArch(arch)));
        assert!(invs.is_empty());
    }
}

#[test]
fn page_lookup_takes_first_match_of_domain_and_address() {
    let d = descriptors();
    assert_eq!(find_page_cptr(&d, 0, 0x4_2000), 0x300);
    assert_eq!(find_page_cptr(&d, 1, 0x4_2000), 0x100);
    assert_eq!(find_page_cptr(&d, 0, 0x4_1000), 0x200);
}

#[test]
fn page_lookup_without_match_gives_zero() {
    assert_eq!(find_page_cptr(&descriptors(), 2, 0x4_2000), 0);
    assert_eq!(find_page_cptr(&descriptors(), 1, 0x4_1000), 0);
    assert_eq!(find_page_cptr(&[], 0, 0), 0);
}

#[test]
fn find_symbol_returns_first_of_name() {
    let elf = image(0);
    assert_eq!(elf.find_symbol("shared_buf"), Some((0x4_2010, 16)));
    assert_eq!(elf.find_symbol("other"), Some((0x9000, 8)));
    assert_eq!(elf.find_symbol("shared"), None);
    assert_eq!(elf.find_symbol(""), None);
}

#[test]
fn round_down_to_multiples() {
    assert_eq!(round_down(0x4_2010, 0x1000), 0x4_2000);
    assert_eq!(round_down(0x4_2000, 0x1000), 0x4_2000);
    assert_eq!(round_down(7, 3), 6);
    assert_eq!(round_down(0, 5), 0);
    assert_eq!(round_down(u64::MAX, 1), u64::MAX);
}

#[test]
fn purecap_flag_is_read_from_header() {
    assert!(image(ElfFlagsRiscv::EF_RISCV_CAP_MODE | 0x5).is_purecap());
    assert!(!image(0x5).is_purecap());
}
