use microkit_cheri::cheri::{cheri_arch_tcb_init_reg_context, CheriError};
use microkit_cheri::elf::{ElfFile, ElfFlagsRiscv, ElfSegment};
use microkit_cheri::sel4::{Arch, Config, Invocation};

const TCB: u64 = 0x11;
const VSPACE: u64 = 0x22;

fn segment(virt_addr: u64, len: usize) -> ElfSegment {
    ElfSegment { virt_addr, data: vec![0u8; len] }
}

fn image(flags: u64, code: Vec<ElfSegment>, data: Vec<ElfSegment>) -> ElfFile {
    ElfFile { flags, entry: 0x1040, code_segments: code, data_segments: data, symbols: Vec::new() }
}

fn purecap_image() -> ElfFile {
    image(ElfFlagsRiscv::EF_RISCV_CAP_MODE, vec![segment(0x1000, 0x200)], vec![segment(0x2000, 0x100)])
}

fn riscv() -> Config {
    Config { arch: Arch::Riscv64, stack_top: 0x80000 }
}

fn reg(reg_idx: u64, cheri_base: u64, cheri_addr: u64, cheri_size: u64, cheri_meta: u64) -> Invocation {
    Invocation::CheriWriteRegister { tcb: TCB, vspace_root: VSPACE, reg_idx, cheri_base, cheri_addr, cheri_size, cheri_meta }
}

#[test]
fn purecap_emits_five_registers_in_order() {
    let mut invs = Vec::new();
    let r = cheri_arch_tcb_init_reg_context(&riscv(), &mut invs, TCB, VSPACE, 0x1000, &purecap_image());
    assert_eq!(r, Ok(()));
    assert_eq!(
        invs,
        vec![
            reg(35, 0, 0, 0, 0),
            reg(0, 0x1000, 0x1040, 0x1100, 0xFFFE_FFFE_0000_0005),
            reg(2, 0x7F000, 0x80000, 0x1000, 0xFFFD_FFFF_0000_0001),
            reg(16, 0x1000, 0x1000, 0x200, 0xFFFE_FFFE_0000_0001),
            reg(17, 0x2000, 0x2000, 0x100, 0xFFFD_FFFF_0000_0001),
        ]
    );
}

#[test]
fn purecap_appends_after_existing_invocations() {
    let mut invs = vec![reg(1, 2, 3, 4, 5)];
    let r = cheri_arch_tcb_init_reg_context(&riscv(), &mut invs, TCB, VSPACE, 0x1000, &purecap_image());
    assert_eq!(r, Ok(()));
    assert_eq!(invs.len(), 6);
    assert_eq!(invs[0], reg(1, 2, 3, 4, 5));
    assert_eq!(invs[1], reg(35, 0, 0, 0, 0));
}

#[test]
fn purecap_with_two_code_segments_fails_without_output() {
    let elf = image(
        ElfFlagsRiscv::EF_RISCV_CAP_MODE,
        vec![segment(0x1000, 0x200), segment(0x3000, 0x10)],
        vec![segment(0x2000, 0x100)],
    );
    let mut invs = Vec::new();
    let r = cheri_arch_tcb_init_reg_context(&riscv(), &mut invs, TCB, VSPACE, 0x1000, &elf);
    assert_eq!(r, Err(CheriError::MalformedImage));
    assert!(invs.is_empty());
}

#[test]
fn purecap_without_data_segment_fails_without_output() {
    let elf = image(ElfFlagsRiscv::EF_RISCV_CAP_MODE, vec![segment(0x1000, 0x200)], Vec::new());
    let mut invs = vec![reg(1, 2, 3, 4, 5)];
    let r = cheri_arch_tcb_init_reg_context(&riscv(), &mut invs, TCB, VSPACE, 0x1000, &elf);
    assert_eq!(r, Err(CheriError::MalformedImage));
    assert_eq!(invs, vec![reg(1, 2, 3, 4, 5)]);
}

#[test]
fn hybrid_emits_two_almighty_registers() {
    let elf = image(0, vec![segment(0x1000, 0x200), segment(0x3000, 0x10)], Vec::new());
    let mut invs = Vec::new();
    let r = cheri_arch_tcb_init_reg_context(&riscv(), &mut invs, TCB, VSPACE, 0x1000, &elf);
    assert_eq!(r, Ok(()));
    assert_eq!(
        invs,
        vec![
            reg(0, 0, 0x1040, u64::MAX, 0xFFFF_FFFF_0000_0007),
            reg(35, 0, 0, u64::MAX, 0xFFFF_FFFF_0000_0003),
        ]
    );
}

#[test]
fn reg_context_on_unsupported_arch_fails_without_output() {
    for arch in [Arch::Aarch64, Arch::X86_64] {
        let config = Config { arch, stack_top: 0x80000 };
        for elf in [purecap_image(), image(0, Vec::new(), Vec::new())] {
            let mut invs = Vec::new();
            let r = cheri_arch_tcb_init_reg_context(&config, &mut invs, TCB, VSPACE, 0x1000, &elf);
            assert_eq!(r, Err(CheriError::UnsupportedArch(arch)));
            assert!(invs.is_empty());
        }
    }
}
