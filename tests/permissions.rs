use microkit_cheri::permissions::{cap_perms_from_map_perms, CheriRiscv64CapPermissions, SysMapPerms};

#[test]
fn permission_constants_match_the_kernel() {
    assert_eq!(CheriRiscv64CapPermissions::PERMIT_STORE, 1);
    assert_eq!(CheriRiscv64CapPermissions::CAPABILITY, 0x20);
    assert_eq!(CheriRiscv64CapPermissions::USER_03, 0x200);
    assert_eq!(CheriRiscv64CapPermissions::ACCESS_SYSTEM_REGISTERS, 0x1_0000);
    assert_eq!(CheriRiscv64CapPermissions::PERMIT_EXECUTE, 0x2_0000);
    assert_eq!(CheriRiscv64CapPermissions::PERMIT_LOAD, 0x4_0000);
}

#[test]
fn each_map_perm_translates_to_one_cap_perm() {
    assert_eq!(cap_perms_from_map_perms(SysMapPerms::READ), CheriRiscv64CapPermissions::PERMIT_LOAD);
    assert_eq!(cap_perms_from_map_perms(SysMapPerms::WRITE), CheriRiscv64CapPermissions::PERMIT_STORE);
    assert_eq!(
        cap_perms_from_map_perms(SysMapPerms::EXECUTE),
        CheriRiscv64CapPermissions::PERMIT_EXECUTE
    );
    assert_eq!(cap_perms_from_map_perms(SysMapPerms::CHERI), CheriRiscv64CapPermissions::CAPABILITY);
}

#[test]
fn no_map_perms_gives_no_cap_perms() {
    assert_eq!(cap_perms_from_map_perms(0), 0);
    assert_eq!(cap_perms_from_map_perms(0xF0), 0);
}

#[test]
fn all_map_perm_combinations_translate_bit_by_bit() {
    for m in 0u8..16 {
        let p = cap_perms_from_map_perms(m);
        assert_eq!(p & CheriRiscv64CapPermissions::PERMIT_LOAD != 0, m & SysMapPerms::READ != 0);
        assert_eq!(p & CheriRiscv64CapPermissions::PERMIT_STORE != 0, m & SysMapPerms::WRITE != 0);
        assert_eq!(p & CheriRiscv64CapPermissions::PERMIT_EXECUTE != 0, m & SysMapPerms::EXECUTE != 0);
        assert_eq!(p & CheriRiscv64CapPermissions::CAPABILITY != 0, m & SysMapPerms::CHERI != 0);
        assert_eq!(p.count_ones(), m.count_ones());
    }
    assert_eq!(cap_perms_from_map_perms(0xF), 0x6_0021);
}
