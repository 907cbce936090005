use openhcl_boot::isolation::{
    get_isolation_type, partition_privileges, isolation_privilege, CpuidResult, IsolationType,
    SupportedIsolationType, SUPPORTED_SNP, SUPPORTED_TDX, SUPPORTED_VBS,
};

fn features(eax: u32, ebx: u32) -> CpuidResult {
    CpuidResult { eax, ebx, ecx: 0, edx: 0 }
}

#[test]
fn vbs_with_isolation_privilege_is_vbs() {
    let supported = SupportedIsolationType(SUPPORTED_VBS);
    assert_eq!(get_isolation_type(supported, features(0, 1 << 22)), IsolationType::Vbs);
    assert_eq!(get_isolation_type(supported, features(0xffff_ffff, 0xffff_ffff)), IsolationType::Vbs);
}

#[test]
fn vbs_without_isolation_privilege_is_unisolated() {
    let supported = SupportedIsolationType(SUPPORTED_VBS);
    assert_eq!(get_isolation_type(supported, features(0, 0)), IsolationType::Unisolated);
    assert_eq!(
        get_isolation_type(supported, features(0xffff_ffff, !(1u32 << 22))),
        IsolationType::Unisolated
    );
}

#[test]
fn snp_and_tdx_ignore_cpuid() {
    for (eax, ebx) in [(0, 0), (0, 1 << 22), (0xffff_ffff, 0xffff_ffff)] {
        assert_eq!(
            get_isolation_type(SupportedIsolationType(SUPPORTED_SNP), features(eax, ebx)),
            IsolationType::Snp
        );
        assert_eq!(
            get_isolation_type(SupportedIsolationType(SUPPORTED_TDX), features(eax, ebx)),
            IsolationType::Tdx
        );
    }
}

#[test]
fn recognized_supported_values() {
    assert!(SupportedIsolationType(SUPPORTED_VBS).recognized());
    assert!(SupportedIsolationType(SUPPORTED_SNP).recognized());
    assert!(SupportedIsolationType(SUPPORTED_TDX).recognized());
    assert!(!SupportedIsolationType(0).recognized());
    assert!(!SupportedIsolationType(4).recognized());
    assert!(SupportedIsolationType(SUPPORTED_VBS).needs_privilege_query());
    assert!(!SupportedIsolationType(SUPPORTED_TDX).needs_privilege_query());
}

#[test]
fn privilege_mask_joins_halves() {
    assert_eq!(partition_privileges(&features(0x1234_5678, 0x9abc_def0)), 0x9abc_def0_1234_5678);
    assert!(isolation_privilege(1u64 << 54));
    assert!(!isolation_privilege(!(1u64 << 54)));
}
