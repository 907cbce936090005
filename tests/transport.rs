use openhcl_boot::isolation::IsolationType;
use openhcl_boot::transport::{
    hypercall_msr_update, initialize, report_os_id, uninitialize, BootOp, MemoryRange,
    TransportError, HV_X64_MSR_GUEST_OS_ID, TWO_MB,
};

const PAGE: u64 = 0x4_0000_0000;

#[test]
fn initialize_without_input_page_enables_msr() {
    let ops = initialize(0x1234, None, IsolationType::Unisolated, 0x20_3000).unwrap();
    assert_eq!(
        ops,
        vec![
            BootOp::WriteMsr { msr: HV_X64_MSR_GUEST_OS_ID, value: 0x1234 },
            BootOp::UpdateHypercallMsr { enable: true, gpn: 0x203 },
        ]
    );
}

#[test]
fn uninitialize_without_input_page_disables_msr() {
    let ops = uninitialize(None, IsolationType::Vbs).unwrap();
    assert_eq!(
        ops,
        vec![
            BootOp::WriteMsr { msr: HV_X64_MSR_GUEST_OS_ID, value: 0 },
            BootOp::UpdateHypercallMsr { enable: false, gpn: 0 },
        ]
    );
}

#[test]
fn tdx_initialize_shares_input_page() {
    let ops = initialize(0x99, Some(PAGE), IsolationType::Tdx, 0x5000).unwrap();
    let range = MemoryRange::new(PAGE, PAGE + TWO_MB);
    assert_eq!(
        ops,
        vec![
            BootOp::TdcallWriteMsr { msr: HV_X64_MSR_GUEST_OS_ID, value: 0x99 },
            BootOp::MapWithSharedBit { address: PAGE, bit: 47 },
            BootOp::ChangePageVisibility { range, host_visible: true },
        ]
    );
}

#[test]
fn tdx_uninitialize_makes_page_private_again() {
    let ops = uninitialize(Some(PAGE), IsolationType::Tdx).unwrap();
    let range = MemoryRange { start: PAGE, end: PAGE + 0x20_0000 };
    assert_eq!(
        ops,
        vec![
            BootOp::TdcallWriteMsr { msr: HV_X64_MSR_GUEST_OS_ID, value: 0 },
            BootOp::MapWithPrivateBit { address: PAGE, bit: 47 },
            BootOp::ChangePageVisibility { range, host_visible: false },
            BootOp::AcceptPages { range },
            BootOp::FlushTlb,
        ]
    );
}

#[test]
fn tdx_misaligned_input_page_is_refused() {
    for page in [PAGE + 0x1000, 1, TWO_MB / 2] {
        assert_eq!(
            initialize(1, Some(page), IsolationType::Tdx, 0),
            Err(TransportError::MisalignedInputPage(page))
        );
        assert_eq!(
            uninitialize(Some(page), IsolationType::Tdx),
            Err(TransportError::MisalignedInputPage(page))
        );
    }
}

#[test]
fn snp_input_page_only_reports_identity() {
    let up = initialize(7, Some(PAGE + 0x1000), IsolationType::Snp, 0x3000).unwrap();
    assert_eq!(up, vec![BootOp::WriteMsr { msr: HV_X64_MSR_GUEST_OS_ID, value: 7 }]);
    let down = uninitialize(Some(PAGE + 0x1000), IsolationType::Snp).unwrap();
    assert_eq!(down, vec![BootOp::WriteMsr { msr: HV_X64_MSR_GUEST_OS_ID, value: 0 }]);
}

#[test]
fn report_os_id_route() {
    assert_eq!(
        report_os_id(5, IsolationType::Tdx),
        BootOp::TdcallWriteMsr { msr: 0x4000_0000, value: 5 }
    );
    assert_eq!(
        report_os_id(5, IsolationType::Snp),
        BootOp::WriteMsr { msr: 0x4000_0000, value: 5 }
    );
}

#[test]
fn hypercall_msr_enable_twice_is_refused() {
    assert_eq!(hypercall_msr_update(0x203001, true, 0x203), Err(TransportError::AlreadyEnabled));
    assert_eq!(hypercall_msr_update(1, true, 0), Err(TransportError::AlreadyEnabled));
}

#[test]
fn hypercall_msr_values() {
    assert_eq!(hypercall_msr_update(0, true, 0x203), Ok(0x203001));
    // The lock bit and reserved bits are kept, the old page number is replaced.
    assert_eq!(hypercall_msr_update(0x7_7ffe, true, 0x1), Ok(0x1fff));
    assert_eq!(hypercall_msr_update(0x203001, false, 0), Ok(0));
    assert_eq!(hypercall_msr_update(0x203003, false, 0), Ok(2));
}

#[test]
fn initialize_then_uninitialize_round_trip() {
    // Simulated registers: guest OS id and hypercall register.
    let mut guest_os_id: u64 = 0;
    let mut hypercall: u64 = 0x2;
    let before = (guest_os_id, hypercall);
    let mut run = |ops: Vec<BootOp>| {
        for op in ops {
            match op {
                BootOp::WriteMsr { value, .. } => guest_os_id = value,
                BootOp::UpdateHypercallMsr { enable, gpn } => {
                    hypercall = hypercall_msr_update(hypercall, enable, gpn).unwrap()
                }
                other => panic!("unexpected {:?}", other),
            }
        }
    };
    run(initialize(0x1234, None, IsolationType::Unisolated, 0x7000).unwrap());
    run(uninitialize(None, IsolationType::Unisolated).unwrap());
    assert_eq!((guest_os_id, hypercall), before);
}

#[test]
fn tdx_paths_leave_hypercall_register_alone() {
    // In a trust domain hypercalls go through the host, so neither direction
    // touches the hypercall register, and making the page visible is not
    // followed by any check of its own.
    let up = initialize(1, Some(PAGE), IsolationType::Tdx, 0x5000).unwrap();
    let down = uninitialize(Some(PAGE), IsolationType::Tdx).unwrap();
    for op in up.iter().chain(down.iter()) {
        assert!(!matches!(op, BootOp::UpdateHypercallMsr { .. }));
    }
}
