use openhcl_boot::isolation::IsolationType;
use openhcl_boot::vp::{setup_vtl2_vp, PartitionInfo, VpHypercall};

use VpHypercall::{EnableVpVtl, StartVp};

#[test]
fn four_cpus_on_tdx() {
    let calls = setup_vtl2_vp(IsolationType::Tdx, &PartitionInfo { cpu_count: 4 });
    assert_eq!(
        calls,
        vec![
            EnableVpVtl { vp_index: 1 },
            EnableVpVtl { vp_index: 2 },
            EnableVpVtl { vp_index: 3 },
            StartVp { vp_index: 1 },
            StartVp { vp_index: 2 },
            StartVp { vp_index: 3 },
        ]
    );
}

#[test]
fn failed_enable_stops_before_any_start() {
    let calls = setup_vtl2_vp(IsolationType::Tdx, &PartitionInfo { cpu_count: 4 });
    let mut issued = Vec::new();
    for call in calls {
        issued.push(call);
        if call == (EnableVpVtl { vp_index: 2 }) {
            break;
        }
    }
    assert_eq!(issued, vec![EnableVpVtl { vp_index: 1 }, EnableVpVtl { vp_index: 2 }]);
    assert!(!issued.iter().any(|c| matches!(c, StartVp { .. })));
}

#[test]
fn other_isolation_issues_nothing() {
    for isolation in [IsolationType::Unisolated, IsolationType::Vbs, IsolationType::Snp] {
        assert!(setup_vtl2_vp(isolation, &PartitionInfo { cpu_count: 8 }).is_empty());
    }
}

#[test]
fn single_or_no_cpu_issues_nothing() {
    assert!(setup_vtl2_vp(IsolationType::Tdx, &PartitionInfo { cpu_count: 1 }).is_empty());
    assert!(setup_vtl2_vp(IsolationType::Tdx, &PartitionInfo { cpu_count: 0 }).is_empty());
}

#[test]
fn counts_match_cpus() {
    let calls = setup_vtl2_vp(IsolationType::Tdx, &PartitionInfo { cpu_count: 64 });
    let enables = calls.iter().filter(|c| matches!(c, EnableVpVtl { .. })).count();
    let starts = calls.iter().filter(|c| matches!(c, StartVp { .. })).count();
    assert_eq!((enables, starts), (63, 63));
    let first_start = calls.iter().position(|c| matches!(c, StartVp { .. })).unwrap();
    assert_eq!(first_start, 63);
}
