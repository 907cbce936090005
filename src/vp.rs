//! Bring-up of the VTL2 virtual processors.
use vstd::prelude::*;
use crate::isolation::IsolationType;

verus! {

/// What this layer reads of the partition: the number of logical CPUs.
#[derive(Clone, Copy, Debug, PartialEq, Eq, Structural)]
pub struct PartitionInfo {
    pub cpu_count: u32,
}

/// A hypercall of processor bring-up, for the processor with the given index.
#[derive(Clone, Copy, Debug, PartialEq, Eq, Structural)]
pub enum VpHypercall {
    /// Enable VTL2 on the processor.
    EnableVpVtl { vp_index: u32 },
    /// Start the processor.
    StartVp { vp_index: u32 },
}

/// The number of processors besides the boot processor (index 0).
pub open spec fn secondary_count(cpu_count: u32) -> nat {
    if cpu_count == 0 { 0 } else { (cpu_count - 1) as nat }
}

/// Enable VTL2 on processors 1 to `cpu_count - 1`, in order.
pub open spec fn enable_calls(cpu_count: u32) -> Seq<VpHypercall> {
    Seq::new(secondary_count(cpu_count), |i: int| VpHypercall::EnableVpVtl { vp_index: (i + 1) as u32 })
}

/// Start processors 1 to `cpu_count - 1`, in order.
pub open spec fn start_calls(cpu_count: u32) -> Seq<VpHypercall> {
    Seq::new(secondary_count(cpu_count), |i: int| VpHypercall::StartVp { vp_index: (i + 1) as u32 })
}

/// The hypercalls of bring-up: none unless the guest is a TDX trust domain;
/// there every secondary processor is enabled before any is started.
pub open spec fn bring_up_calls(isolation_type: IsolationType, cpu_count: u32) -> Seq<VpHypercall> {
    if isolation_type == IsolationType::Tdx {
        enable_calls(cpu_count) + start_calls(cpu_count)
    } else {
        Seq::empty()
    }
}

/// The hypercalls that set up the application processors, in the order they
/// are to be issued; the caller stops the boot at the first that fails.
///
/// In a TDX trust domain the processors are put in VTL2 and started here by
/// hypercalls through the host; elsewhere there is nothing to do.
pub fn setup_vtl2_vp(isolation_type: IsolationType, partition_info: &PartitionInfo) -> (r: Vec<VpHypercall>)
    ensures
        r@ == bring_up_calls(isolation_type, partition_info.cpu_count),
{
    let mut calls: Vec<VpHypercall> = Vec::new();
    if isolation_type == IsolationType::Tdx {
        let n = partition_info.cpu_count;
        let mut cpu: u32 = 1;
        while cpu < n
            invariant
                1 <= cpu,
                n == partition_info.cpu_count,
                cpu <= n || cpu == 1,
                calls@ =~= enable_calls(n).take((cpu - 1) as int),
            decreases n - cpu,
        {
            calls.push(VpHypercall::EnableVpVtl { vp_index: cpu });
            cpu = cpu + 1;
        }
        assert((cpu - 1) as int == enable_calls(n).len());
        assert(enable_calls(n).take((cpu - 1) as int) =~= enable_calls(n));
        let mut cpu: u32 = 1;
        while cpu < n
            invariant
                1 <= cpu,
                n == partition_info.cpu_count,
                cpu <= n || cpu == 1,
                calls@ =~= enable_calls(n) + start_calls(n).take((cpu - 1) as int),
            decreases n - cpu,
        {
            calls.push(VpHypercall::StartVp { vp_index: cpu });
            cpu = cpu + 1;
        }
        assert((cpu - 1) as int == start_calls(n).len());
        assert(start_calls(n).take((cpu - 1) as int) =~= start_calls(n));
    }
    calls
}

/// In a TDX trust domain with `cpu_count` processors, bring-up issues one
/// VTL2 enable for each of processors 1 to `cpu_count - 1`, in order, all
/// before any start, and then one start for each of them, in order.
/// Elsewhere it issues no hypercall.
pub proof fn lemma_bring_up_order(isolation_type: IsolationType, cpu_count: u32)
    ensures
        ({
            let calls = bring_up_calls(isolation_type, cpu_count);
            let n = secondary_count(cpu_count) as int;
            &&& isolation_type != IsolationType::Tdx ==> calls.len() == 0
            &&& isolation_type == IsolationType::Tdx ==> {
                &&& calls.len() == 2 * n
                &&& forall|i: int| 0 <= i < n ==> #[trigger] calls[i] == (VpHypercall::EnableVpVtl { vp_index: (i + 1) as u32 })
                &&& forall|i: int| 0 <= i < n ==> #[trigger] calls[n + i] == (VpHypercall::StartVp { vp_index: (i + 1) as u32 })
                &&& forall|i: int, j: int| 0 <= i < j < calls.len() && (#[trigger] calls[j] is EnableVpVtl)
                    ==> (#[trigger] calls[i] is EnableVpVtl)
            }
        }),
{
    if isolation_type == IsolationType::Tdx {
        let calls = bring_up_calls(isolation_type, cpu_count);
        let n = secondary_count(cpu_count) as int;
        assert forall|i: int| 0 <= i < n implies #[trigger] calls[n + i] == (VpHypercall::StartVp { vp_index: (i + 1) as u32 }) by {
            assert(calls[n + i] == start_calls(cpu_count)[i]);
        }
        assert forall|i: int, j: int| 0 <= i < j < calls.len() && (#[trigger] calls[j] is EnableVpVtl)
            implies (#[trigger] calls[i] is EnableVpVtl) by {
            if j >= n {
                assert(calls[j] == start_calls(cpu_count)[j - n]);
            }
        }
    }
}

} // verus!
