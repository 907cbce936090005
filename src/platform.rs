//! The meaning of the boot operations, as changes to a model of the
//! processor state they touch, and what bringing the transport up and down
//! does to that state.
use vstd::prelude::*;
use crate::isolation::IsolationType;
use crate::transport::{
    BootOp, MemoryRange, HV_X64_MSR_GUEST_OS_ID, HV_X64_MSR_HYPERCALL, HV_PAGE_SIZE,
    hypercall_msr_value, hypercall_enabled, hypercall_gpn,
    initialize_ops, uninitialize_ops, input_page_fits, input_page_range, misaligned_tdx_page,
};

verus! {

/// The processor state the transport touches.
pub struct PlatformModel {
    /// Model-specific registers, by index.
    pub msrs: Map<u32, u64>,
    /// Large pages mapped through their shared alias.
    pub shared_mapped: Set<u64>,
    /// Ranges the host may see.
    pub host_visible: Set<MemoryRange>,
    /// Ranges accepted anew, in order.
    pub accepted: Seq<MemoryRange>,
    /// Number of translation-cache flushes.
    pub tlb_flushes: nat,
}

/// The state after one operation succeeded.
pub open spec fn apply_op(m: PlatformModel, op: BootOp) -> PlatformModel {
    match op {
        BootOp::WriteMsr { msr, value } => PlatformModel { msrs: m.msrs.insert(msr, value), ..m },
        BootOp::TdcallWriteMsr { msr, value } => PlatformModel { msrs: m.msrs.insert(msr, value), ..m },
        BootOp::UpdateHypercallMsr { enable, gpn } => PlatformModel {
            msrs: m.msrs.insert(
                HV_X64_MSR_HYPERCALL,
                hypercall_msr_value(m.msrs[HV_X64_MSR_HYPERCALL], enable, gpn),
            ),
            ..m
        },
        BootOp::MapWithSharedBit { address, bit } => PlatformModel {
            shared_mapped: m.shared_mapped.insert(address),
            ..m
        },
        BootOp::MapWithPrivateBit { address, bit } => PlatformModel {
            shared_mapped: m.shared_mapped.remove(address),
            ..m
        },
        BootOp::ChangePageVisibility { range, host_visible } => PlatformModel {
            host_visible: if host_visible {
                m.host_visible.insert(range)
            } else {
                m.host_visible.remove(range)
            },
            ..m
        },
        BootOp::AcceptPages { range } => PlatformModel { accepted: m.accepted.push(range), ..m },
        BootOp::FlushTlb => PlatformModel { tlb_flushes: m.tlb_flushes + 1, ..m },
    }
}

/// Whether performing `op` in state `m` is refused: enabling a hypercall
/// register that is already enabled (see `hypercall_msr_update`).
pub open spec fn op_refused(m: PlatformModel, op: BootOp) -> bool {
    match op {
        BootOp::UpdateHypercallMsr { enable, gpn } => enable && hypercall_enabled(m.msrs[HV_X64_MSR_HYPERCALL]),
        _ => false,
    }
}

/// The state after a sequence of operations succeeded, in order.
pub open spec fn apply_ops(m: PlatformModel, ops: Seq<BootOp>) -> PlatformModel
    decreases ops.len(),
{
    if ops.len() == 0 {
        m
    } else {
        apply_op(apply_ops(m, ops.drop_last()), ops.last())
    }
}

/// Each prefix of a sequence is the prefix one shorter, then one operation.
pub proof fn lemma_apply_ops_steps(m: PlatformModel, ops: Seq<BootOp>)
    ensures
        forall|k: int|
            0 < k <= ops.len() ==> #[trigger] apply_ops(m, ops.take(k)) == apply_op(
                apply_ops(m, ops.take(k - 1)),
                ops[k - 1],
            ),
{
    assert forall|k: int| 0 < k <= ops.len() implies #[trigger] apply_ops(m, ops.take(k)) == apply_op(
        apply_ops(m, ops.take(k - 1)),
        ops[k - 1],
    ) by {
        assert(ops.take(k).drop_last() =~= ops.take(k - 1));
    }
}

/// The state once the transport is up.
pub open spec fn initialized(
    m: PlatformModel,
    guest_os_id: u64,
    input_page: Option<u64>,
    isolation: IsolationType,
    hypercall_page_address: u64,
) -> PlatformModel {
    apply_ops(m, initialize_ops(guest_os_id, input_page, isolation, hypercall_page_address))
}

/// Bringing the transport up reports the guest identity and enables it:
/// without an input page the hypercall register is enabled and points at the
/// hypercall page; in a TDX trust domain the input page is mapped shared and
/// visible to the host.
pub proof fn lemma_initialize_enables(
    m: PlatformModel,
    guest_os_id: u64,
    input_page: Option<u64>,
    isolation: IsolationType,
    hypercall_page_address: u64,
)
    requires
        input_page_fits(input_page, isolation),
    ensures
        ({
            let up = initialized(m, guest_os_id, input_page, isolation, hypercall_page_address);
            &&& up.msrs[HV_X64_MSR_GUEST_OS_ID] == guest_os_id
            &&& input_page is None ==> hypercall_enabled(up.msrs[HV_X64_MSR_HYPERCALL])
                && hypercall_gpn(up.msrs[HV_X64_MSR_HYPERCALL]) == hypercall_page_address / HV_PAGE_SIZE
            &&& isolation == IsolationType::Tdx && input_page is Some ==> up.shared_mapped.contains(input_page->Some_0)
                && up.host_visible.contains(input_page_range(input_page->Some_0))
        }),
{
    let ops = initialize_ops(guest_os_id, input_page, isolation, hypercall_page_address);
    lemma_apply_ops_steps(m, ops);
    assert(apply_ops(m, ops.take(1)) == apply_op(apply_ops(m, ops.take(0)), ops[0]));
    assert(ops.take(0) =~= Seq::<BootOp>::empty());
    if ops.len() >= 2 {
        assert(apply_ops(m, ops.take(2)) == apply_op(apply_ops(m, ops.take(1)), ops[1]));
    }
    if ops.len() >= 3 {
        assert(apply_ops(m, ops.take(3)) == apply_op(apply_ops(m, ops.take(2)), ops[2]));
    }
    assert(ops.take(ops.len() as int) =~= ops);
    if input_page is None {
        let g = hypercall_page_address / HV_PAGE_SIZE;
        let v = m.msrs[HV_X64_MSR_HYPERCALL];
        assert(g < 0x10_0000_0000_0000u64);
        assert((((v & 0xffeu64) | 1u64 | (g << 12u64)) & 1u64 == 1u64)
            && (((v & 0xffeu64) | 1u64 | (g << 12u64)) >> 12u64 == g)) by (bit_vector)
            requires
                g < 0x10_0000_0000_0000u64,
        ;
    }
}

/// Bringing the transport up without an input page while the hypercall
/// register already shows it enabled is refused: after the identity report,
/// which leaves that register alone, the enabling operation is refused.
pub proof fn lemma_initialize_refuses_enabled_transport(
    m: PlatformModel,
    guest_os_id: u64,
    isolation: IsolationType,
    hypercall_page_address: u64,
)
    requires
        hypercall_enabled(m.msrs[HV_X64_MSR_HYPERCALL]),
    ensures
        ({
            let ops = initialize_ops(guest_os_id, None, isolation, hypercall_page_address);
            &&& ops.len() == 2
            &&& !op_refused(m, ops[0])
            &&& op_refused(apply_ops(m, ops.take(1)), ops[1])
        }),
{
    let ops = initialize_ops(guest_os_id, None, isolation, hypercall_page_address);
    lemma_apply_ops_steps(m, ops);
    assert(ops.take(0) =~= Seq::<BootOp>::empty());
    assert(apply_ops(m, ops.take(1)) == apply_op(apply_ops(m, ops.take(0)), ops[0]));
}

/// Bringing the transport up and then down with the same parameters leaves
/// every register and page attribute it touched as it was before: the guest
/// identity is cleared, the hypercall register is disabled and points at no
/// page, and a TDX input page is private and hidden from the host again, after
/// being accepted anew and with the translation cache flushed once.
pub proof fn lemma_initialize_uninitialize_restores(
    m: PlatformModel,
    guest_os_id: u64,
    input_page: Option<u64>,
    isolation: IsolationType,
    hypercall_page_address: u64,
)
    requires
        input_page_fits(input_page, isolation),
        !misaligned_tdx_page(input_page, isolation),
        m.msrs[HV_X64_MSR_GUEST_OS_ID] == 0,
        input_page is None ==> !hypercall_enabled(m.msrs[HV_X64_MSR_HYPERCALL])
            && hypercall_gpn(m.msrs[HV_X64_MSR_HYPERCALL]) == 0,
        isolation == IsolationType::Tdx && input_page is Some ==> !m.shared_mapped.contains(input_page->Some_0)
            && !m.host_visible.contains(input_page_range(input_page->Some_0)),
        m.msrs.contains_key(HV_X64_MSR_GUEST_OS_ID),
        input_page is None ==> m.msrs.contains_key(HV_X64_MSR_HYPERCALL),
    ensures
        ({
            let up = initialized(m, guest_os_id, input_page, isolation, hypercall_page_address);
            let down = apply_ops(up, uninitialize_ops(input_page, isolation));
            &&& down.msrs == m.msrs
            &&& down.shared_mapped == m.shared_mapped
            &&& down.host_visible == m.host_visible
            &&& isolation == IsolationType::Tdx && input_page is Some ==> down.accepted == m.accepted.push(
                input_page_range(input_page->Some_0),
            ) && down.tlb_flushes == m.tlb_flushes + 1
            &&& !(isolation == IsolationType::Tdx && input_page is Some) ==> down.accepted == m.accepted
                && down.tlb_flushes == m.tlb_flushes
        }),
{
    let init = initialize_ops(guest_os_id, input_page, isolation, hypercall_page_address);
    let up = initialized(m, guest_os_id, input_page, isolation, hypercall_page_address);
    lemma_apply_ops_steps(m, init);
    assert(init.take(0) =~= Seq::<BootOp>::empty());
    assert(apply_ops(m, init.take(1)) == apply_op(apply_ops(m, init.take(0)), init[0]));
    if init.len() >= 2 {
        assert(apply_ops(m, init.take(2)) == apply_op(apply_ops(m, init.take(1)), init[1]));
    }
    if init.len() >= 3 {
        assert(apply_ops(m, init.take(3)) == apply_op(apply_ops(m, init.take(2)), init[2]));
    }
    assert(init.take(init.len() as int) =~= init);

    let fini = uninitialize_ops(input_page, isolation);
    lemma_apply_ops_steps(up, fini);
    assert(fini.take(0) =~= Seq::<BootOp>::empty());
    assert(apply_ops(up, fini.take(1)) == apply_op(apply_ops(up, fini.take(0)), fini[0]));
    if fini.len() >= 2 {
        assert(apply_ops(up, fini.take(2)) == apply_op(apply_ops(up, fini.take(1)), fini[1]));
    }
    if fini.len() >= 3 {
        assert(apply_ops(up, fini.take(3)) == apply_op(apply_ops(up, fini.take(2)), fini[2]));
    }
    if fini.len() >= 4 {
        assert(apply_ops(up, fini.take(4)) == apply_op(apply_ops(up, fini.take(3)), fini[3]));
    }
    if fini.len() >= 5 {
        assert(apply_ops(up, fini.take(5)) == apply_op(apply_ops(up, fini.take(4)), fini[4]));
    }
    assert(fini.take(fini.len() as int) =~= fini);
    let down = apply_ops(up, fini);

    if input_page is None {
        let g = hypercall_page_address / HV_PAGE_SIZE;
        let v = m.msrs[HV_X64_MSR_HYPERCALL];
        assert(g < 0x10_0000_0000_0000u64);
        assert(((((v & 0xffeu64) | 1u64 | (g << 12u64)) & 0xffeu64) | 0u64 | (0u64 << 12u64)) == v) by (bit_vector)
            requires
                v & 1u64 != 1u64,
                v >> 12u64 == 0u64,
                g < 0x10_0000_0000_0000u64,
        ;
        assert(down.msrs =~= m.msrs);
    } else {
        assert(down.msrs =~= m.msrs);
        if isolation == IsolationType::Tdx {
            assert(down.shared_mapped =~= m.shared_mapped);
            assert(down.host_visible =~= m.host_visible);
        }
    }
}

} // verus!
