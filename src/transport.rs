//! The hypercall transport lifecycle.
//!
//! [`initialize`] brings the transport up and [`uninitialize`] takes it down.
//! Each returns the ordered operations on processor state that do so; the
//! caller performs them in that order and stops the boot at the first one
//! that fails. [`PlatformModel`] gives each operation its meaning, so that
//! what a sequence of them leaves behind can be stated and proved.
use vstd::prelude::*;
use crate::isolation::IsolationType;

verus! {

/// The register that tells the hypervisor which guest OS runs.
pub const HV_X64_MSR_GUEST_OS_ID: u32 = 0x4000_0000;

/// The register that enables the hypercall page and says where it is.
pub const HV_X64_MSR_HYPERCALL: u32 = 0x4000_0001;

/// The hypervisor's page size.
pub const HV_PAGE_SIZE: u64 = 4096;

/// Size and alignment of the TDX hypercall input page.
pub const TWO_MB: u64 = 0x20_0000;

/// The address bit that selects the shared alias of a TDX guest page.
pub const TDX_SHARED_GPA_BOUNDARY_ADDRESS_BIT: u8 = 47;

/// Mask of the hypercall register's bits that are neither the enable bit nor
/// the page number: the lock bit and the reserved bits.
pub const HYPERCALL_MSR_KEPT_BITS: u64 = 0xffe;

/// The largest page number the hypercall register can hold, plus one.
pub const HYPERCALL_GPN_LIMIT: u64 = 0x10_0000_0000_0000;

/// A half-open range of guest-physical addresses.
#[derive(Clone, Copy, Debug, PartialEq, Eq, Structural)]
pub struct MemoryRange {
    pub start: u64,
    pub end: u64,
}

impl MemoryRange {
    /// The range `[start, end)`.
    pub fn new(start: u64, end: u64) -> (r: MemoryRange)
        requires
            start <= end,
        ensures
            r == (MemoryRange { start, end }),
    {
        MemoryRange { start, end }
    }
}

/// One operation on processor state, in the order the caller performs them.
#[derive(Clone, Copy, Debug, PartialEq, Eq, Structural)]
pub enum BootOp {
    /// Write a model-specific register directly.
    WriteMsr { msr: u32, value: u64 },
    /// Write a model-specific register through the host, by the record
    /// `tdcall_wrmsr_input(msr, value)`; a failure ends the boot.
    TdcallWriteMsr { msr: u32, value: u64 },
    /// Read the hypercall register, compute its new value with
    /// [`hypercall_msr_update`] (which refuses to enable it twice), and write
    /// that value back.
    UpdateHypercallMsr { enable: bool, gpn: u64 },
    /// Map the large page at `address` through its shared alias.
    MapWithSharedBit { address: u64, bit: u8 },
    /// Map the large page at `address` through its private alias.
    MapWithPrivateBit { address: u64, bit: u8 },
    /// Tell the monitor whether the host may see `range`.
    ChangePageVisibility { range: MemoryRange, host_visible: bool },
    /// Accept `range` again after it became private; a failure ends the boot.
    AcceptPages { range: MemoryRange },
    /// Flush the translation cache by reloading the page-table base.
    FlushTlb,
}

/// Why the transport cannot be brought up or down.
#[derive(Clone, Copy, Debug, PartialEq, Eq, Structural)]
pub enum TransportError {
    /// A TDX input page that is not aligned to 2MB.
    MisalignedInputPage(u64),
    /// The hypercall register already shows the transport enabled.
    AlreadyEnabled,
}

/// The hypercall register after setting the enable bit to `enable` and the
/// page number to `gpn`; the lock and reserved bits are kept.
pub open spec fn hypercall_msr_value(current: u64, enable: bool, gpn: u64) -> u64 {
    (current & HYPERCALL_MSR_KEPT_BITS) | (if enable { 1u64 } else { 0u64 }) | (gpn << 12u64)
}

/// Whether a hypercall register value shows the transport enabled.
pub open spec fn hypercall_enabled(value: u64) -> bool {
    value & 1u64 == 1u64
}

/// The page number a hypercall register value points at.
pub open spec fn hypercall_gpn(value: u64) -> u64 {
    value >> 12u64
}

/// Computes the new hypercall register value from the one read.
///
/// Enabling a transport that is already enabled is a sequencing error.
pub fn hypercall_msr_update(current: u64, enable: bool, gpn: u64) -> (r: Result<u64, TransportError>)
    requires
        gpn < HYPERCALL_GPN_LIMIT,
    ensures
        r is Err <==> enable && hypercall_enabled(current),
        r is Err ==> r == Err::<u64, TransportError>(TransportError::AlreadyEnabled),
        r is Ok ==> r == Ok::<u64, TransportError>(hypercall_msr_value(current, enable, gpn)),
        r is Ok ==> hypercall_enabled(r->Ok_0) == enable && hypercall_gpn(r->Ok_0) == gpn,
{
    if enable && current & 1u64 == 1u64 {
        return Err(TransportError::AlreadyEnabled);
    }
    let value = (current & HYPERCALL_MSR_KEPT_BITS) | (if enable { 1u64 } else { 0u64 }) | (gpn << 12u64);
    assert(((current & 0xffeu64) | 1u64 | (gpn << 12u64)) & 1u64 == 1u64
        && ((current & 0xffeu64) | 0u64 | (gpn << 12u64)) & 1u64 == 0u64
        && ((current & 0xffeu64) | 1u64 | (gpn << 12u64)) >> 12u64 == gpn
        && ((current & 0xffeu64) | 0u64 | (gpn << 12u64)) >> 12u64 == gpn) by (bit_vector)
        requires
            gpn < 0x10_0000_0000_0000u64,
    ;
    Ok(value)
}

/// The operation that reports the guest OS identity.
pub open spec fn report_os_id_op(guest_os_id: u64, isolation: IsolationType) -> BootOp {
    if isolation == IsolationType::Tdx {
        BootOp::TdcallWriteMsr { msr: HV_X64_MSR_GUEST_OS_ID, value: guest_os_id }
    } else {
        BootOp::WriteMsr { msr: HV_X64_MSR_GUEST_OS_ID, value: guest_os_id }
    }
}

/// Reports the guest OS identity: through the host in a TDX trust domain,
/// by a direct register write otherwise.
pub fn report_os_id(guest_os_id: u64, isolation: IsolationType) -> (r: BootOp)
    ensures
        r == report_os_id_op(guest_os_id, isolation),
{
    if isolation == IsolationType::Tdx {
        BootOp::TdcallWriteMsr { msr: HV_X64_MSR_GUEST_OS_ID, value: guest_os_id }
    } else {
        BootOp::WriteMsr { msr: HV_X64_MSR_GUEST_OS_ID, value: guest_os_id }
    }
}

/// The 2MB range that starts at `page`.
pub open spec fn input_page_range(page: u64) -> MemoryRange {
    MemoryRange { start: page, end: (page + TWO_MB) as u64 }
}

/// Whether the range of an input page fits in the address space.
pub open spec fn input_page_fits(input_page: Option<u64>, isolation: IsolationType) -> bool {
    isolation == IsolationType::Tdx && input_page is Some ==> input_page->Some_0 + TWO_MB <= u64::MAX
}

/// Whether the input page is a TDX page that is not 2MB aligned.
pub open spec fn misaligned_tdx_page(input_page: Option<u64>, isolation: IsolationType) -> bool {
    isolation == IsolationType::Tdx && input_page is Some && input_page->Some_0 % TWO_MB != 0
}

/// The operations that bring the transport up.
pub open spec fn initialize_ops(
    guest_os_id: u64,
    input_page: Option<u64>,
    isolation: IsolationType,
    hypercall_page_address: u64,
) -> Seq<BootOp> {
    let report = report_os_id_op(guest_os_id, isolation);
    match input_page {
        None => seq![
            report,
            BootOp::UpdateHypercallMsr { enable: true, gpn: hypercall_page_address / HV_PAGE_SIZE },
        ],
        Some(page) => if isolation == IsolationType::Tdx {
            seq![
                report,
                BootOp::MapWithSharedBit { address: page, bit: TDX_SHARED_GPA_BOUNDARY_ADDRESS_BIT },
                BootOp::ChangePageVisibility { range: input_page_range(page), host_visible: true },
            ]
        } else {
            seq![report]
        },
    }
}

/// The operations that take the transport down.
pub open spec fn uninitialize_ops(input_page: Option<u64>, isolation: IsolationType) -> Seq<BootOp> {
    let report = report_os_id_op(0, isolation);
    match input_page {
        None => seq![report, BootOp::UpdateHypercallMsr { enable: false, gpn: 0 }],
        Some(page) => if isolation == IsolationType::Tdx {
            seq![
                report,
                BootOp::MapWithPrivateBit { address: page, bit: TDX_SHARED_GPA_BOUNDARY_ADDRESS_BIT },
                BootOp::ChangePageVisibility { range: input_page_range(page), host_visible: false },
                BootOp::AcceptPages { range: input_page_range(page) },
                BootOp::FlushTlb,
            ]
        } else {
            seq![report]
        },
    }
}

/// Brings the hypercall transport up; call before any hypercall.
///
/// The guest identity is reported first. Without an input page the guest is
/// not hardware isolated, and the hypercall register is pointed at the
/// hypercall page at `hypercall_page_address` and enabled. In a TDX trust
/// domain the 2MB input page is mapped through its shared alias and made
/// visible to the host; the hypercall register is left as it is there.
pub fn initialize(
    guest_os_id: u64,
    input_page: Option<u64>,
    isolation: IsolationType,
    hypercall_page_address: u64,
) -> (r: Result<Vec<BootOp>, TransportError>)
    requires
        input_page_fits(input_page, isolation),
    ensures
        r is Err <==> misaligned_tdx_page(input_page, isolation),
        r is Err ==> r == Err::<Vec<BootOp>, TransportError>(
            TransportError::MisalignedInputPage(input_page->Some_0),
        ),
        r is Ok ==> r->Ok_0@ == initialize_ops(guest_os_id, input_page, isolation, hypercall_page_address),
{
    let mut ops: Vec<BootOp> = Vec::new();
    match input_page {
        None => {
            ops.push(report_os_id(guest_os_id, isolation));
            ops.push(BootOp::UpdateHypercallMsr { enable: true, gpn: hypercall_page_address / HV_PAGE_SIZE });
        },
        Some(page) => {
            if isolation == IsolationType::Tdx {
                if page % TWO_MB != 0 {
                    return Err(TransportError::MisalignedInputPage(page));
                }
                let range = MemoryRange::new(page, page + TWO_MB);
                ops.push(report_os_id(guest_os_id, isolation));
                ops.push(BootOp::MapWithSharedBit { address: page, bit: TDX_SHARED_GPA_BOUNDARY_ADDRESS_BIT });
                ops.push(BootOp::ChangePageVisibility { range, host_visible: true });
            } else {
                ops.push(report_os_id(guest_os_id, isolation));
            }
        },
    }
    assert(ops@ =~= initialize_ops(guest_os_id, input_page, isolation, hypercall_page_address));
    Ok(ops)
}

/// Takes the hypercall transport down; call before leaving the shim.
///
/// The guest identity is cleared. Without an input page the hypercall
/// register is disabled. In a TDX trust domain the input page is mapped
/// through its private alias again, made private to the guest, accepted
/// anew, and the translation cache is flushed.
pub fn uninitialize(input_page: Option<u64>, isolation: IsolationType) -> (r: Result<Vec<BootOp>, TransportError>)
    requires
        input_page_fits(input_page, isolation),
    ensures
        r is Err <==> misaligned_tdx_page(input_page, isolation),
        r is Err ==> r == Err::<Vec<BootOp>, TransportError>(
            TransportError::MisalignedInputPage(input_page->Some_0),
        ),
        r is Ok ==> r->Ok_0@ == uninitialize_ops(input_page, isolation),
{
    let mut ops: Vec<BootOp> = Vec::new();
    match input_page {
        None => {
            ops.push(report_os_id(0, isolation));
            ops.push(BootOp::UpdateHypercallMsr { enable: false, gpn: 0 });
        },
        Some(page) => {
            if isolation == IsolationType::Tdx {
                if page % TWO_MB != 0 {
                    return Err(TransportError::MisalignedInputPage(page));
                }
                let range = MemoryRange::new(page, page + TWO_MB);
                ops.push(report_os_id(0, isolation));
                ops.push(BootOp::MapWithPrivateBit { address: page, bit: TDX_SHARED_GPA_BOUNDARY_ADDRESS_BIT });
                ops.push(BootOp::ChangePageVisibility { range, host_visible: false });
                ops.push(BootOp::AcceptPages { range });
                ops.push(BootOp::FlushTlb);
            } else {
                ops.push(report_os_id(0, isolation));
            }
        },
    }
    assert(ops@ =~= uninitialize_ops(input_page, isolation));
    Ok(ops)
}

} // verus!
