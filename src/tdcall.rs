//! The confidential-call register ABI and the guest-to-host requests built
//! on it.
//!
//! A TDX guest reaches its host by one `tdcall` instruction with the
//! guest-to-host leaf selected. Here the register records are built and the
//! monitor's answers read; the instruction itself is issued by the caller.
use vstd::prelude::*;

verus! {

/// The call-class selector of a guest-to-host call (TDG.VP.VMCALL).
pub const TDG_VP_VMCALL: u64 = 0;

/// Mask of the registers a hypercall hands to the host: RDX, R8, R10, R11.
pub const HYPERCALL_REGISTER_MASK: u64 = 0x0d04;

/// Mask of the registers an MSR write hands to the host: R10 to R13.
pub const WRMSR_REGISTER_MASK: u64 = 0x3c00;

/// Guest-to-host sub-function that writes a model-specific register.
pub const TDVMCALL_WRMSR: u64 = 0x20;

/// Status the instruction and the host report on success.
pub const TDCALL_SUCCESS: u64 = 0;

/// Every register the instruction takes. All are handed in, whether or not
/// the request uses them, because the monitor may overwrite any of them.
#[derive(Clone, Copy, Debug, PartialEq, Eq, Structural)]
pub struct TdcallInput {
    pub leaf: u64,
    pub rcx: u64,
    pub rdx: u64,
    pub r8: u64,
    pub r9: u64,
    pub r10: u64,
    pub r11: u64,
    pub r12: u64,
    pub r13: u64,
    pub r14: u64,
    pub r15: u64,
}

/// The registers the monitor answers in.
#[derive(Clone, Copy, Debug, PartialEq, Eq, Structural)]
pub struct TdcallOutput {
    pub rax: u64,
    pub rcx: u64,
    pub rdx: u64,
    pub r8: u64,
    pub r10: u64,
    pub r11: u64,
}

/// Why a guest-to-host MSR write did not succeed.
#[derive(Clone, Copy, Debug, PartialEq, Eq, Structural)]
pub enum TdVmCallError {
    /// The instruction itself failed, with this status.
    Instruction(u64),
    /// The host refused the request, with this status.
    Host(u64),
}

/// The confidential-call instruction, as the caller issues it.
///
/// The instruction is only ever issued with the guest-to-host selector;
/// [`TdcallInstruction::admits`] tells whether a record may be issued.
#[derive(Clone, Copy, Debug, PartialEq, Eq, Structural)]
pub struct TdcallInstruction;

impl TdcallInstruction {
    /// Whether `input` selects the one call class this layer issues.
    /// Any other selector is refused before the instruction runs.
    pub fn admits(&self, input: &TdcallInput) -> (r: bool)
        ensures
            r == (input.leaf == TDG_VP_VMCALL),
    {
        input.leaf == TDG_VP_VMCALL
    }
}

/// The record of a hypercall issued through the host: the control word in
/// R10, the input and output addresses (or fast operands) in RDX and R8.
pub open spec fn hypercall_record(control: u64, input: u64, output: u64) -> TdcallInput {
    TdcallInput {
        leaf: TDG_VP_VMCALL,
        rcx: HYPERCALL_REGISTER_MASK,
        rdx: input,
        r8: output,
        r9: 0,
        r10: control,
        r11: 0,
        r12: 0,
        r13: 0,
        r14: 0,
        r15: 0,
    }
}

/// The record of a write of `value` into the model-specific register `msr`.
pub open spec fn wrmsr_record(msr: u32, value: u64) -> TdcallInput {
    TdcallInput {
        leaf: TDG_VP_VMCALL,
        rcx: WRMSR_REGISTER_MASK,
        rdx: 0,
        r8: 0,
        r9: 0,
        r10: 0,
        r11: TDVMCALL_WRMSR,
        r12: msr as u64,
        r13: value,
        r14: 0,
        r15: 0,
    }
}

/// Builds the record of a hypercall issued through the host.
pub fn tdcall_hypercall_input(control: u64, input: u64, output: u64) -> (r: TdcallInput)
    ensures
        r == hypercall_record(control, input, output),
        r.leaf == TDG_VP_VMCALL,
        r.r10 == control,
        r.rdx == input,
        r.r8 == output,
{
    TdcallInput {
        leaf: TDG_VP_VMCALL,
        rcx: HYPERCALL_REGISTER_MASK,
        rdx: input,
        r8: output,
        r9: 0,
        r10: control,
        r11: 0,
        r12: 0,
        r13: 0,
        r14: 0,
        r15: 0,
    }
}

/// Builds the record of a write of `value` into the register `msr`.
pub fn tdcall_wrmsr_input(msr: u32, value: u64) -> (r: TdcallInput)
    ensures
        r == wrmsr_record(msr, value),
        r.leaf == TDG_VP_VMCALL,
{
    TdcallInput {
        leaf: TDG_VP_VMCALL,
        rcx: WRMSR_REGISTER_MASK,
        rdx: 0,
        r8: 0,
        r9: 0,
        r10: 0,
        r11: TDVMCALL_WRMSR,
        r12: msr as u64,
        r13: value,
        r14: 0,
        r15: 0,
    }
}

/// Reads the outcome of an MSR write from the monitor's answer: RAX holds
/// the instruction's status, R10 the host's.
pub fn tdcall_wrmsr_result(output: &TdcallOutput) -> (r: Result<(), TdVmCallError>)
    ensures
        output.rax != TDCALL_SUCCESS ==> r == Err::<(), TdVmCallError>(TdVmCallError::Instruction(output.rax)),
        output.rax == TDCALL_SUCCESS && output.r10 != TDCALL_SUCCESS ==> r == Err::<(), TdVmCallError>(TdVmCallError::Host(output.r10)),
        r is Ok <==> output.rax == TDCALL_SUCCESS && output.r10 == TDCALL_SUCCESS,
{
    if output.rax != TDCALL_SUCCESS {
        Err(TdVmCallError::Instruction(output.rax))
    } else if output.r10 != TDCALL_SUCCESS {
        Err(TdVmCallError::Host(output.r10))
    } else {
        Ok(())
    }
}

} // verus!
