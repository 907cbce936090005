//! The hypercall dispatcher.
//!
//! A hypercall goes either through the hypercall code page that the
//! hypervisor maps into the guest, or, in a TDX trust domain, through the
//! host by the confidential-call instruction. [`invoke_hypercall`] picks the
//! route and lays out the registers; the caller issues the one call and hands
//! the result register back to [`HypercallRequest::finish`].
use vstd::prelude::*;
use crate::isolation::IsolationType;
use crate::tdcall::{TdcallInput, TDG_VP_VMCALL, hypercall_record, tdcall_hypercall_input};

verus! {

/// A hypercall control word: the call code in bits 0..16, the fast-call flag
/// in bit 16, the repetition count in bits 32..44 and the first repetition
/// in bits 48..60.
#[derive(Clone, Copy, Debug, PartialEq, Eq, Structural)]
pub struct Control(pub u64);

/// A hypercall's result: the status in bits 0..16 and, for repeated calls,
/// the number of elements completed in bits 32..44.
#[derive(Clone, Copy, Debug, PartialEq, Eq, Structural)]
pub struct HypercallOutput(pub u64);

/// Status of a hypercall that succeeded.
pub const HV_STATUS_SUCCESS: u16 = 0;

impl Control {
    /// The call code.
    pub fn code(&self) -> (r: u16)
        ensures
            r == self.0 & 0xffffu64,
    {
        let bits = self.0;
        assert(bits & 0xffffu64 <= 0xffffu64) by (bit_vector);
        (bits & 0xffffu64) as u16
    }

    /// Whether the operands are passed in registers.
    pub fn fast(&self) -> (r: bool)
        ensures
            r == ((self.0 >> 16u64) & 1u64 == 1u64),
    {
        (self.0 >> 16u64) & 1u64 == 1u64
    }

    /// The number of repetitions.
    pub fn rep_count(&self) -> (r: u16)
        ensures
            r == (self.0 >> 32u64) & 0xfffu64,
    {
        let bits = self.0;
        assert((bits >> 32u64) & 0xfffu64 <= 0xfffu64) by (bit_vector);
        ((bits >> 32u64) & 0xfffu64) as u16
    }
}

impl HypercallOutput {
    /// The status the hypervisor reported.
    pub fn call_status(&self) -> (r: u16)
        ensures
            r == self.0 & 0xffffu64,
    {
        let bits = self.0;
        assert(bits & 0xffffu64 <= 0xffffu64) by (bit_vector);
        (bits & 0xffffu64) as u16
    }

    /// The number of repetitions completed.
    pub fn elements_processed(&self) -> (r: u16)
        ensures
            r == (self.0 >> 32u64) & 0xfffu64,
    {
        let bits = self.0;
        assert((bits >> 32u64) & 0xfffu64 <= 0xfffu64) by (bit_vector);
        ((bits >> 32u64) & 0xfffu64) as u16
    }
}

/// How one hypercall is issued.
#[derive(Clone, Copy, Debug, PartialEq, Eq, Structural)]
pub enum HypercallRequest {
    /// Call into the hypercall code page with these argument registers; the
    /// result comes back in RAX.
    Page { rcx: u64, rdx: u64, r8: u64 },
    /// Issue the confidential-call instruction with this record.
    Tdcall(TdcallInput),
}

/// The request that carries a hypercall for a guest of the given isolation.
pub open spec fn hypercall_route(
    isolation_type: IsolationType,
    control: Control,
    input_gpa_or_fast1: u64,
    output_gpa_or_fast2: u64,
) -> HypercallRequest {
    if isolation_type == IsolationType::Tdx {
        HypercallRequest::Tdcall(hypercall_record(control.0, input_gpa_or_fast1, output_gpa_or_fast2))
    } else {
        HypercallRequest::Page { rcx: control.0, rdx: input_gpa_or_fast1, r8: output_gpa_or_fast2 }
    }
}

/// Lays out a standard hypercall, or a fast one with at most two input words
/// and no output word.
///
/// The caller must hold the input and output pages for the duration of the
/// call, and must not issue a fast call that has output words: the
/// hypervisor would write them over registers the caller expects kept.
pub fn invoke_hypercall(
    isolation_type: IsolationType,
    control: Control,
    input_gpa_or_fast1: u64,
    output_gpa_or_fast2: u64,
) -> (r: HypercallRequest)
    ensures
        r == hypercall_route(isolation_type, control, input_gpa_or_fast1, output_gpa_or_fast2),
{
    if isolation_type == IsolationType::Tdx {
        HypercallRequest::Tdcall(tdcall_hypercall_input(control.0, input_gpa_or_fast1, output_gpa_or_fast2))
    } else {
        HypercallRequest::Page { rcx: control.0, rdx: input_gpa_or_fast1, r8: output_gpa_or_fast2 }
    }
}

impl HypercallRequest {
    /// The output of a call that left `result` in its result register.
    pub open spec fn output(self, result: u64) -> HypercallOutput {
        match self {
            HypercallRequest::Page { .. } => HypercallOutput(result),
            HypercallRequest::Tdcall(_) => HypercallOutput(0),
        }
    }

    /// The output of the call, given what the call left in its result
    /// register. Through the code page that is the output as it stands.
    /// Through the host the status reported is success: a failed call faults
    /// in the instruction itself during boot.
    pub fn finish(&self, result: u64) -> (r: HypercallOutput)
        ensures
            r == self.output(result),
    {
        match self {
            HypercallRequest::Page { .. } => HypercallOutput(result),
            HypercallRequest::Tdcall(_) => HypercallOutput(0),
        }
    }
}

/// Outside a TDX trust domain a hypercall goes through the code page with
/// the control word and both operands in the argument registers as given,
/// and its output is the result register as the callee left it.
pub proof fn lemma_page_route_is_transparent(
    isolation_type: IsolationType,
    control: Control,
    input_gpa_or_fast1: u64,
    output_gpa_or_fast2: u64,
    result: u64,
)
    requires
        isolation_type != IsolationType::Tdx,
    ensures
        ({
            let request = hypercall_route(isolation_type, control, input_gpa_or_fast1, output_gpa_or_fast2);
            &&& request == (HypercallRequest::Page {
                rcx: control.0,
                rdx: input_gpa_or_fast1,
                r8: output_gpa_or_fast2,
            })
            &&& request.output(result).0 == result
        }),
{
}

/// In a TDX trust domain a hypercall goes through the host as a
/// guest-to-host call, with the control word and both operands in their
/// registers as given, and is reported as a success.
pub proof fn lemma_tdx_route_is_guest_call(
    control: Control,
    input_gpa_or_fast1: u64,
    output_gpa_or_fast2: u64,
    result: u64,
)
    ensures
        ({
            let request = hypercall_route(IsolationType::Tdx, control, input_gpa_or_fast1, output_gpa_or_fast2);
            &&& request is Tdcall
            &&& request->Tdcall_0.leaf == TDG_VP_VMCALL
            &&& request->Tdcall_0.r10 == control.0
            &&& request->Tdcall_0.rdx == input_gpa_or_fast1
            &&& request->Tdcall_0.r8 == output_gpa_or_fast2
            &&& request.output(result).0 == 0
        }),
{
}

} // verus!
