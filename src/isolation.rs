//! Detection of the guest's isolation mode.
use vstd::prelude::*;

verus! {

/// The confidentiality mode a guest runs under.
#[derive(Clone, Copy, Debug, PartialEq, Eq, Structural)]
pub enum IsolationType {
    /// Not isolated.
    Unisolated,
    /// Isolated by the hypervisor's secure kernel.
    Vbs,
    /// Hardware isolation by SEV-SNP.
    Snp,
    /// Hardware isolation by a TDX trust domain.
    Tdx,
}

/// The isolation the loader reports the platform supports, as the raw
/// value found in the boot metadata.
#[derive(Clone, Copy, Debug, PartialEq, Eq, Structural)]
pub struct SupportedIsolationType(pub u32);

/// Hardware capable of VBS isolation; whether this guest is isolated is
/// decided by a partition privilege.
pub const SUPPORTED_VBS: u32 = 1;

/// SEV-SNP isolation.
pub const SUPPORTED_SNP: u32 = 2;

/// TDX isolation.
pub const SUPPORTED_TDX: u32 = 3;

/// CPUID leaf that reports the partition privileges in EAX (low half) and
/// EBX (high half).
pub const HV_CPUID_FUNCTION_MS_HV_FEATURES: u32 = 0x4000_0003;

/// Bit of the partition privilege mask that says the partition is isolated.
pub const PRIVILEGE_ISOLATION_BIT: u64 = 54;

/// The registers returned by one CPUID query.
#[derive(Clone, Copy, Debug, PartialEq, Eq, Structural)]
pub struct CpuidResult {
    pub eax: u32,
    pub ebx: u32,
    pub ecx: u32,
    pub edx: u32,
}

impl SupportedIsolationType {
    /// One of the values this shim understands.
    pub open spec fn is_recognized(self) -> bool {
        self.0 == SUPPORTED_VBS || self.0 == SUPPORTED_SNP || self.0 == SUPPORTED_TDX
    }

    /// Whether the value is one this shim understands.
    pub fn recognized(&self) -> (r: bool)
        ensures
            r == self.is_recognized(),
    {
        self.0 == SUPPORTED_VBS || self.0 == SUPPORTED_SNP || self.0 == SUPPORTED_TDX
    }

    /// Whether the isolation mode can only be decided by querying the
    /// partition privileges (the VBS case).
    pub fn needs_privilege_query(&self) -> (r: bool)
        ensures
            r == (self.0 == SUPPORTED_VBS),
    {
        self.0 == SUPPORTED_VBS
    }
}

/// The 64-bit partition privilege mask: EAX is the low half, EBX the high one.
pub open spec fn privilege_mask(features: CpuidResult) -> u64 {
    features.eax as u64 | ((features.ebx as u64) << 32u64)
}

/// Whether the isolation privilege is granted in a privilege mask.
pub open spec fn has_isolation_privilege(privileges: u64) -> bool {
    (privileges >> PRIVILEGE_ISOLATION_BIT) & 1u64 == 1u64
}

/// Combines the two halves of the partition privilege mask.
pub fn partition_privileges(features: &CpuidResult) -> (r: u64)
    ensures
        r == privilege_mask(*features),
        r & 0xffff_ffffu64 == features.eax as u64,
        r >> 32u64 == features.ebx as u64,
{
    let lo = features.eax as u64;
    let hi = features.ebx as u64;
    assert((lo | (hi << 32u64)) & 0xffff_ffffu64 == lo && (lo | (hi << 32u64)) >> 32u64 == hi)
        by (bit_vector)
        requires
            lo <= 0xffff_ffffu64,
            hi <= 0xffff_ffffu64,
    ;
    lo | (hi << 32u64)
}

/// Whether a privilege mask grants the isolation privilege.
pub fn isolation_privilege(privileges: u64) -> (r: bool)
    ensures
        r == has_isolation_privilege(privileges),
{
    (privileges >> PRIVILEGE_ISOLATION_BIT) & 1u64 == 1u64
}

/// The isolation mode a supported-isolation value stands for, given the
/// partition privileges where they decide.
pub open spec fn isolation_of(supported: SupportedIsolationType, features: CpuidResult) -> IsolationType {
    if supported.0 == SUPPORTED_VBS {
        if has_isolation_privilege(privilege_mask(features)) {
            IsolationType::Vbs
        } else {
            IsolationType::Unisolated
        }
    } else if supported.0 == SUPPORTED_SNP {
        IsolationType::Snp
    } else {
        IsolationType::Tdx
    }
}

/// Determines the guest's isolation mode.
///
/// `features` is the result of CPUID leaf [`HV_CPUID_FUNCTION_MS_HV_FEATURES`];
/// it is read only for VBS, where the platform flag means the hardware is
/// capable of isolation and the isolation privilege says whether this guest
/// is isolated. An unrecognized value is a configuration the shim cannot
/// boot with, and must be refused by the caller.
pub fn get_isolation_type(supported: SupportedIsolationType, features: CpuidResult) -> (r: IsolationType)
    requires
        supported.is_recognized(),
    ensures
        r == isolation_of(supported, features),
        supported.0 == SUPPORTED_SNP ==> r == IsolationType::Snp,
        supported.0 == SUPPORTED_TDX ==> r == IsolationType::Tdx,
        supported.0 == SUPPORTED_VBS ==> (r == IsolationType::Vbs <==> (features.ebx >> 22u32) & 1u32 == 1u32),
        supported.0 == SUPPORTED_VBS ==> (r == IsolationType::Unisolated <==> (features.ebx >> 22u32) & 1u32 == 0u32),
{
    if supported.0 == SUPPORTED_VBS {
        let privileges = partition_privileges(&features);
        let ebx = features.ebx;
        assert(((privileges >> 54u64) & 1u64 == 1u64) == ((ebx >> 22u32) & 1u32 == 1u32)
            && ((ebx >> 22u32) & 1u32 == 0u32) == !((ebx >> 22u32) & 1u32 == 1u32)) by (bit_vector)
            requires
                privileges >> 32u64 == ebx as u64,
        ;
        if isolation_privilege(privileges) {
            IsolationType::Vbs
        } else {
            IsolationType::Unisolated
        }
    } else if supported.0 == SUPPORTED_SNP {
        IsolationType::Snp
    } else {
        IsolationType::Tdx
    }
}

} // verus!
