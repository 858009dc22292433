use vstd::prelude::*;

verus! {

/// Logical name of the native protocol library; the platform's file-naming
/// convention is applied to it when the library is looked up.
pub const LIBRARY_BASENAME: &'static str = "libFDP";

/// The entry points that a session needs from the native library, in the
/// order in which they are resolved.
#[derive(Clone, Copy, Debug, PartialEq, Eq, Structural)]
pub enum Symbol {
    CreateShm,
    OpenShm,
    Init,
    Pause,
    Resume,
    ReadPhysicalMemory,
    ReadRegister,
    GetPhysicalMemorySize,
}

/// Number of entry points that must all resolve.
pub open spec fn symbol_count() -> nat {
    8
}

impl Symbol {
    /// Position of the entry point in the resolution order.
    pub open spec fn rank(self) -> nat {
        match self {
            Symbol::CreateShm => 0,
            Symbol::OpenShm => 1,
            Symbol::Init => 2,
            Symbol::Pause => 3,
            Symbol::Resume => 4,
            Symbol::ReadPhysicalMemory => 5,
            Symbol::ReadRegister => 6,
            Symbol::GetPhysicalMemorySize => 7,
        }
    }

    /// The exported name under which the native library provides it.
    pub open spec fn spec_name(&self) -> &'static str {
        match self {
            Symbol::CreateShm => "FDP_CreateSHM",
            Symbol::OpenShm => "FDP_OpenSHM",
            Symbol::Init => "FDP_Init",
            Symbol::Pause => "FDP_Pause",
            Symbol::Resume => "FDP_Resume",
            Symbol::ReadPhysicalMemory => "FDP_ReadPhysicalMemory",
            Symbol::ReadRegister => "FDP_ReadRegister",
            Symbol::GetPhysicalMemorySize => "FDP_GetPhysicalMemorySize",
        }
    }

    /// The exported name of the entry point.
    #[verifier::when_used_as_spec(spec_name)]
    pub fn name(&self) -> (r: &'static str)
        ensures
            r == self.spec_name(),
    {
        match self {
            Symbol::CreateShm => "FDP_CreateSHM",
            Symbol::OpenShm => "FDP_OpenSHM",
            Symbol::Init => "FDP_Init",
            Symbol::Pause => "FDP_Pause",
            Symbol::Resume => "FDP_Resume",
            Symbol::ReadPhysicalMemory => "FDP_ReadPhysicalMemory",
            Symbol::ReadRegister => "FDP_ReadRegister",
            Symbol::GetPhysicalMemorySize => "FDP_GetPhysicalMemorySize",
        }
    }

    /// The entry point resolved first.
    pub fn first() -> (r: Symbol)
        ensures
            r.rank() == 0,
    {
        Symbol::CreateShm
    }

    /// The entry point resolved after this one, if any.
    pub open spec fn spec_next(&self) -> Option<Symbol> {
        match self {
            Symbol::CreateShm => Some(Symbol::OpenShm),
            Symbol::OpenShm => Some(Symbol::Init),
            Symbol::Init => Some(Symbol::Pause),
            Symbol::Pause => Some(Symbol::Resume),
            Symbol::Resume => Some(Symbol::ReadPhysicalMemory),
            Symbol::ReadPhysicalMemory => Some(Symbol::ReadRegister),
            Symbol::ReadRegister => Some(Symbol::GetPhysicalMemorySize),
            Symbol::GetPhysicalMemorySize => None,
        }
    }

    /// The entry point resolved after this one, if any.
    #[verifier::when_used_as_spec(spec_next)]
    pub fn next(&self) -> (r: Option<Symbol>)
        ensures
            r == self.spec_next(),
            self.rank() + 1 < symbol_count() ==> (r matches Some(n) && n.rank() == self.rank() + 1),
            self.rank() + 1 >= symbol_count() <==> r is None,
    {
        match self {
            Symbol::CreateShm => Some(Symbol::OpenShm),
            Symbol::OpenShm => Some(Symbol::Init),
            Symbol::Init => Some(Symbol::Pause),
            Symbol::Pause => Some(Symbol::Resume),
            Symbol::Resume => Some(Symbol::ReadPhysicalMemory),
            Symbol::ReadPhysicalMemory => Some(Symbol::ReadRegister),
            Symbol::ReadRegister => Some(Symbol::GetPhysicalMemorySize),
            Symbol::GetPhysicalMemorySize => None,
        }
    }
}

} // verus!
