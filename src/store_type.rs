use vstd::prelude::*;

verus! {

/// Shift that places a system-store location id in the open flags.
pub const SYSTEM_STORE_LOCATION_SHIFT: u32 = 16;

/// Location id of the machine-wide system stores.
pub const SYSTEM_STORE_LOCAL_MACHINE_ID: u32 = 2;

/// Location id of the current user's system stores.
pub const SYSTEM_STORE_CURRENT_USER_ID: u32 = 1;

/// Location id of the current service's system stores.
pub const SYSTEM_STORE_CURRENT_SERVICE_ID: u32 = 4;

/// Open flag that makes opening fail unless the store already exists.
pub const STORE_OPEN_EXISTING_FLAG: u32 = 0x4000;

/// Certificate store type
#[derive(Debug, Clone, Copy, PartialEq, Eq, Structural)]
pub enum CertStoreType {
    LocalMachine,
    CurrentUser,
    CurrentService,
}

impl CertStoreType {
    /// The location id of this scope.
    pub open spec fn location_id(self) -> u32 {
        match self {
            CertStoreType::LocalMachine => SYSTEM_STORE_LOCAL_MACHINE_ID,
            CertStoreType::CurrentUser => SYSTEM_STORE_CURRENT_USER_ID,
            CertStoreType::CurrentService => SYSTEM_STORE_CURRENT_SERVICE_ID,
        }
    }

    /// The location flag of this scope: its id shifted into place.
    pub open spec fn spec_flags(self) -> u32 {
        (self.location_id() as nat * 0x10000) as u32
    }

    /// Location flag that selects this scope when a system store is opened.
    pub fn as_flags(&self) -> (r: u32)
        ensures
            r == self.spec_flags(),
    {
        let id = match self {
            CertStoreType::LocalMachine => SYSTEM_STORE_LOCAL_MACHINE_ID,
            CertStoreType::CurrentUser => SYSTEM_STORE_CURRENT_USER_ID,
            CertStoreType::CurrentService => SYSTEM_STORE_CURRENT_SERVICE_ID,
        };
        assert(id << SYSTEM_STORE_LOCATION_SHIFT == id * 0x10000) by (bit_vector)
            requires
                id <= 4,
        ;
        id << SYSTEM_STORE_LOCATION_SHIFT
    }
}

/// The flags with which an existing system store of this scope is opened.
pub open spec fn spec_open_flags(store_type: CertStoreType) -> u32 {
    store_type.spec_flags() | STORE_OPEN_EXISTING_FLAG
}

/// Flags for opening an existing system store of the given scope: the
/// scope's location flag together with the open-existing flag.
pub fn open_flags(store_type: CertStoreType) -> (r: u32)
    ensures
        r == spec_open_flags(store_type),
        r & STORE_OPEN_EXISTING_FLAG == STORE_OPEN_EXISTING_FLAG,
        r >> SYSTEM_STORE_LOCATION_SHIFT == store_type.location_id(),
{
    let f = store_type.as_flags();
    let r = f | STORE_OPEN_EXISTING_FLAG;
    let ghost id = store_type.location_id();
    assert(r & 0x4000 == 0x4000 && r >> 16 == id) by (bit_vector)
        requires
            r == f | 0x4000,
            f == id * 0x10000,
            id <= 4,
    ;
    r
}

} // verus!
