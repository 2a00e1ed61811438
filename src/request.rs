use vstd::prelude::*;

use crate::store_type::{open_flags, spec_open_flags, CertStoreType};
use crate::wide::{to_wide_nul, wide_nul};

verus! {

/// Import flag: private keys from the archive can be exported again.
pub const CRYPT_EXPORTABLE: u32 = 0x1;

/// Import flag: keep the extended properties stored in the archive.
pub const PKCS12_INCLUDE_EXTENDED_PROPERTIES: u32 = 0x10;

/// Import flag: prefer the modern key storage provider to the legacy one.
pub const PKCS12_PREFER_CNG_KSP: u32 = 0x100;

/// The flags with which an archive is imported.
pub open spec fn spec_import_flags() -> u32 {
    CRYPT_EXPORTABLE | PKCS12_INCLUDE_EXTENDED_PROPERTIES | PKCS12_PREFER_CNG_KSP
}

/// What opening an existing system store hands to the platform.
#[derive(Debug)]
pub struct OpenRequest {
    /// The scope's location flag with the open-existing flag.
    pub flags: u32,
    /// The store name as nul-terminated wide text.
    pub name: Vec<u16>,
}

impl OpenRequest {
    /// The request that opens the existing store `store_name` of the scope
    /// `store_type`.
    pub fn new(store_type: CertStoreType, store_name: &str) -> (r: OpenRequest)
        ensures
            r.flags == spec_open_flags(store_type),
            r.name@ == wide_nul(store_name@),
    {
        OpenRequest { flags: open_flags(store_type), name: to_wide_nul(store_name) }
    }
}

/// What importing a PKCS#12 archive hands to the platform, besides the
/// archive's bytes.
#[derive(Debug)]
pub struct ImportRequest {
    /// Keys exportable, extended properties kept, modern provider preferred.
    pub flags: u32,
    /// The archive's password as nul-terminated wide text.
    pub password: Vec<u16>,
}

impl ImportRequest {
    /// The request that imports an archive protected by `password`.
    pub fn new(password: &str) -> (r: ImportRequest)
        ensures
            r.flags == spec_import_flags(),
            r.flags == 0x111,
            r.password@ == wide_nul(password@),
    {
        let flags = CRYPT_EXPORTABLE | PKCS12_INCLUDE_EXTENDED_PROPERTIES | PKCS12_PREFER_CNG_KSP;
        assert(1u32 | 0x10u32 | 0x100u32 == 0x111u32) by (bit_vector);
        ImportRequest { flags, password: to_wide_nul(password) }
    }
}

} // verus!
