use vstd::prelude::*;

use crate::wide::{to_wide_nul, wide_nul};

verus! {

/// What a search matches certificates on.
#[derive(Debug, Clone, Copy, PartialEq, Eq, Structural)]
pub enum FindKind {
    /// A substring of the subject name.
    SubjectStr,
    /// The exact, encoded subject name.
    SubjectName,
    /// A substring of the issuer name.
    IssuerStr,
    /// The exact, encoded issuer name.
    IssuerName,
    /// The SHA-1 hash of the certificate.
    Hash,
    /// Every certificate.
    Any,
}

impl FindKind {
    /// Whether the search parameter is a name that must first be encoded.
    pub open spec fn spec_by_name(self) -> bool {
        self is SubjectName || self is IssuerName
    }

    /// Whether the search parameter is a name that must first be encoded.
    pub fn by_name(&self) -> (r: bool)
        ensures
            r == self.spec_by_name(),
    {
        match self {
            FindKind::SubjectName | FindKind::IssuerName => true,
            _ => false,
        }
    }
}

/// The value a search parameter stands for.
pub enum ParamModel {
    Text(Seq<u16>),
    Blob(Seq<u8>),
    Absent,
}

/// The parameter handed to the store with each search call.
#[derive(Debug)]
pub enum FindParam {
    /// Nul-terminated wide text.
    Text(Vec<u16>),
    /// A counted run of bytes.
    Blob(Vec<u8>),
    /// No parameter.
    Absent,
}

impl View for FindParam {
    type V = ParamModel;

    open spec fn view(&self) -> ParamModel {
        match self {
            FindParam::Text(t) => ParamModel::Text(t@),
            FindParam::Blob(b) => ParamModel::Blob(b@),
            FindParam::Absent => ParamModel::Absent,
        }
    }
}

/// A search request: what to match on, and against what.
///
/// For the exact-name kinds the parameter holds the name as wide text; the
/// search encodes it before it asks the store.
#[derive(Debug)]
pub struct FindQuery {
    pub kind: FindKind,
    pub param: FindParam,
}

impl FindQuery {
    /// Certificates whose subject contains `subject`.
    pub fn by_subject_str(subject: &str) -> (r: FindQuery)
        ensures
            r.kind == FindKind::SubjectStr,
            r.param@ == ParamModel::Text(wide_nul(subject@)),
    {
        FindQuery { kind: FindKind::SubjectStr, param: FindParam::Text(to_wide_nul(subject)) }
    }

    /// Certificates whose subject is exactly the name `subject`.
    pub fn by_subject_name(subject: &str) -> (r: FindQuery)
        ensures
            r.kind == FindKind::SubjectName,
            r.param@ == ParamModel::Text(wide_nul(subject@)),
    {
        FindQuery { kind: FindKind::SubjectName, param: FindParam::Text(to_wide_nul(subject)) }
    }

    /// Certificates whose issuer contains `issuer`.
    pub fn by_issuer_str(issuer: &str) -> (r: FindQuery)
        ensures
            r.kind == FindKind::IssuerStr,
            r.param@ == ParamModel::Text(wide_nul(issuer@)),
    {
        FindQuery { kind: FindKind::IssuerStr, param: FindParam::Text(to_wide_nul(issuer)) }
    }

    /// Certificates whose issuer is exactly the name `issuer`.
    pub fn by_issuer_name(issuer: &str) -> (r: FindQuery)
        ensures
            r.kind == FindKind::IssuerName,
            r.param@ == ParamModel::Text(wide_nul(issuer@)),
    {
        FindQuery { kind: FindKind::IssuerName, param: FindParam::Text(to_wide_nul(issuer)) }
    }

    /// Certificates with the given SHA-1 hash; the bytes are passed on as
    /// they are.
    pub fn by_sha1(hash: &[u8]) -> (r: FindQuery)
        ensures
            r.kind == FindKind::Hash,
            r.param@ == ParamModel::Blob(hash@),
    {
        FindQuery { kind: FindKind::Hash, param: FindParam::Blob(vstd::slice::slice_to_vec(hash)) }
    }

    /// Every certificate of the store.
    pub fn all() -> (r: FindQuery)
        ensures
            r.kind == FindKind::Any,
            r.param@ == ParamModel::Absent,
    {
        FindQuery { kind: FindKind::Any, param: FindParam::Absent }
    }
}

} // verus!
