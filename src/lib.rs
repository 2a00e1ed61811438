//! Search of a platform certificate store: scope flags, query building, the
//! two-phase name encoding and the duplicate-before-continue enumeration, as
//! verified decisions that a thin native driver carries out.

mod error;
mod laws;
mod query;
mod request;
mod session;
mod store_type;
mod wide;

pub use error::PlatformError;
pub use query::{FindKind, FindParam, FindQuery, ParamModel};
pub use store_type::{open_flags, spec_open_flags, CertStoreType};
pub use wide::{before_nul, utf16, utf16_units, wide_nul};
pub use session::{
    failed, next, outcome, pending, run, start, FindAction, FindEvent, FindPhase, FindSession,
    SessionModel,
};
pub use laws::{
    lemma_collects_every_match, lemma_done_absorbs, lemma_duplicate_before_continue,
    lemma_matches_collected, lemma_name_sizing_failure_stops, lemma_no_match_is_empty,
    lemma_run_concat, lemma_search_repeatable, match_events, search_events,
};
pub use request::{spec_import_flags, ImportRequest, OpenRequest};
