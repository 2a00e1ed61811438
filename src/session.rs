use vstd::prelude::*;

use crate::error::PlatformError;
use crate::query::{FindKind, FindParam, FindQuery, ParamModel};

verus! {

/// Where a search stands.
#[derive(Debug, Clone, Copy, PartialEq, Eq, Structural)]
pub enum FindPhase {
    /// Waiting for the size of the encoded name (first encoding phase).
    SizingName,
    /// Waiting for the name encoded into a buffer of the given size (second
    /// encoding phase).
    EncodingName(u32),
    /// Waiting for the store's next match after the cursor.
    Searching,
    /// The store reported a match that is not yet duplicated.
    Matched,
    /// The search is over; its outcome is ready.
    Done,
}

/// What the driver must do next on the search's behalf.
#[derive(Debug, Clone, Copy, PartialEq, Eq, Structural)]
pub enum FindAction {
    /// Ask the platform for the size of the encoded form of the query's name.
    MeasureName,
    /// Encode the query's name into a buffer of exactly this many bytes.
    EncodeName(u32),
    /// Ask the store for the next match after the cursor, with the session's
    /// kind and parameter.
    FindNext,
    /// Duplicate the certificate at the cursor before the cursor moves on.
    Duplicate,
    /// Stop: the outcome is ready.
    Finish,
}

/// What the driver reports back after doing an action.
pub enum FindEvent<D> {
    /// The encoded name takes this many bytes.
    NameSize(u32),
    /// The encoded name.
    NameEncoded(Vec<u8>),
    /// The store found one more match; the cursor now stands on it.
    Matched,
    /// The store has no further match.
    Exhausted,
    /// The match at the cursor, duplicated: an independently owned handle.
    Duplicated(D),
    /// A platform call failed.
    Failed(PlatformError),
}

/// The abstract state of a search.
pub struct SessionModel<D> {
    pub kind: FindKind,
    pub param: ParamModel,
    pub phase: FindPhase,
    pub found: Seq<D>,
    pub failure: Option<PlatformError>,
}

/// The state in which a search on `kind` and `param` begins: an exact-name
/// search first encodes its name, every other one asks the store at once.
pub open spec fn start<D>(kind: FindKind, param: ParamModel) -> SessionModel<D> {
    SessionModel {
        kind,
        param,
        phase: if kind.spec_by_name() {
            FindPhase::SizingName
        } else {
            FindPhase::Searching
        },
        found: Seq::empty(),
        failure: None,
    }
}

/// The action that a state asks for.
pub open spec fn pending<D>(s: SessionModel<D>) -> FindAction {
    match s.phase {
        FindPhase::SizingName => FindAction::MeasureName,
        FindPhase::EncodingName(n) => FindAction::EncodeName(n),
        FindPhase::Searching => FindAction::FindNext,
        FindPhase::Matched => FindAction::Duplicate,
        FindPhase::Done => FindAction::Finish,
    }
}

/// The state after a failed platform call: over, with the error kept and
/// nothing found reported.
pub open spec fn failed<D>(s: SessionModel<D>, e: PlatformError) -> SessionModel<D> {
    SessionModel { phase: FindPhase::Done, failure: Some(e), ..s }
}

/// The state after an event. An event that does not answer the pending
/// action leaves the state as it was, so the action is asked for again.
pub open spec fn next<D>(s: SessionModel<D>, e: FindEvent<D>) -> SessionModel<D> {
    match s.phase {
        FindPhase::SizingName => match e {
            FindEvent::NameSize(n) => SessionModel { phase: FindPhase::EncodingName(n), ..s },
            FindEvent::Failed(err) => failed(s, err),
            _ => s,
        },
        FindPhase::EncodingName(_) => match e {
            FindEvent::NameEncoded(b) => SessionModel {
                param: ParamModel::Blob(b@),
                phase: FindPhase::Searching,
                ..s
            },
            FindEvent::Failed(err) => failed(s, err),
            _ => s,
        },
        FindPhase::Searching => match e {
            FindEvent::Matched => SessionModel { phase: FindPhase::Matched, ..s },
            FindEvent::Exhausted => SessionModel { phase: FindPhase::Done, ..s },
            FindEvent::Failed(err) => failed(s, err),
            _ => s,
        },
        FindPhase::Matched => match e {
            FindEvent::Duplicated(d) => SessionModel {
                phase: FindPhase::Searching,
                found: s.found.push(d),
                ..s
            },
            FindEvent::Failed(err) => failed(s, err),
            _ => s,
        },
        FindPhase::Done => s,
    }
}

/// The outcome of a state: none before the search is over; then the error
/// that ended it, or every duplicated match in the store's order.
pub open spec fn outcome<D>(s: SessionModel<D>) -> Option<Result<Seq<D>, PlatformError>> {
    if s.phase != FindPhase::Done {
        None
    } else {
        match s.failure {
            Some(e) => Some(Err(e)),
            None => Some(Ok(s.found)),
        }
    }
}

/// The state after a sequence of events.
pub open spec fn run<D>(s: SessionModel<D>, evs: Seq<FindEvent<D>>) -> SessionModel<D>
    decreases evs.len(),
{
    if evs.len() == 0 {
        s
    } else {
        run(next(s, evs[0]), evs.drop_first())
    }
}

/// One search against a store: the decisions of the name encoding and of the
/// enumeration, with the handles found so far.
pub struct FindSession<D> {
    kind: FindKind,
    param: FindParam,
    phase: FindPhase,
    found: Vec<D>,
    failure: Option<PlatformError>,
}

impl<D> View for FindSession<D> {
    type V = SessionModel<D>;

    closed spec fn view(&self) -> SessionModel<D> {
        SessionModel {
            kind: self.kind,
            param: self.param@,
            phase: self.phase,
            found: self.found@,
            failure: self.failure,
        }
    }
}

impl<D> FindSession<D> {
    /// Begins a search for `query`.
    pub fn new(query: FindQuery) -> (r: FindSession<D>)
        ensures
            r@ == start::<D>(query.kind, query.param@),
    {
        let phase = if query.kind.by_name() {
            FindPhase::SizingName
        } else {
            FindPhase::Searching
        };
        FindSession { kind: query.kind, param: query.param, phase, found: Vec::new(), failure: None }
    }

    /// The action the search waits for.
    pub fn action(&self) -> (r: FindAction)
        ensures
            r == pending(self@),
    {
        match self.phase {
            FindPhase::SizingName => FindAction::MeasureName,
            FindPhase::EncodingName(n) => FindAction::EncodeName(n),
            FindPhase::Searching => FindAction::FindNext,
            FindPhase::Matched => FindAction::Duplicate,
            FindPhase::Done => FindAction::Finish,
        }
    }

    /// What the search matches on.
    pub fn kind(&self) -> (r: FindKind)
        ensures
            r == self@.kind,
    {
        self.kind
    }

    /// The parameter for the store's search calls, or the wide name to
    /// encode while the name is being encoded.
    pub fn param(&self) -> (r: &FindParam)
        ensures
            r@ == self@.param,
    {
        &self.param
    }

    /// The phase the search is in.
    pub fn phase(&self) -> (r: FindPhase)
        ensures
            r == self@.phase,
    {
        self.phase
    }

    /// Takes in what the driver reports and returns the next action.
    pub fn step(&mut self, event: FindEvent<D>) -> (r: FindAction)
        ensures
            final(self)@ == next(old(self)@, event),
            r == pending(final(self)@),
    {
        let ghost s = self@;
        match event {
            FindEvent::NameSize(n) => {
                if let FindPhase::SizingName = self.phase {
                    self.phase = FindPhase::EncodingName(n);
                }
            },
            FindEvent::NameEncoded(b) => {
                if let FindPhase::EncodingName(_) = self.phase {
                    self.param = FindParam::Blob(b);
                    self.phase = FindPhase::Searching;
                }
            },
            FindEvent::Matched => {
                if let FindPhase::Searching = self.phase {
                    self.phase = FindPhase::Matched;
                }
            },
            FindEvent::Exhausted => {
                if let FindPhase::Searching = self.phase {
                    self.phase = FindPhase::Done;
                }
            },
            FindEvent::Duplicated(d) => {
                if let FindPhase::Matched = self.phase {
                    self.found.push(d);
                    self.phase = FindPhase::Searching;
                }
            },
            FindEvent::Failed(err) => {
                if let FindPhase::Done = self.phase {
                } else {
                    self.failure = Some(err);
                    self.phase = FindPhase::Done;
                }
            },
        }
        self.action()
    }

    /// The outcome: `None` while the search is not over; else the error that
    /// ended it, or every duplicated match in the order the store gave them.
    pub fn into_outcome(self) -> (r: Option<Result<Vec<D>, PlatformError>>)
        ensures
            r is None <==> outcome(self@) is None,
            r matches Some(Err(e)) ==> outcome(self@) == Some(Err::<Seq<D>, PlatformError>(e)),
            r matches Some(Ok(v)) ==> outcome(self@) == Some(Ok::<Seq<D>, PlatformError>(v@)),
    {
        if let FindPhase::Done = self.phase {
            match self.failure {
                Some(e) => Some(Err(e)),
                None => Some(Ok(self.found)),
            }
        } else {
            None
        }
    }
}

} // verus!
