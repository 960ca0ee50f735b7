//! The local mirror of what the remote service holds, and when it is renewed.

use crate::client::text_view;
use crate::evals::{OpenAiEval, OpenAiListAllEvalsRequest, OpenAiListEvalsPageRequest};
use crate::identity::{content_hash, identity_hash};
use crate::text::str_eq;
use vstd::prelude::*;

verus! {

/// For how many seconds the mirror counts as fresh.
pub const FRESHNESS_WINDOW: i64 = 300;

/// The mirror: when it was written, in seconds of Unix time, and the evaluations of the
/// service, the one changed last first.
#[derive(Debug)]
pub struct OpenAiLocalEvalsFile {
    pub updated_at: i64,
    pub evals: Vec<OpenAiEval>,
}

impl OpenAiLocalEvalsFile {
    /// The mirror that holds nothing: what is used where none was written yet.
    pub fn empty() -> (r: Self)
        ensures
            r.updated_at == 0,
            r.evals@.len() == 0,
    {
        OpenAiLocalEvalsFile { updated_at: 0, evals: Vec::new() }
    }
}

/// What has happened in a synchronisation.
#[derive(Debug)]
pub enum SyncEvent {
    /// It begins, at the given time.
    Begin { now: i64 },
    /// The evaluation of the service that was changed last was asked for, and this came
    /// back.
    Probed { latest: Option<OpenAiEval> },
    /// The whole listing was read, and the time is the given one.
    Listed { now: i64, evals: Vec<OpenAiEval> },
}

/// What is to be done next in a synchronisation.
#[derive(Debug)]
pub enum SyncAction {
    /// The synchronisation ends with these evaluations, those of the mirror.
    Return(Vec<OpenAiEval>),
    /// One page is to be asked for, to learn which evaluation was changed last.
    Probe(OpenAiListEvalsPageRequest),
    /// The whole listing is to be read.
    ListAll(OpenAiListAllEvalsRequest),
    /// This mirror is to be written in place of the old one, and the synchronisation
    /// ends with its evaluations.
    Store(OpenAiLocalEvalsFile),
}

/// Whether a mirror written at `updated_at` is fresh at `now`: less than the window has
/// passed.
pub open spec fn is_fresh(now: i64, updated_at: i64) -> bool {
    now - updated_at < FRESHNESS_WINDOW
}

/// The identity by which an evaluation that may be missing is compared: the identity of
/// its content, and the empty text where there is none.
pub open spec fn probe_hash(e: Option<OpenAiEval>) -> Seq<char> {
    match e {
        Some(x) => match identity_hash(x) {
            Some(h) => h,
            None => Seq::empty(),
        },
        None => Seq::empty(),
    }
}

/// The first of a list of evaluations, if there is one.
pub open spec fn first_of(evals: Seq<OpenAiEval>) -> Option<OpenAiEval> {
    if evals.len() > 0 {
        Some(evals[0])
    } else {
        None
    }
}

/// Whether this is the request for the one evaluation that was changed last.
pub open spec fn is_probe(r: OpenAiListEvalsPageRequest, project: Option<String>) -> bool {
    &&& text_view(r.project) == text_view(project)
    &&& r.after is None
    &&& r.limit == Some(1u32)
    &&& r.order matches Some(o)
    &&& o@ == "desc"@
    &&& r.order_by matches Some(b)
    &&& b@ == "updated_at"@
}

/// Whether this is the request for the whole listing, what was changed last first.
pub open spec fn is_full_listing(r: OpenAiListAllEvalsRequest, project: Option<String>) -> bool {
    &&& text_view(r.project) == text_view(project)
    &&& r.order matches Some(o)
    &&& o@ == "desc"@
    &&& r.order_by matches Some(b)
    &&& b@ == "updated_at"@
}

/// The identity by which an evaluation that may be missing is compared.
pub fn hash_for_probe(e: Option<&OpenAiEval>) -> (r: String)
    ensures
        r@ == probe_hash(
            match e {
                Some(x) => Some(*x),
                None => None,
            },
        ),
{
    match e {
        Some(x) => match content_hash(x) {
            Some(h) => h,
            None => String::new(),
        },
        None => String::new(),
    }
}

/// Whether a mirror written at `updated_at` is fresh at `now`.
pub fn fresh(now: i64, updated_at: i64) -> (r: bool)
    ensures
        r == is_fresh(now, updated_at),
{
    (now as i128) - (updated_at as i128) < (FRESHNESS_WINDOW as i128)
}

/// The synchronisation of the local mirror.
#[derive(Debug)]
pub struct OpenAiLocalEvals;

impl OpenAiLocalEvals {
    /// The next step of a synchronisation, given the mirror as it was read and what has
    /// happened.
    ///
    /// At the beginning a fresh mirror is returned as it is, unless the synchronisation
    /// is forced; else the evaluation changed last is asked for. When that has come, and
    /// its identity is that of the first evaluation of the mirror, the mirror is
    /// returned as it is, though it is not fresh, and the whole listing is not read;
    /// else the whole listing is asked for. When that has come, a new mirror made of it
    /// and of the time takes the place of the old one.
    pub fn sync(
        cache: OpenAiLocalEvalsFile,
        force: bool,
        project: Option<String>,
        event: SyncEvent,
    ) -> (r: SyncAction)
        ensures
            match event {
                SyncEvent::Begin { now } => if !force && is_fresh(now, cache.updated_at) {
                    r matches SyncAction::Return(evals) && evals == cache.evals
                } else {
                    r matches SyncAction::Probe(request) && is_probe(request, project)
                },
                SyncEvent::Probed { latest } => if probe_hash(latest) == probe_hash(
                    first_of(cache.evals@),
                ) {
                    r matches SyncAction::Return(evals) && evals == cache.evals
                } else {
                    r matches SyncAction::ListAll(request) && is_full_listing(request, project)
                },
                SyncEvent::Listed { now, evals } => r matches SyncAction::Store(file)
                    && file.updated_at == now && file.evals == evals,
            },
    {
        match event {
            SyncEvent::Begin { now } => {
                if !force && fresh(now, cache.updated_at) {
                    SyncAction::Return(cache.evals)
                } else {
                    SyncAction::Probe(
                        OpenAiListEvalsPageRequest {
                            project,
                            after: None,
                            limit: Some(1),
                            order: Some("desc"),
                            order_by: Some("updated_at"),
                        },
                    )
                }
            },
            SyncEvent::Probed { latest } => {
                let remote_hash = hash_for_probe(latest.as_ref());
                let local_hash = if cache.evals.len() > 0 {
                    hash_for_probe(Some(&cache.evals[0]))
                } else {
                    hash_for_probe(None)
                };
                if str_eq(local_hash.as_str(), remote_hash.as_str()) {
                    SyncAction::Return(cache.evals)
                } else {
                    SyncAction::ListAll(
                        OpenAiListAllEvalsRequest {
                            project,
                            order: Some("desc"),
                            order_by: Some("updated_at"),
                        },
                    )
                }
            },
            SyncEvent::Listed { now, evals } => SyncAction::Store(
                OpenAiLocalEvalsFile { updated_at: now, evals },
            ),
        }
    }
}

} // verus!
