//! Reconciliation: what is to be done at the remote service for each local
//! specification, given what the service holds.

use crate::evals::{
    OpenAiCustomDataSourceConfigUpsert, OpenAiDataSourceConfig, OpenAiDataSourceConfigUpsert,
    OpenAiEval, OpenAiEvalUpsert, OpenAiLogsDataSourceConfigUpsert,
    OpenAiStoredCompletionsDataSourceConfigUpsert,
};
use crate::identity::{content_hash, identity_hash};
use crate::json::{field, JsonView};
use crate::literal::{
    OpenAiCustomDataSourceConfigType, OpenAiLogsDataSourceConfigType,
    OpenAiStoredCompletionsDataSourceConfigType,
};
use crate::simple::EvalSpec;
use crate::text::str_eq;
use crate::textmap::{lookup, put, TextMap};
use crate::to_openai::{
    chosen, is_draft_of, item_schema, lowers_to, valid_before, wrapped, ValidationError,
};
use vstd::prelude::*;

verus! {

/// The key of the metadata under which the name of the local specification stands.
pub const NAME_KEY: &'static str = "xeval_name";

/// The key of the metadata under which the identity of the content stands.
pub const HASH_KEY: &'static str = "xeval_hash";

/// The entries of metadata that may be missing.
pub open spec fn metadata_view(m: Option<TextMap<String>>) -> Option<Seq<(Seq<char>, Seq<char>)>> {
    match m {
        Some(x) => Some(x@),
        None => None,
    }
}

/// The schema of the items in the schema of a data source: what stands under
/// `properties` and then `item`, or the whole schema where nothing stands there.
pub open spec fn upsert_item_schema(schema: JsonView) -> JsonView {
    match field(schema, "properties"@) {
        Some(p) => match field(p, "item"@) {
            Some(i) => i,
            None => schema,
        },
        None => schema,
    }
}

/// Whether `u` is the form in which the data source `c` is sent when an evaluation is
/// created.
pub open spec fn is_upsert_of(c: OpenAiDataSourceConfig, u: OpenAiDataSourceConfigUpsert) -> bool {
    match c {
        OpenAiDataSourceConfig::Custom(x) => {
            &&& u matches OpenAiDataSourceConfigUpsert::Custom(y)
            &&& y.item_schema@ == upsert_item_schema(x.schema@)
            &&& y.include_sample_schema == Some(true)
        },
        OpenAiDataSourceConfig::Logs(x) => {
            &&& u matches OpenAiDataSourceConfigUpsert::Logs(y)
            &&& metadata_view(y.metadata) == metadata_view(x.metadata)
        },
        OpenAiDataSourceConfig::StoredCompletions(x) => {
            &&& u matches OpenAiDataSourceConfigUpsert::StoredCompletions(y)
            &&& metadata_view(y.metadata) == metadata_view(x.metadata)
        },
    }
}

/// A copy of metadata that may be missing.
pub fn copy_metadata(m: &Option<TextMap<String>>) -> (r: Option<TextMap<String>>)
    ensures
        metadata_view(r) == metadata_view(*m),
{
    match m {
        Some(x) => Some(x.copy()),
        None => None,
    }
}

/// The form in which a data source is sent when an evaluation is created. Of a custom
/// data source only the schema of the items is sent; the service adds the schema of a
/// sample itself.
pub fn map_upsert_config(cfg: &OpenAiDataSourceConfig) -> (r: OpenAiDataSourceConfigUpsert)
    ensures
        is_upsert_of(*cfg, r),
{
    match cfg {
        OpenAiDataSourceConfig::Custom(c) => {
            let item_schema = match c.schema.get("properties") {
                Some(p) => match p.get("item") {
                    Some(i) => i.copy(),
                    None => c.schema.copy(),
                },
                None => c.schema.copy(),
            };
            OpenAiDataSourceConfigUpsert::Custom(
                OpenAiCustomDataSourceConfigUpsert {
                    kind: OpenAiCustomDataSourceConfigType,
                    item_schema,
                    include_sample_schema: Some(true),
                },
            )
        },
        OpenAiDataSourceConfig::Logs(c) => OpenAiDataSourceConfigUpsert::Logs(
            OpenAiLogsDataSourceConfigUpsert {
                kind: OpenAiLogsDataSourceConfigType,
                metadata: copy_metadata(&c.metadata),
            },
        ),
        OpenAiDataSourceConfig::StoredCompletions(c) => OpenAiDataSourceConfigUpsert::StoredCompletions(
            OpenAiStoredCompletionsDataSourceConfigUpsert {
                kind: OpenAiStoredCompletionsDataSourceConfigType,
                metadata: copy_metadata(&c.metadata),
            },
        ),
    }
}

/// What is sent for a wrapped item schema is the item schema: the wrapping that the
/// lowering puts around it is taken off again.
pub proof fn lemma_unwraps(item: JsonView)
    ensures
        upsert_item_schema(wrapped(item)) == item,
{
    let w = wrapped(item);
    let members = w->Object_0;
    assert(members[0].0 == "properties"@);
    let p = members[0].1;
    let inner = p->Object_0;
    assert(inner[0].0 == "item"@);
    assert(inner[0].1 == item);
}

/// The local name that a remote evaluation is marked with, if it is marked.
pub open spec fn remote_name(e: OpenAiEval) -> Option<Seq<char>> {
    match e.metadata {
        Some(m) => lookup(m@, NAME_KEY@),
        None => None,
    }
}

/// The identity that a remote evaluation is marked with; the empty text where it is not
/// marked.
pub open spec fn stored_hash(e: OpenAiEval) -> Seq<char> {
    match e.metadata {
        Some(m) => match lookup(m@, HASH_KEY@) {
            Some(h) => h,
            None => Seq::empty(),
        },
        None => Seq::empty(),
    }
}

/// Among the first `n` remote evaluations, the one that stands for `name`: of those
/// marked with the name the one created last, and of several created at the same time
/// the first.
pub open spec fn latest_upto(remote: Seq<OpenAiEval>, name: Seq<char>, n: int) -> Option<int>
    decreases n,
{
    if n <= 0 {
        None
    } else if remote_name(remote[n - 1]) == Some(name) {
        match latest_upto(remote, name, n - 1) {
            Some(p) => if remote[n - 1].created_at > remote[p].created_at {
                Some(n - 1)
            } else {
                Some(p)
            },
            None => Some(n - 1),
        }
    } else {
        latest_upto(remote, name, n - 1)
    }
}

/// The remote evaluation that stands for `name`, by its place.
pub open spec fn latest(remote: Seq<OpenAiEval>, name: Seq<char>) -> Option<int> {
    latest_upto(remote, name, remote.len() as int)
}

/// What `latest_upto` picks is marked with the name, and none marked with the name was
/// created later, nor at the same time and stands before it.
pub proof fn lemma_latest_is_last_created(remote: Seq<OpenAiEval>, name: Seq<char>, n: int)
    requires
        0 <= n <= remote.len(),
    ensures
        match latest_upto(remote, name, n) {
            Some(k) => {
                &&& 0 <= k < n
                &&& remote_name(remote[k]) == Some(name)
                &&& forall|j: int|
                    0 <= j < n && remote_name(#[trigger] remote[j]) == Some(name)
                        ==> remote[j].created_at < remote[k].created_at || (remote[j].created_at
                        == remote[k].created_at && k <= j)
            },
            None => forall|j: int| 0 <= j < n ==> remote_name(#[trigger] remote[j]) != Some(name),
        },
    decreases n,
{
    if n > 0 {
        lemma_latest_is_last_created(remote, name, n - 1);
    }
}

/// The name that an evaluation is marked with.
pub fn marked_name(e: &OpenAiEval) -> (r: Option<&String>)
    ensures
        match r {
            Some(s) => remote_name(*e) == Some(s@),
            None => remote_name(*e) is None,
        },
{
    match &e.metadata {
        Some(m) => m.get(NAME_KEY),
        None => None,
    }
}

/// Finds the remote evaluation that stands for `name`.
pub fn find_remote(remote: &Vec<OpenAiEval>, name: &str) -> (r: Option<usize>)
    ensures
        match r {
            Some(k) => latest(remote@, name@) == Some(k as int) && k < remote@.len(),
            None => latest(remote@, name@) is None,
        },
{
    let mut best: Option<usize> = None;
    let mut i: usize = 0;
    while i < remote.len()
        invariant
            i <= remote.len(),
            match best {
                Some(k) => latest_upto(remote@, name@, i as int) == Some(k as int) && k < i,
                None => latest_upto(remote@, name@, i as int) is None,
            },
        decreases remote.len() - i,
    {
        let is_named = match marked_name(&remote[i]) {
            Some(n) => str_eq(n.as_str(), name),
            None => false,
        };
        if is_named {
            best = match best {
                Some(p) => if remote[i].created_at > remote[p].created_at {
                    Some(i)
                } else {
                    Some(p)
                },
                None => Some(i),
            };
        }
        i += 1;
    }
    best
}

/// Metadata marked with the name of the local specification and the identity of its
/// content.
pub open spec fn stamped(md: Seq<(Seq<char>, Seq<char>)>, name: Seq<char>, hash: Seq<char>) -> Seq<
    (Seq<char>, Seq<char>),
> {
    put(put(md, NAME_KEY@, name), HASH_KEY@, hash)
}

/// What is to be done at the remote service for one local specification.
#[derive(Debug)]
pub enum Decision {
    /// A new evaluation is created from what is given.
    Create(OpenAiEvalUpsert),
    /// The name and the metadata of the evaluation `remote_id` are set; its content stays.
    PatchMetadata { remote_id: String, name: String, metadata: TextMap<String> },
    /// Nothing is done.
    NoOp,
}

/// What was done at the remote service for the local specification of the given name.
#[derive(Debug)]
pub enum Effect {
    NoOp(String),
    Patched(String),
    Created(String),
}

/// Why no decision could be taken for a specification.
#[derive(Debug, Clone, Copy, PartialEq, Eq, Structural)]
pub enum ReconcileError {
    /// The specification cannot be lowered.
    Validation(ValidationError),
    /// The content of what the specification is lowered to has no identity.
    Identity,
}

impl ReconcileError {
    pub open spec fn text(self) -> Seq<char> {
        match self {
            ReconcileError::Validation(_) => "string test requires exactly one of eq/ne/like/ilike"@,
            ReconcileError::Identity => "the content of the eval cannot be hashed"@,
        }
    }

    /// What went wrong, in words.
    pub fn message(&self) -> (r: String)
        ensures
            r@ == self.text(),
    {
        match self {
            ReconcileError::Validation(e) => e.message(),
            ReconcileError::Identity => "the content of the eval cannot be hashed".to_owned(),
        }
    }
}

/// The three courses that a decision can take.
pub enum Verdict {
    Create,
    Patch,
    NoOp,
}

/// The course to take for a specification whose content has the identity `local`, given
/// the remote evaluation that stands for its name: none there, or one of other content,
/// means that a new one is created; one of the same content is left as it is, but for
/// its metadata where that is not marked with the identity.
pub open spec fn verdict(local: Seq<char>, found: Option<OpenAiEval>) -> Verdict {
    match found {
        None => Verdict::Create,
        Some(e) => if identity_hash(e) == Some(local) {
            if stored_hash(e) != local {
                Verdict::Patch
            } else {
                Verdict::NoOp
            }
        } else {
            Verdict::Create
        },
    }
}

/// The remote evaluation that stands for `name`.
pub open spec fn found(remote: Seq<OpenAiEval>, name: Seq<char>) -> Option<OpenAiEval> {
    match latest(remote, name) {
        Some(k) => Some(remote[k]),
        None => None,
    }
}

/// Whether `u` creates the evaluation that `spec` is lowered to, marked with `metadata`.
pub open spec fn creates(spec: EvalSpec, metadata: Seq<(Seq<char>, Seq<char>)>, u: OpenAiEvalUpsert) -> bool {
    &&& u.name@ == spec.name@
    &&& metadata_view(u.metadata) == Some(metadata)
    &&& u.data_source_config matches OpenAiDataSourceConfigUpsert::Custom(c)
    &&& c.item_schema@ == item_schema(spec.schema@, spec.tests@)
    &&& c.include_sample_schema == Some(true)
    &&& u.testing_criteria@.len() == spec.tests@.len()
    &&& forall|i: int|
        0 <= i < spec.tests@.len() ==> lowers_to(#[trigger] spec.tests@[i], u.testing_criteria@[i])
}

/// Whether `d` is the decision for `spec` whose content has the identity `local`, given
/// the remote evaluation that stands for its name.
pub open spec fn decides(spec: EvalSpec, local: Seq<char>, target: Option<OpenAiEval>, d: Decision) -> bool {
    match verdict(local, target) {
        Verdict::Create => d matches Decision::Create(u) && creates(
            spec,
            stamped(Seq::empty(), spec.name@, local),
            u,
        ),
        Verdict::Patch => {
            &&& d matches Decision::PatchMetadata { remote_id, name, metadata }
            &&& target matches Some(e)
            &&& remote_id@ == e.id@
            &&& name@ == spec.name@
            &&& metadata@ == stamped(Seq::empty(), spec.name@, local)
        },
        Verdict::NoOp => d is NoOp,
    }
}

/// The decision for a specification that was lowered to `draft`, whose content has the
/// identity `local`, given the remote evaluation that stands for its name.
pub fn decide_for(spec: &EvalSpec, draft: OpenAiEval, local: String, target: Option<&OpenAiEval>) -> (r:
    Decision)
    requires
        is_draft_of(*spec, draft),
    ensures
        decides(
            *spec,
            local@,
            match target {
                Some(e) => Some(*e),
                None => None,
            },
            r,
        ),
{
    let mut md: TextMap<String> = TextMap::new();
    md.insert(NAME_KEY.to_owned(), spec.name.clone());
    md.insert(HASH_KEY.to_owned(), local.clone());
    let create = match target {
        None => true,
        Some(e) => {
            let same = match content_hash(e) {
                Some(h) => str_eq(h.as_str(), local.as_str()),
                None => false,
            };
            if same {
                let stored = match &e.metadata {
                    Some(m) => match m.get(HASH_KEY) {
                        Some(h) => str_eq(h.as_str(), local.as_str()),
                        None => str_eq("", local.as_str()),
                    },
                    None => str_eq("", local.as_str()),
                };
                proof {
                    reveal_strlit("");
                    assert(""@ =~= Seq::<char>::empty());
                }
                if !stored {
                    return Decision::PatchMetadata {
                        remote_id: e.id.clone(),
                        name: spec.name.clone(),
                        metadata: md,
                    };
                }
                return Decision::NoOp;
            }
            true
        },
    };
    proof {
        lemma_unwraps(item_schema(spec.schema@, spec.tests@));
    }
    Decision::Create(
        OpenAiEvalUpsert {
            name: spec.name.clone(),
            metadata: Some(md),
            data_source_config: map_upsert_config(&draft.data_source_config),
            testing_criteria: draft.testing_criteria,
        },
    )
}

/// Whether `r` is the outcome of deciding for `spec`, given what the remote service holds.
pub open spec fn decided(spec: EvalSpec, remote: Seq<OpenAiEval>, r: Result<Decision, ReconcileError>) -> bool {
    match r {
        Ok(d) => {
            &&& valid_before(spec.tests@, spec.tests@.len() as int)
            &&& exists|draft: OpenAiEval| #[trigger]
                is_draft_of(spec, draft) && identity_hash(draft) is Some && decides(
                    spec,
                    identity_hash(draft)->0,
                    found(remote, spec.name@),
                    d,
                )
        },
        Err(ReconcileError::Validation(e)) => exists|k: int|
            0 <= k < spec.tests@.len() && valid_before(spec.tests@, k) && chosen(
                #[trigger] spec.tests@[k],
            ) is None && e == (ValidationError::AmbiguousOperator { index: k as usize }),
        Err(ReconcileError::Identity) => {
            &&& valid_before(spec.tests@, spec.tests@.len() as int)
            &&& exists|draft: OpenAiEval| #[trigger]
                is_draft_of(spec, draft) && identity_hash(draft) is None
        },
    }
}

/// Decides what is to be done for one local specification, given what the remote service
/// holds. The specification is lowered, the identity of its content is taken, and the
/// remote evaluation that stands for its name is looked up: where there is none, or one
/// of other content, a new one is to be created; where there is one of the same content
/// whose metadata is not marked with that identity, its metadata is to be set; else
/// nothing is to be done. An existing evaluation is never changed in its content.
pub fn decide(spec: &EvalSpec, remote: &Vec<OpenAiEval>) -> (r: Result<Decision, ReconcileError>)
    ensures
        decided(*spec, remote@, r),
{
    let draft = match spec.to_openai_eval() {
        Ok(d) => d,
        Err(e) => {
            return Err(ReconcileError::Validation(e));
        },
    };
    let local = match content_hash(&draft) {
        Some(h) => h,
        None => {
            assert(is_draft_of(*spec, draft) && identity_hash(draft) is None);
            return Err(ReconcileError::Identity);
        },
    };
    let ghost witness = draft;
    let target = match find_remote(remote, spec.name.as_str()) {
        Some(k) => Some(&remote[k]),
        None => None,
    };
    let d = decide_for(spec, draft, local, target);
    assert(is_draft_of(*spec, witness) && identity_hash(witness) is Some && decides(
        *spec,
        identity_hash(witness)->0,
        found(remote@, spec.name@),
        d,
    ));
    Ok(d)
}

/// What a decision, once carried out, has done for the specification of the given name.
pub fn effect_of(d: &Decision, name: &str) -> (r: Effect)
    ensures
        match *d {
            Decision::Create(_) => r matches Effect::Created(n) && n@ == name@,
            Decision::PatchMetadata { .. } => r matches Effect::Patched(n) && n@ == name@,
            Decision::NoOp => r matches Effect::NoOp(n) && n@ == name@,
        },
{
    match d {
        Decision::Create(_) => Effect::Created(name.to_owned()),
        Decision::PatchMetadata { .. } => Effect::Patched(name.to_owned()),
        Decision::NoOp => Effect::NoOp(name.to_owned()),
    }
}

/// The command that brings the remote service up to the local specifications.
#[derive(Debug)]
pub struct EvalCmd {}

impl EvalCmd {
    /// Whether there is anything to do at the remote service: with no local
    /// specification there is not, and neither the credential nor the remote listing is
    /// asked for.
    pub fn needs_remote(specs: &Vec<EvalSpec>) -> (r: bool)
        ensures
            r == (specs@.len() > 0),
    {
        specs.len() > 0
    }

    /// Decides for each of the local specifications in turn, against the same view of
    /// the remote service: what one decision will create is not seen by the next. The
    /// decisions stop at the first specification for which none can be taken.
    pub fn run(specs: &Vec<EvalSpec>, remote: &Vec<OpenAiEval>) -> (r: (
        Vec<Decision>,
        Option<ReconcileError>,
    ))
        ensures
            r.0@.len() <= specs@.len(),
            forall|i: int|
                0 <= i < r.0@.len() ==> decided(#[trigger] specs@[i], remote@, Ok(r.0@[i])),
            match r.1 {
                Some(e) => r.0@.len() < specs@.len() && decided(
                    specs@[r.0@.len() as int],
                    remote@,
                    Err(e),
                ),
                None => r.0@.len() == specs@.len(),
            },
    {
        let mut decisions: Vec<Decision> = Vec::new();
        let mut i: usize = 0;
        while i < specs.len()
            invariant
                i <= specs.len(),
                decisions@.len() == i,
                forall|j: int|
                    0 <= j < i ==> decided(#[trigger] specs@[j], remote@, Ok(decisions@[j])),
            decreases specs.len() - i,
        {
            match decide(&specs[i], remote) {
                Ok(d) => {
                    decisions.push(d);
                },
                Err(e) => {
                    return (decisions, Some(e));
                },
            }
            i += 1;
        }
        (decisions, None)
    }
}

/// A specification whose name stands for a remote evaluation of other content gets a new
/// evaluation created: the decision is to create, and names no existing evaluation, so
/// that the one that is there stays as it is.
pub proof fn law_create_on_drift(spec: EvalSpec, local: Seq<char>, e: OpenAiEval, d: Decision)
    requires
        decides(spec, local, Some(e), d),
        identity_hash(e) != Some(local),
    ensures
        d is Create,
{
}

/// A specification whose name stands for a remote evaluation of the same content, marked
/// with the identity of that content, needs nothing done.
pub proof fn law_current_is_noop(spec: EvalSpec, local: Seq<char>, e: OpenAiEval, d: Decision)
    requires
        decides(spec, local, Some(e), d),
        identity_hash(e) == Some(local),
        stored_hash(e) == local,
    ensures
        d is NoOp,
{
}

/// Metadata that was marked holds the name and the identity it was marked with.
pub proof fn lemma_stamped_holds(name: Seq<char>, hash: Seq<char>)
    ensures
        lookup(stamped(Seq::empty(), name, hash), NAME_KEY@) == Some(name),
        lookup(stamped(Seq::empty(), name, hash), HASH_KEY@) == Some(hash),
{
    reveal_strlit("xeval_name");
    reveal_strlit("xeval_hash");
    let empty = Seq::<(Seq<char>, Seq<char>)>::empty();
    assert(NAME_KEY@ != HASH_KEY@) by {
        assert(NAME_KEY@[6] == 'n');
        assert(HASH_KEY@[6] == 'h');
    }
    crate::textmap::lemma_put_ascending(empty, NAME_KEY@, name);
    crate::textmap::lemma_put_then_lookup(empty, NAME_KEY@, name);
    let first = put(empty, NAME_KEY@, name);
    crate::textmap::lemma_put_then_lookup(first, HASH_KEY@, hash);
    crate::textmap::lemma_put_keeps_others(first, HASH_KEY@, hash, NAME_KEY@);
}

/// Whether `after` is `before` with one more evaluation, at the place `p`: one that holds
/// content of the identity `local`, is marked with `name` and that identity, and is
/// younger than every other that is marked with the name.
pub open spec fn holds_created(
    before: Seq<OpenAiEval>,
    after: Seq<OpenAiEval>,
    name: Seq<char>,
    local: Seq<char>,
    p: int,
) -> bool {
    &&& 0 <= p < after.len()
    &&& after.remove(p) == before
    &&& metadata_view(after[p].metadata) == Some(stamped(Seq::empty(), name, local))
    &&& identity_hash(after[p]) == Some(local)
    &&& forall|j: int|
        0 <= j < before.len() && remote_name(#[trigger] before[j]) == Some(name)
            ==> before[j].created_at < after[p].created_at
}

/// Whether `after` is what the remote service holds once the decision `d` for the
/// specification named `name`, of content with the identity `local`, was carried out on
/// `before`, and nothing else has changed: a created evaluation stands somewhere among
/// the others, which are as they were; a patched one has its metadata set and is
/// otherwise as it was.
pub open spec fn carried_out(
    before: Seq<OpenAiEval>,
    after: Seq<OpenAiEval>,
    name: Seq<char>,
    local: Seq<char>,
    d: Decision,
) -> bool {
    match d {
        Decision::Create(_) => exists|p: int| holds_created(before, after, name, local, p),
        Decision::PatchMetadata { .. } => {
            &&& after.len() == before.len()
            &&& latest(before, name) matches Some(k)
            &&& forall|j: int| 0 <= j < before.len() && j != k ==> #[trigger] after[j] == before[j]
            &&& metadata_view(after[k].metadata) == Some(stamped(Seq::empty(), name, local))
            &&& identity_hash(after[k]) == identity_hash(before[k])
            &&& after[k].created_at == before[k].created_at
        },
        Decision::NoOp => after == before,
    }
}

/// Reconciling a second time, with nothing changed at either side in between, decides
/// that nothing is to be done: whatever the first decision was, once it is carried out
/// the remote evaluation that stands for the name holds the content of the
/// specification and is marked with its identity.
pub proof fn law_second_run_is_noop(
    spec: EvalSpec,
    local: Seq<char>,
    before: Seq<OpenAiEval>,
    after: Seq<OpenAiEval>,
    first: Decision,
    second: Decision,
)
    requires
        decides(spec, local, found(before, spec.name@), first),
        carried_out(before, after, spec.name@, local, first),
        decides(spec, local, found(after, spec.name@), second),
    ensures
        second is NoOp,
{
    let name = spec.name@;
    lemma_stamped_holds(name, local);
    lemma_latest_is_last_created(before, name, before.len() as int);
    lemma_latest_is_last_created(after, name, after.len() as int);
    match first {
        Decision::Create(_) => {
            let p = choose|p: int| holds_created(before, after, name, local, p);
            assert(remote_name(after[p]) == Some(name));
            let k = latest(after, name)->0;
            if k != p {
                let at = if k < p {
                    k
                } else {
                    k - 1
                };
                assert(after.remove(p)[at] == after[k]);
                assert(remote_name(before[at]) == Some(name));
            }
            assert(stored_hash(after[p]) == local);
        },
        Decision::PatchMetadata { .. } => {
            let k = latest(before, name)->0;
            assert(remote_name(after[k]) == Some(name));
            let m = latest(after, name)->0;
            if m != k {
                assert(after[m] == before[m]);
                assert(remote_name(before[m]) == Some(name));
            }
            assert(stored_hash(after[k]) == local);
        },
        Decision::NoOp => {},
    }
}

} // verus!
