//! The identity of an evaluation: a digest over the fields that make up its content.

use crate::encode::encoding;
use crate::evals::{graders_json, graders_wire, OpenAiEval};
use crate::json::{Json, JsonView, ObjectBuilder};
use crate::simple::EvalSpec;
use crate::to_openai::{is_draft_of, lemma_same_grader, lemma_same_vars, lowers_to, same_spec};
use sha2::Digest;
use vstd::prelude::*;

verus! {

/// The SHA-256 digest of `data`, written as lower-case hexadecimal digits.
pub uninterp spec fn sha256_hex(data: Seq<u8>) -> Seq<char>;

/// Takes the SHA-256 digest of `data`.
///
/// Trusted: `sha2::Sha256` (through `Digest::new`, `update` and `finalize`) computes the
/// digest of the bytes given, and its `LowerHex` form writes it as hexadecimal digits.
/// The contract only gives the outcome its name: the same bytes always yield the same
/// digest.
#[verifier::external_body]
pub(crate) fn digest_hex(data: &Vec<u8>) -> (r: String)
    ensures
        r@ == sha256_hex(data@),
{
    let mut hasher = sha2::Sha256::new();
    hasher.update(data);
    format!("{:x}", hasher.finalize())
}

/// What the identity of an evaluation is taken over: its name, its data source and its
/// testing criteria, and nothing else.
pub open spec fn identity_json(eval: OpenAiEval) -> JsonView {
    JsonView::Object(
        seq![
            ("data_source_config"@, eval.data_source_config.wire()),
            ("name"@, JsonView::Str(eval.name@)),
            ("testing_criteria"@, graders_wire(eval.testing_criteria@)),
        ],
    )
}

/// The digest of an encoding, where there is one.
pub open spec fn digest_of(bytes: Option<Seq<u8>>) -> Option<Seq<char>> {
    match bytes {
        Some(b) => Some(sha256_hex(b)),
        None => None,
    }
}

/// The identity of an evaluation: the digest of the compact encoding of its content.
/// There is none where a number in the content is no number.
pub open spec fn identity_hash(eval: OpenAiEval) -> Option<Seq<char>> {
    digest_of(encoding(identity_json(eval)))
}

/// The view of a digest that may be missing.
pub open spec fn hash_view(h: Option<String>) -> Option<Seq<char>> {
    match h {
        Some(s) => Some(s@),
        None => None,
    }
}

/// The content of an evaluation, as the value that its identity is taken over.
pub fn identity_projection(eval: &OpenAiEval) -> (r: Json)
    ensures
        r@ == identity_json(*eval),
{
    let b = ObjectBuilder::new().with("data_source_config", eval.data_source_config.to_json()).with(
        "name",
        Json::text(eval.name.as_str()),
    ).with("testing_criteria", graders_json(&eval.testing_criteria));
    assert(b@ =~= identity_json(*eval)->Object_0);
    b.build()
}

/// The digest of the bytes that a value is encoded to.
pub fn digest_encoded(bytes: Option<Vec<u8>>) -> (r: Option<String>)
    ensures
        hash_view(r) == digest_of(
            match bytes {
                Some(b) => Some(b@),
                None => None,
            },
        ),
{
    match bytes {
        Some(b) => Some(digest_hex(&b)),
        None => None,
    }
}

/// The identity of an evaluation. Its identifier, its time of creation and its metadata
/// have no part in it.
pub fn content_hash(eval: &OpenAiEval) -> (r: Option<String>)
    ensures
        hash_view(r) == identity_hash(*eval),
{
    let projection = identity_projection(eval);
    digest_encoded(projection.encode())
}

/// Two evaluations with the same name, the same data source and the same testing
/// criteria have the same identity, whatever their identifiers, times of creation and
/// metadata are.
pub proof fn lemma_identity_is_of_content(a: OpenAiEval, b: OpenAiEval)
    requires
        a.name@ == b.name@,
        a.data_source_config.wire() == b.data_source_config.wire(),
        graders_wire(a.testing_criteria@) == graders_wire(b.testing_criteria@),
    ensures
        identity_hash(a) == identity_hash(b),
{
}

/// Whether the `i`-th grader of `eval` is what the `i`-th test of `spec` is lowered to.
pub open spec fn lowers_to_at(spec: EvalSpec, eval: OpenAiEval, i: int) -> bool {
    lowers_to(spec.tests@[i], eval.testing_criteria@[i])
}

/// The identity of what a specification is lowered to rests on what the specification
/// says and on nothing else: two specifications that say the same, such as one and what
/// comes of writing it out and reading it again, are lowered to evaluations of the same
/// identity.
pub proof fn law_identity_is_stable(a: EvalSpec, b: EvalSpec, da: OpenAiEval, db: OpenAiEval)
    requires
        same_spec(a, b),
        is_draft_of(a, da),
        is_draft_of(b, db),
    ensures
        identity_hash(da) == identity_hash(db),
{
    lemma_same_vars(a.tests@, b.tests@, 0, Seq::empty());
    assert forall|i: int| 0 <= i < a.tests@.len() implies da.testing_criteria@[i].wire()
        == db.testing_criteria@[i].wire() by {
        assert(lowers_to_at(a, da, i));
        assert(lowers_to_at(b, db, i));
        lemma_same_grader(a.tests@[i], b.tests@[i], da.testing_criteria@[i], db.testing_criteria@[i]);
    }
    assert(graders_wire(da.testing_criteria@)->Array_0 =~= graders_wire(db.testing_criteria@)->Array_0);
    lemma_identity_is_of_content(da, db);
}

} // verus!
