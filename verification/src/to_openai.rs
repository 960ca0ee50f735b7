//! Lowering a specification to the evaluation that the remote service is to hold.

use crate::evals::{
    OpenAiCustomDataSourceConfig, OpenAiDataSourceConfig, OpenAiEval, OpenAiGrader,
    OpenAiGraderStringCheck, OpenAiGraderStringCheckOperation,
};
use crate::json::{Json, JsonView, ObjectBuilder};
use crate::literal::{
    OpenAiCustomDataSourceConfigType, OpenAiEvalObject, OpenAiGraderStringCheckType,
};
use crate::schema::{
    name_array, names_json, object_schema, sample_schema, sample_schema_view, typed, typed_json,
};
use crate::simple::{EvalSpec, SimpleFieldType, TestSpec};
use crate::template::{
    collect_item_vars, item_vars, translate_template_placeholders, translated,
};
use crate::text::{
    ascii_lower, char_ascii_lower, char_is_ascii_alnum, chars_of, concat2, is_ascii_alnum,
    string_of,
};
use crate::textmap::{
    has_key, keys_ascending, lemma_lookup_absent, lemma_put_ascending, lemma_put_keeps_others,
    lemma_put_then_lookup, lookup, put, TextMap,
};
use vstd::prelude::*;

verus! {

/// Why a specification cannot be lowered.
#[derive(Debug, Clone, Copy, PartialEq, Eq, Structural)]
pub enum ValidationError {
    /// The test at `index` names none of `eq`, `ne`, `like` and `ilike`, or more than one.
    AmbiguousOperator { index: usize },
}

impl ValidationError {
    /// What is wrong, in words.
    pub fn message(&self) -> (r: String)
        ensures
            r@ == "string test requires exactly one of eq/ne/like/ilike"@,
    {
        "string test requires exactly one of eq/ne/like/ilike".to_owned()
    }
}

/// One step of making a slug: a letter or digit is taken in lower case, behind a hyphen
/// where something was skipped since the last one taken; anything else is skipped.
pub open spec fn slug_step(acc: Seq<char>, gap: bool, c: char) -> (Seq<char>, bool) {
    if is_ascii_alnum(c) {
        (
            (if gap && acc.len() > 0 {
                acc.push('-')
            } else {
                acc
            }).push(ascii_lower(c)),
            false,
        )
    } else {
        (acc, true)
    }
}

pub open spec fn slug_from(s: Seq<char>, i: int, acc: Seq<char>, gap: bool) -> Seq<char>
    decreases s.len() - i,
{
    if i < 0 || i >= s.len() {
        acc
    } else {
        slug_from(s, i + 1, slug_step(acc, gap, s[i]).0, slug_step(acc, gap, s[i]).1)
    }
}

/// The slug of a name: its ASCII letters and digits in lower case, every run of other
/// characters between two of them turned into one hyphen.
pub open spec fn slug(s: Seq<char>) -> Seq<char> {
    slug_from(s, 0, Seq::empty(), false)
}

/// Whether `t` is made of lower-case letters, digits and single hyphens, with no hyphen
/// at either end.
pub open spec fn is_slug(t: Seq<char>) -> bool {
    &&& forall|i: int|
        0 <= i < t.len() ==> (#[trigger] t[i]) == '-' || ('a' <= t[i] && t[i] <= 'z') || ('0'
            <= t[i] && t[i] <= '9')
    &&& forall|i: int| 0 <= i < t.len() - 1 ==> !(#[trigger] t[i] == '-' && t[i + 1] == '-')
    &&& t.len() > 0 ==> t[0] != '-' && t[t.len() - 1] != '-'
}

/// The slug of a name.
pub fn slug_like(s: &str) -> (r: String)
    ensures
        r@ == slug(s@),
        is_slug(r@),
{
    let chars = chars_of(s);
    let mut acc: Vec<char> = Vec::new();
    let mut gap = false;
    let mut i: usize = 0;
    while i < chars.len()
        invariant
            i <= chars.len(),
            chars@ == s@,
            slug(s@) == slug_from(s@, i as int, acc@, gap),
            is_slug(acc@),
        decreases chars.len() - i,
    {
        let c = chars[i];
        if char_is_ascii_alnum(c) {
            if gap && acc.len() > 0 {
                acc.push('-');
            }
            acc.push(char_ascii_lower(c));
            gap = false;
        } else {
            gap = true;
        }
        i += 1;
    }
    string_of(&acc)
}

/// The schema of a declared field.
pub fn type_to_json_schema(t: &SimpleFieldType) -> (r: Json)
    ensures
        r@ == typed(t.schema_name()),
{
    typed_json(t.as_str())
}

/// The operation of a string test and its reference, where the test names exactly one.
pub open spec fn chosen(t: TestSpec) -> Option<(OpenAiGraderStringCheckOperation, Seq<char>)> {
    match t {
        TestSpec::String { eq, ne, like, ilike, .. } => match (eq, ne, like, ilike) {
            (Some(r), None, None, None) => Some((OpenAiGraderStringCheckOperation::Eq, r@)),
            (None, Some(r), None, None) => Some((OpenAiGraderStringCheckOperation::Ne, r@)),
            (None, None, Some(r), None) => Some((OpenAiGraderStringCheckOperation::Like, r@)),
            (None, None, None, Some(r)) => Some((OpenAiGraderStringCheckOperation::Ilike, r@)),
            _ => None,
        },
    }
}

/// The name of the grader of a test: the test's own, or a fixed one.
pub open spec fn grader_name(t: TestSpec) -> Seq<char> {
    match t {
        TestSpec::String { name, .. } => match name {
            Some(n) => n@,
            None => "String check grader"@,
        },
    }
}

/// The input template of a test.
pub open spec fn test_input(t: TestSpec) -> Seq<char> {
    match t {
        TestSpec::String { input, .. } => input@,
    }
}

/// Whether `g` is the grader that the test `t` is lowered to.
pub open spec fn lowers_to(t: TestSpec, g: OpenAiGrader) -> bool {
    match chosen(t) {
        Some((operation, reference)) => {
            &&& g matches OpenAiGrader::StringCheck(c)
            &&& c.name@ == grader_name(t)
            &&& c.operation == operation
            &&& c.input@ == translated(test_input(t))
            &&& c.reference@ == translated(reference)
        },
        None => false,
    }
}

/// Lowers the test at `index` to a grader. A test that names other than exactly one of
/// `eq`, `ne`, `like` and `ilike` is refused.
pub fn string_test_to_grader(index: usize, t: &TestSpec) -> (r: Result<
    OpenAiGrader,
    ValidationError,
>)
    ensures
        match r {
            Ok(g) => lowers_to(*t, g),
            Err(e) => chosen(*t) is None && e == (ValidationError::AmbiguousOperator { index }),
        },
{
    match t {
        TestSpec::String { name, input, eq, ne, like, ilike } => {
            let (operation, reference) = match (eq, ne, like, ilike) {
                (Some(r), None, None, None) => (OpenAiGraderStringCheckOperation::Eq, r),
                (None, Some(r), None, None) => (OpenAiGraderStringCheckOperation::Ne, r),
                (None, None, Some(r), None) => (OpenAiGraderStringCheckOperation::Like, r),
                (None, None, None, Some(r)) => (OpenAiGraderStringCheckOperation::Ilike, r),
                _ => {
                    return Err(ValidationError::AmbiguousOperator { index });
                },
            };
            let name = match name {
                Some(n) => n.clone(),
                None => "String check grader".to_owned(),
            };
            Ok(
                OpenAiGrader::StringCheck(
                    OpenAiGraderStringCheck {
                        kind: OpenAiGraderStringCheckType,
                        name,
                        operation,
                        input: translate_template_placeholders(input.as_str()),
                        reference: translate_template_placeholders(reference.as_str()),
                    },
                ),
            )
        },
    }
}

/// `acc` with the names that an optional template refers to.
pub open spec fn optional_vars(o: Option<String>, acc: Seq<(Seq<char>, ())>) -> Seq<(Seq<char>, ())> {
    match o {
        Some(x) => item_vars(x@, acc),
        None => acc,
    }
}

/// `acc` with the names that the templates of one test refer to.
pub open spec fn test_vars(t: TestSpec, acc: Seq<(Seq<char>, ())>) -> Seq<(Seq<char>, ())> {
    match t {
        TestSpec::String { input, eq, ne, like, ilike, .. } => optional_vars(
            ilike,
            optional_vars(like, optional_vars(ne, optional_vars(eq, item_vars(input@, acc)))),
        ),
    }
}

/// `acc` with the names that the tests from the `i`-th on refer to.
pub open spec fn all_vars(tests: Seq<TestSpec>, i: int, acc: Seq<(Seq<char>, ())>) -> Seq<
    (Seq<char>, ()),
>
    decreases tests.len() - i,
{
    if i < 0 || i >= tests.len() {
        acc
    } else {
        all_vars(tests, i + 1, test_vars(tests[i], acc))
    }
}

/// The names that the templates of the tests refer to, each once, in order.
pub open spec fn referenced(tests: Seq<TestSpec>) -> Seq<(Seq<char>, ())> {
    all_vars(tests, 0, Seq::empty())
}

/// `acc` with the schema of each declared field from the `i`-th on.
pub open spec fn declared_from(
    schema: Seq<(Seq<char>, SimpleFieldType)>,
    i: int,
    acc: Seq<(Seq<char>, JsonView)>,
) -> Seq<(Seq<char>, JsonView)>
    decreases schema.len() - i,
{
    if i < 0 || i >= schema.len() {
        acc
    } else {
        declared_from(schema, i + 1, put(acc, schema[i].0, typed(schema[i].1.schema_name())))
    }
}

/// The properties of an item that the declared fields give.
pub open spec fn declared(schema: Seq<(Seq<char>, SimpleFieldType)>) -> Seq<(Seq<char>, JsonView)> {
    declared_from(schema, 0, Seq::empty())
}

/// The names of the declared fields, in order.
pub open spec fn declared_names(schema: Seq<(Seq<char>, SimpleFieldType)>) -> Seq<Seq<char>> {
    Seq::new(schema.len(), |i: int| schema[i].0)
}

/// The properties and the required names of an item once the names from the `i`-th of
/// `extras` on are seen to: a name that is no property yet becomes a string property and
/// is required.
pub open spec fn with_extras(
    props: Seq<(Seq<char>, JsonView)>,
    required: Seq<Seq<char>>,
    extras: Seq<(Seq<char>, ())>,
    i: int,
) -> (Seq<(Seq<char>, JsonView)>, Seq<Seq<char>>)
    decreases extras.len() - i,
{
    if i < 0 || i >= extras.len() {
        (props, required)
    } else if has_key(props, extras[i].0) {
        with_extras(props, required, extras, i + 1)
    } else {
        with_extras(
            put(props, extras[i].0, typed("string"@)),
            required.push(extras[i].0),
            extras,
            i + 1,
        )
    }
}

/// The properties of an item: the declared fields, and a string field for each name that
/// a test refers to and that is not declared.
pub open spec fn item_properties(schema: Seq<(Seq<char>, SimpleFieldType)>, tests: Seq<TestSpec>) -> Seq<
    (Seq<char>, JsonView),
> {
    with_extras(declared(schema), declared_names(schema), referenced(tests), 0).0
}

/// The names that an item must hold: the declared ones, then the others that the tests
/// refer to.
pub open spec fn item_required(schema: Seq<(Seq<char>, SimpleFieldType)>, tests: Seq<TestSpec>) -> Seq<
    Seq<char>,
> {
    with_extras(declared(schema), declared_names(schema), referenced(tests), 0).1
}

/// The array of the given texts.
pub open spec fn text_array(names: Seq<Seq<char>>) -> JsonView {
    JsonView::Array(Seq::new(names.len(), |i: int| JsonView::Str(names[i])))
}

/// The schema of an item.
pub open spec fn item_schema(schema: Seq<(Seq<char>, SimpleFieldType)>, tests: Seq<TestSpec>) -> JsonView {
    object_schema(
        item_properties(schema, tests),
        text_array(item_required(schema, tests)),
        JsonView::Str("object"@),
    )
}

/// An item schema wrapped together with the fixed schema of a sample.
pub open spec fn wrapped(item: JsonView) -> JsonView {
    object_schema(
        Seq::empty().push(("item"@, item)).push(("sample"@, sample_schema_view())),
        name_array(seq!["item", "sample"]),
        JsonView::Str("object"@),
    )
}

/// The schema of the data source of the evaluation that a specification is lowered to.
pub open spec fn draft_schema(schema: Seq<(Seq<char>, SimpleFieldType)>, tests: Seq<TestSpec>) -> JsonView {
    wrapped(item_schema(schema, tests))
}

/// The identifier that stands in for the one the service will give.
pub open spec fn draft_id(name: Seq<char>) -> Seq<char> {
    "local_eval_"@ + slug(name)
}

/// Whether every test of `tests` before the `n`-th names exactly one operation.
pub open spec fn valid_before(tests: Seq<TestSpec>, n: int) -> bool {
    forall|j: int| 0 <= j < n ==> chosen(#[trigger] tests[j]) is Some
}

/// Whether `eval` is what the specification is lowered to.
pub open spec fn is_draft_of(spec: EvalSpec, eval: OpenAiEval) -> bool {
    &&& eval.id@ == draft_id(spec.name@)
    &&& eval.name@ == spec.name@
    &&& eval.created_at == 0
    &&& eval.metadata is None
    &&& eval.data_source_config matches OpenAiDataSourceConfig::Custom(c)
    &&& c.schema@ == draft_schema(spec.schema@, spec.tests@)
    &&& eval.testing_criteria@.len() == spec.tests@.len()
    &&& forall|i: int|
        0 <= i < spec.tests@.len() ==> lowers_to(
            #[trigger] spec.tests@[i],
            eval.testing_criteria@[i],
        )
}

/// The object whose members are the entries of a map of values.
pub fn map_object_json(map: &TextMap<Json>) -> (r: Json)
    ensures
        r@ == JsonView::Object(map@),
{
    let n = map.len();
    let mut members: Vec<(String, Json)> = Vec::new();
    let mut i: usize = 0;
    while i < n
        invariant
            i <= n,
            n == map@.len(),
            members@.len() == i,
            forall|j: int|
                0 <= j < i ==> (#[trigger] members@[j]).0@ == map@[j].0 && members@[j].1@
                    == map@[j].1,
        decreases n - i,
    {
        let key = map.key(i).clone();
        let value = map.value(i).copy();
        members.push((key, value));
        i += 1;
    }
    let r = Json::object(members);
    assert(r@->Object_0 =~= map@);
    r
}

/// The array of the given texts.
pub fn text_array_json(names: &Vec<String>) -> (r: Json)
    ensures
        r@ == text_array(Seq::new(names@.len(), |i: int| names@[i]@)),
{
    let mut out: Vec<Json> = Vec::new();
    let mut i: usize = 0;
    while i < names.len()
        invariant
            i <= names.len(),
            out@.len() == i,
            forall|j: int| 0 <= j < i ==> (#[trigger] out@[j])@ == JsonView::Str(names@[j]@),
        decreases names.len() - i,
    {
        out.push(Json::Str(names[i].clone()));
        i += 1;
    }
    let r = Json::array(out);
    assert(r@->Array_0 =~= text_array(Seq::new(names@.len(), |i: int| names@[i]@))->Array_0);
    r
}

/// The schema of an object whose properties are given as a value.
pub fn object_schema_of(properties: Json, required: Json, kind: Json) -> (r: Json)
    requires
        properties@ is Object,
    ensures
        r@ == object_schema(properties@->Object_0, required@, kind@),
{
    let b = ObjectBuilder::new().with("properties", properties).with("required", required).with(
        "type",
        kind,
    );
    assert(b@ =~= object_schema(properties@->Object_0, required@, kind@)->Object_0);
    b.build()
}

/// The names that the templates of the tests refer to.
pub fn referenced_vars(tests: &Vec<TestSpec>) -> (r: TextMap<()>)
    ensures
        r@ == referenced(tests@),
{
    let mut extras: TextMap<()> = TextMap::new();
    let mut i: usize = 0;
    while i < tests.len()
        invariant
            i <= tests.len(),
            referenced(tests@) == all_vars(tests@, i as int, extras@),
        decreases tests.len() - i,
    {
        match &tests[i] {
            TestSpec::String { input, eq, ne, like, ilike, .. } => {
                collect_item_vars(input.as_str(), &mut extras);
                if let Some(x) = eq {
                    collect_item_vars(x.as_str(), &mut extras);
                }
                if let Some(x) = ne {
                    collect_item_vars(x.as_str(), &mut extras);
                }
                if let Some(x) = like {
                    collect_item_vars(x.as_str(), &mut extras);
                }
                if let Some(x) = ilike {
                    collect_item_vars(x.as_str(), &mut extras);
                }
            },
        }
        i += 1;
    }
    extras
}

/// The schema of an item: a property for each declared field, and a string property for
/// each name that a test refers to and that is not declared; all of them required.
pub fn item_schema_json(schema: &TextMap<SimpleFieldType>, tests: &Vec<TestSpec>) -> (r: Json)
    ensures
        r@ == item_schema(schema@, tests@),
{
    let mut props: TextMap<Json> = TextMap::new();
    let mut required: Vec<String> = Vec::new();
    let n = schema.len();
    let mut i: usize = 0;
    while i < n
        invariant
            i <= n,
            n == schema@.len(),
            declared(schema@) == declared_from(schema@, i as int, props@),
            required@.len() == i,
            forall|j: int| 0 <= j < i ==> (#[trigger] required@[j])@ == schema@[j].0,
        decreases n - i,
    {
        let key = schema.key(i);
        props.insert(key.clone(), type_to_json_schema(schema.value(i)));
        required.push(key.clone());
        i += 1;
    }
    assert(Seq::new(required@.len(), |j: int| required@[j]@) =~= declared_names(schema@));
    let extras = referenced_vars(tests);
    let m = extras.len();
    let mut k: usize = 0;
    while k < m
        invariant
            k <= m,
            m == extras@.len(),
            with_extras(declared(schema@), declared_names(schema@), extras@, 0) == with_extras(
                props@,
                Seq::new(required@.len(), |j: int| required@[j]@),
                extras@,
                k as int,
            ),
        decreases m - k,
    {
        let key = extras.key(k);
        if !props.contains_key(key.as_str()) {
            let ghost before = Seq::new(required@.len(), |j: int| required@[j]@);
            props.insert(key.clone(), typed_json("string"));
            required.push(key.clone());
            assert(Seq::new(required@.len(), |j: int| required@[j]@) =~= before.push(key@));
        }
        k += 1;
    }
    object_schema_of(map_object_json(&props), text_array_json(&required), Json::text("object"))
}

impl EvalSpec {
    /// Lowers the specification to the evaluation that the remote service is to hold:
    /// the schema of its items, wrapped with the schema of a sample, and one grader for
    /// each test. A test that names other than exactly one operation is refused, the
    /// first such test by its place.
    pub fn to_openai_eval(&self) -> (r: Result<OpenAiEval, ValidationError>)
        ensures
            match r {
                Ok(eval) => valid_before(self.tests@, self.tests@.len() as int) && is_draft_of(
                    *self,
                    eval,
                ),
                Err(e) => exists|k: int|
                    0 <= k < self.tests@.len() && valid_before(self.tests@, k) && chosen(
                        #[trigger] self.tests@[k],
                    ) is None && e == (ValidationError::AmbiguousOperator { index: k as usize }),
            },
    {
        let item = item_schema_json(&self.schema, &self.tests);
        let schema = object_schema_of(
            ObjectBuilder::new().with("item", item).with("sample", sample_schema()).build(),
            names_json(vec!["item", "sample"]),
            Json::text("object"),
        );
        let mut graders: Vec<OpenAiGrader> = Vec::new();
        let mut i: usize = 0;
        while i < self.tests.len()
            invariant
                i <= self.tests.len(),
                valid_before(self.tests@, i as int),
                graders@.len() == i,
                forall|j: int| 0 <= j < i ==> lowers_to(#[trigger] self.tests@[j], graders@[j]),
            decreases self.tests.len() - i,
        {
            match string_test_to_grader(i, &self.tests[i]) {
                Ok(g) => {
                    graders.push(g);
                },
                Err(e) => {
                    return Err(e);
                },
            }
            i += 1;
        }
        Ok(
            OpenAiEval {
                object: OpenAiEvalObject,
                id: concat2("local_eval_", slug_like(self.name.as_str()).as_str()),
                name: self.name.clone(),
                created_at: 0,
                metadata: None,
                data_source_config: OpenAiDataSourceConfig::Custom(
                    OpenAiCustomDataSourceConfig { kind: OpenAiCustomDataSourceConfigType, schema },
                ),
                testing_criteria: graders,
            },
        )
    }
}

/// Putting under one key neither adds nor takes away another.
pub proof fn lemma_put_other_key<T>(e: Seq<(Seq<char>, T)>, k: Seq<char>, v: T, other: Seq<char>)
    requires
        keys_ascending(e),
        other != k,
    ensures
        has_key(put(e, k, v), other) == has_key(e, other),
{
    lemma_put_keeps_others(e, k, v, other);
}

/// The properties that the declared fields give have ascending keys, and each of their
/// keys is a key that was there before or the name of a declared field.
pub proof fn lemma_declared_from(
    schema: Seq<(Seq<char>, SimpleFieldType)>,
    i: int,
    acc: Seq<(Seq<char>, JsonView)>,
    name: Seq<char>,
)
    requires
        0 <= i <= schema.len(),
        keys_ascending(acc),
        !has_key(acc, name),
        forall|j: int| 0 <= j < schema.len() ==> (#[trigger] schema[j]).0 != name,
    ensures
        keys_ascending(declared_from(schema, i, acc)),
        !has_key(declared_from(schema, i, acc), name),
    decreases schema.len() - i,
{
    if i < schema.len() {
        let next = put(acc, schema[i].0, typed(schema[i].1.schema_name()));
        lemma_put_ascending(acc, schema[i].0, typed(schema[i].1.schema_name()));
        lemma_put_other_key(acc, schema[i].0, typed(schema[i].1.schema_name()), name);
        lemma_declared_from(schema, i + 1, next, name);
    }
}

/// Whether `name` is a string property and is required.
pub open spec fn is_required_string(
    props: Seq<(Seq<char>, JsonView)>,
    required: Seq<Seq<char>>,
    name: Seq<char>,
) -> bool {
    lookup(props, name) == Some(typed("string"@)) && required.contains(name)
}

/// A name that is a required string property stays one, whatever other names are seen to.
pub proof fn lemma_extras_keep(
    props: Seq<(Seq<char>, JsonView)>,
    required: Seq<Seq<char>>,
    extras: Seq<(Seq<char>, ())>,
    i: int,
    name: Seq<char>,
)
    requires
        0 <= i <= extras.len(),
        keys_ascending(props),
        is_required_string(props, required, name),
    ensures
        is_required_string(
            with_extras(props, required, extras, i).0,
            with_extras(props, required, extras, i).1,
            name,
        ),
    decreases extras.len() - i,
{
    if i < extras.len() {
        let k = extras[i].0;
        if has_key(props, k) {
            lemma_extras_keep(props, required, extras, i + 1, name);
        } else {
            lemma_put_ascending(props, k, typed("string"@));
            lemma_put_keeps_others(props, k, typed("string"@), name);
            assert(required.push(k)[required.index_of(name)] == name);
            lemma_extras_keep(
                put(props, k, typed("string"@)),
                required.push(k),
                extras,
                i + 1,
                name,
            );
        }
    }
}

/// A name among those still to be seen to, that is no property yet or a required string
/// property already, is a required string property in the end.
pub proof fn lemma_extras_add(
    props: Seq<(Seq<char>, JsonView)>,
    required: Seq<Seq<char>>,
    extras: Seq<(Seq<char>, ())>,
    i: int,
    idx: int,
    name: Seq<char>,
)
    requires
        0 <= i <= idx < extras.len(),
        extras[idx].0 == name,
        keys_ascending(props),
        !has_key(props, name) || is_required_string(props, required, name),
    ensures
        is_required_string(
            with_extras(props, required, extras, i).0,
            with_extras(props, required, extras, i).1,
            name,
        ),
    decreases extras.len() - i,
{
    let k = extras[i].0;
    if has_key(props, k) {
        if i == idx {
            lemma_extras_keep(props, required, extras, i + 1, name);
        } else {
            lemma_extras_add(props, required, extras, i + 1, idx, name);
        }
    } else {
        let next = put(props, k, typed("string"@));
        lemma_put_ascending(props, k, typed("string"@));
        if k == name {
            lemma_put_then_lookup(props, k, typed("string"@));
            assert(required.push(k)[required.len() as int] == name);
            lemma_extras_keep(next, required.push(k), extras, i + 1, name);
        } else {
            lemma_put_keeps_others(props, k, typed("string"@), name);
            lemma_put_other_key(props, k, typed("string"@), name);
            if is_required_string(props, required, name) {
                assert(required.push(k)[required.index_of(name)] == name);
            }
            lemma_extras_add(next, required.push(k), extras, i + 1, idx, name);
        }
    }
}

/// A name that a template of a test refers to, and that is no declared field, is a
/// string property of the item schema and is required there.
pub proof fn law_implicit_field(
    schema: Seq<(Seq<char>, SimpleFieldType)>,
    tests: Seq<TestSpec>,
    name: Seq<char>,
    idx: int,
)
    requires
        0 <= idx < referenced(tests).len(),
        referenced(tests)[idx].0 == name,
        forall|j: int| 0 <= j < schema.len() ==> (#[trigger] schema[j]).0 != name,
    ensures
        lookup(item_properties(schema, tests), name) == Some(typed("string"@)),
        item_required(schema, tests).contains(name),
{
    let empty = Seq::<(Seq<char>, JsonView)>::empty();
    lemma_lookup_absent(empty, name);
    lemma_declared_from(schema, 0, empty, name);
    lemma_extras_add(declared(schema), declared_names(schema), referenced(tests), 0, idx, name);
}

/// The text of a string that may be missing.
pub open spec fn optional_text(o: Option<String>) -> Option<Seq<char>> {
    match o {
        Some(x) => Some(x@),
        None => None,
    }
}

/// What a test says: its name, its input, and its four references, as texts.
pub open spec fn test_view(t: TestSpec) -> (
    Option<Seq<char>>,
    Seq<char>,
    Option<Seq<char>>,
    Option<Seq<char>>,
    Option<Seq<char>>,
    Option<Seq<char>>,
) {
    match t {
        TestSpec::String { name, input, eq, ne, like, ilike } => (
            optional_text(name),
            input@,
            optional_text(eq),
            optional_text(ne),
            optional_text(like),
            optional_text(ilike),
        ),
    }
}

/// Whether two lists of tests say the same.
pub open spec fn same_tests(a: Seq<TestSpec>, b: Seq<TestSpec>) -> bool {
    a.len() == b.len() && forall|i: int| 0 <= i < a.len() ==> test_view(#[trigger] a[i]) == test_view(b[i])
}

/// Whether two specifications say the same: the same name, the same declared fields,
/// and the same tests, text for text.
pub open spec fn same_spec(a: EvalSpec, b: EvalSpec) -> bool {
    a.name@ == b.name@ && a.schema@ == b.schema@ && same_tests(a.tests@, b.tests@)
}

/// Tests that say the same refer to the same names.
pub proof fn lemma_same_vars(a: Seq<TestSpec>, b: Seq<TestSpec>, i: int, acc: Seq<(Seq<char>, ())>)
    requires
        same_tests(a, b),
        0 <= i <= a.len(),
    ensures
        all_vars(a, i, acc) == all_vars(b, i, acc),
    decreases a.len() - i,
{
    if i < a.len() {
        assert(test_view(a[i]) == test_view(b[i]));
        assert(test_vars(a[i], acc) == test_vars(b[i], acc));
        lemma_same_vars(a, b, i + 1, test_vars(a[i], acc));
    }
}

/// Graders that tests which say the same are lowered to stand the same on the wire.
pub proof fn lemma_same_grader(a: TestSpec, b: TestSpec, g: OpenAiGrader, h: OpenAiGrader)
    requires
        test_view(a) == test_view(b),
        lowers_to(a, g),
        lowers_to(b, h),
    ensures
        g.wire() == h.wire(),
{
    assert(chosen(a) == chosen(b));
    assert(grader_name(a) == grader_name(b));
    assert(test_input(a) == test_input(b));
}

} // verus!
