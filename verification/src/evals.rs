//! The evaluation resource as the remote service holds it, and the form each part of it
//! takes on the wire.

use crate::json::{Json, JsonView, ObjectBuilder};
use crate::literal::{
    OpenAiCustomDataSourceConfigType, OpenAiEvalObject, OpenAiGraderLabelModelType,
    OpenAiGraderPythonType, OpenAiGraderScoreModelType, OpenAiGraderStringCheckType,
    OpenAiGraderTextSimilarityType, OpenAiLogsDataSourceConfigType, OpenAiMessageType,
    OpenAiModelInputItemAudioType, OpenAiModelInputItemImageType, OpenAiModelInputItemTextType,
    OpenAiModelOutputItemTextType, OpenAiStoredCompletionsDataSourceConfigType,
};
use crate::text::{signed_decimal, signed_decimal_string};
use crate::textmap::TextMap;
use vstd::prelude::*;

verus! {

/// The object whose members are the entries of a map of strings, in their order.
pub open spec fn strings_object(entries: Seq<(Seq<char>, Seq<char>)>) -> JsonView {
    JsonView::Object(Seq::new(entries.len(), |i: int| (entries[i].0, JsonView::Str(entries[i].1))))
}

/// The array of the given strings.
pub open spec fn strings_array(items: Seq<String>) -> JsonView {
    JsonView::Array(Seq::new(items.len(), |i: int| JsonView::Str(items[i]@)))
}

/// `base` with one more member where `value` is there.
pub open spec fn with_optional(
    base: Seq<(Seq<char>, JsonView)>,
    key: Seq<char>,
    value: Option<JsonView>,
) -> Seq<(Seq<char>, JsonView)> {
    match value {
        Some(v) => base.push((key, v)),
        None => base,
    }
}

/// The wire form of a map of strings.
pub fn strings_object_json(map: &TextMap<String>) -> (r: Json)
    ensures
        r@ == strings_object(map@),
{
    let n = map.len();
    let mut members: Vec<(String, Json)> = Vec::new();
    let mut i: usize = 0;
    while i < n
        invariant
            i <= n,
            n == map@.len(),
            members@.len() == i,
            forall|j: int|
                0 <= j < i ==> (#[trigger] members@[j]).0@ == map@[j].0 && members@[j].1@
                    == JsonView::Str(map@[j].1),
        decreases n - i,
    {
        let key = map.key(i).clone();
        let value = Json::Str(map.value(i).clone());
        members.push((key, value));
        i += 1;
    }
    let r = Json::object(members);
    assert(r@->Object_0 =~= strings_object(map@)->Object_0);
    r
}

/// The wire form of a list of strings.
pub fn strings_array_json(items: &Vec<String>) -> (r: Json)
    ensures
        r@ == strings_array(items@),
{
    let mut out: Vec<Json> = Vec::new();
    let mut i: usize = 0;
    while i < items.len()
        invariant
            i <= items.len(),
            out@.len() == i,
            forall|j: int| 0 <= j < i ==> (#[trigger] out@[j])@ == JsonView::Str(items@[j]@),
        decreases items.len() - i,
    {
        out.push(Json::Str(items[i].clone()));
        i += 1;
    }
    let r = Json::array(out);
    assert(r@->Array_0 =~= strings_array(items@)->Array_0);
    r
}

/// How a string check compares its input with its reference.
#[derive(Debug, Clone, Copy, PartialEq, Eq, Structural)]
pub enum OpenAiGraderStringCheckOperation {
    Eq,
    Ne,
    Like,
    Ilike,
}

impl OpenAiGraderStringCheckOperation {
    pub open spec fn wire_name(self) -> Seq<char> {
        match self {
            OpenAiGraderStringCheckOperation::Eq => "eq"@,
            OpenAiGraderStringCheckOperation::Ne => "ne"@,
            OpenAiGraderStringCheckOperation::Like => "like"@,
            OpenAiGraderStringCheckOperation::Ilike => "ilike"@,
        }
    }

    /// The name of the operation on the wire.
    pub fn as_str(&self) -> (r: &'static str)
        ensures
            r@ == self.wire_name(),
    {
        match self {
            OpenAiGraderStringCheckOperation::Eq => "eq",
            OpenAiGraderStringCheckOperation::Ne => "ne",
            OpenAiGraderStringCheckOperation::Like => "like",
            OpenAiGraderStringCheckOperation::Ilike => "ilike",
        }
    }
}

/// A grader that compares two templates as strings.
#[derive(Debug)]
pub struct OpenAiGraderStringCheck {
    pub kind: OpenAiGraderStringCheckType,
    pub name: String,
    pub operation: OpenAiGraderStringCheckOperation,
    pub input: String,
    pub reference: String,
}

impl OpenAiGraderStringCheck {
    pub open spec fn wire(&self) -> JsonView {
        JsonView::Object(
            seq![
                ("input"@, JsonView::Str(self.input@)),
                ("name"@, JsonView::Str(self.name@)),
                ("operation"@, JsonView::Str(self.operation.wire_name())),
                ("reference"@, JsonView::Str(self.reference@)),
                ("type"@, JsonView::Str(OpenAiGraderStringCheckType::literal())),
            ],
        )
    }

    pub fn to_json(&self) -> (r: Json)
        ensures
            r@ == self.wire(),
    {
        let b = ObjectBuilder::new().with("input", Json::text(self.input.as_str())).with(
            "name",
            Json::text(self.name.as_str()),
        ).with("operation", Json::text(self.operation.as_str())).with(
            "reference",
            Json::text(self.reference.as_str()),
        ).with("type", Json::text(self.kind.as_str()));
        assert(b@ =~= self.wire()->Object_0);
        b.build()
    }
}

/// The measure by which a text-similarity grader compares.
#[derive(Debug, Clone, Copy, PartialEq, Eq, Structural)]
pub enum OpenAiGraderTextSimilarityEvaluationMetric {
    Cosine,
    FuzzyMatch,
    Bleu,
    Gleu,
    Meteor,
    Rouge1,
    Rouge2,
    Rouge3,
    Rouge4,
    Rouge5,
    RougeL,
}

impl OpenAiGraderTextSimilarityEvaluationMetric {
    pub open spec fn wire_name(self) -> Seq<char> {
        match self {
            OpenAiGraderTextSimilarityEvaluationMetric::Cosine => "cosine"@,
            OpenAiGraderTextSimilarityEvaluationMetric::FuzzyMatch => "fuzzy_match"@,
            OpenAiGraderTextSimilarityEvaluationMetric::Bleu => "bleu"@,
            OpenAiGraderTextSimilarityEvaluationMetric::Gleu => "gleu"@,
            OpenAiGraderTextSimilarityEvaluationMetric::Meteor => "meteor"@,
            OpenAiGraderTextSimilarityEvaluationMetric::Rouge1 => "rouge_1"@,
            OpenAiGraderTextSimilarityEvaluationMetric::Rouge2 => "rouge_2"@,
            OpenAiGraderTextSimilarityEvaluationMetric::Rouge3 => "rouge_3"@,
            OpenAiGraderTextSimilarityEvaluationMetric::Rouge4 => "rouge_4"@,
            OpenAiGraderTextSimilarityEvaluationMetric::Rouge5 => "rouge_5"@,
            OpenAiGraderTextSimilarityEvaluationMetric::RougeL => "rouge_l"@,
        }
    }

    /// The name of the measure on the wire.
    pub fn as_str(&self) -> (r: &'static str)
        ensures
            r@ == self.wire_name(),
    {
        match self {
            OpenAiGraderTextSimilarityEvaluationMetric::Cosine => "cosine",
            OpenAiGraderTextSimilarityEvaluationMetric::FuzzyMatch => "fuzzy_match",
            OpenAiGraderTextSimilarityEvaluationMetric::Bleu => "bleu",
            OpenAiGraderTextSimilarityEvaluationMetric::Gleu => "gleu",
            OpenAiGraderTextSimilarityEvaluationMetric::Meteor => "meteor",
            OpenAiGraderTextSimilarityEvaluationMetric::Rouge1 => "rouge_1",
            OpenAiGraderTextSimilarityEvaluationMetric::Rouge2 => "rouge_2",
            OpenAiGraderTextSimilarityEvaluationMetric::Rouge3 => "rouge_3",
            OpenAiGraderTextSimilarityEvaluationMetric::Rouge4 => "rouge_4",
            OpenAiGraderTextSimilarityEvaluationMetric::Rouge5 => "rouge_5",
            OpenAiGraderTextSimilarityEvaluationMetric::RougeL => "rouge_l",
        }
    }
}

/// A grader that scores how close two texts are. The threshold is held as the text of
/// its number.
#[derive(Debug)]
pub struct OpenAiGraderTextSimilarity {
    pub kind: OpenAiGraderTextSimilarityType,
    pub name: String,
    pub evaluation_metric: OpenAiGraderTextSimilarityEvaluationMetric,
    pub input: String,
    pub reference: String,
    pub pass_threshold: String,
}

impl OpenAiGraderTextSimilarity {
    pub open spec fn wire(&self) -> JsonView {
        JsonView::Object(
            seq![
                ("evaluation_metric"@, JsonView::Str(self.evaluation_metric.wire_name())),
                ("input"@, JsonView::Str(self.input@)),
                ("name"@, JsonView::Str(self.name@)),
                ("pass_threshold"@, JsonView::Number(self.pass_threshold@)),
                ("reference"@, JsonView::Str(self.reference@)),
                ("type"@, JsonView::Str(OpenAiGraderTextSimilarityType::literal())),
            ],
        )
    }

    pub fn to_json(&self) -> (r: Json)
        ensures
            r@ == self.wire(),
    {
        let b = ObjectBuilder::new().with(
            "evaluation_metric",
            Json::text(self.evaluation_metric.as_str()),
        ).with("input", Json::text(self.input.as_str())).with(
            "name",
            Json::text(self.name.as_str()),
        ).with("pass_threshold", Json::Number(self.pass_threshold.clone())).with(
            "reference",
            Json::text(self.reference.as_str()),
        ).with("type", Json::text(self.kind.as_str()));
        assert(b@ =~= self.wire()->Object_0);
        b.build()
    }
}

/// Who speaks in a message.
#[derive(Debug, Clone, Copy, PartialEq, Eq, Structural)]
pub enum OpenAiMessageRole {
    User,
    Assistant,
    System,
    Developer,
}

impl OpenAiMessageRole {
    pub open spec fn wire_name(self) -> Seq<char> {
        match self {
            OpenAiMessageRole::User => "user"@,
            OpenAiMessageRole::Assistant => "assistant"@,
            OpenAiMessageRole::System => "system"@,
            OpenAiMessageRole::Developer => "developer"@,
        }
    }

    /// The name of the role on the wire.
    pub fn as_str(&self) -> (r: &'static str)
        ensures
            r@ == self.wire_name(),
    {
        match self {
            OpenAiMessageRole::User => "user",
            OpenAiMessageRole::Assistant => "assistant",
            OpenAiMessageRole::System => "system",
            OpenAiMessageRole::Developer => "developer",
        }
    }
}

/// A piece of input text.
#[derive(Debug)]
pub struct OpenAiModelInputItemText {
    pub kind: OpenAiModelInputItemTextType,
    pub text: String,
}

impl OpenAiModelInputItemText {
    pub open spec fn wire(&self) -> JsonView {
        JsonView::Object(
            seq![
                ("text"@, JsonView::Str(self.text@)),
                ("type"@, JsonView::Str(OpenAiModelInputItemTextType::literal())),
            ],
        )
    }

    pub fn to_json(&self) -> (r: Json)
        ensures
            r@ == self.wire(),
    {
        let b = ObjectBuilder::new().with("text", Json::text(self.text.as_str())).with(
            "type",
            Json::text(self.kind.as_str()),
        );
        assert(b@ =~= self.wire()->Object_0);
        b.build()
    }
}

/// How closely an image is to be looked at.
#[derive(Debug, Clone, Copy, PartialEq, Eq, Structural)]
pub enum OpenAiModelInputItemImageDetail {
    High,
    Low,
    Auto,
}

impl OpenAiModelInputItemImageDetail {
    pub open spec fn wire_name(self) -> Seq<char> {
        match self {
            OpenAiModelInputItemImageDetail::High => "high"@,
            OpenAiModelInputItemImageDetail::Low => "low"@,
            OpenAiModelInputItemImageDetail::Auto => "auto"@,
        }
    }

    /// The name of the level on the wire.
    pub fn as_str(&self) -> (r: &'static str)
        ensures
            r@ == self.wire_name(),
    {
        match self {
            OpenAiModelInputItemImageDetail::High => "high",
            OpenAiModelInputItemImageDetail::Low => "low",
            OpenAiModelInputItemImageDetail::Auto => "auto",
        }
    }
}

/// An input image, given by its address.
#[derive(Debug)]
pub struct OpenAiModelInputItemImage {
    pub kind: OpenAiModelInputItemImageType,
    pub image_url: String,
    pub detail: Option<OpenAiModelInputItemImageDetail>,
}

impl OpenAiModelInputItemImage {
    pub open spec fn wire(&self) -> JsonView {
        JsonView::Object(
            with_optional(
                Seq::empty(),
                "detail"@,
                match self.detail {
                    Some(d) => Some(JsonView::Str(d.wire_name())),
                    None => None,
                },
            ).push(("image_url"@, JsonView::Str(self.image_url@))).push(
                ("type"@, JsonView::Str(OpenAiModelInputItemImageType::literal())),
            ),
        )
    }

    pub fn to_json(&self) -> (r: Json)
        ensures
            r@ == self.wire(),
    {
        let head = match &self.detail {
            Some(d) => ObjectBuilder::new().with("detail", Json::text(d.as_str())),
            None => ObjectBuilder::new(),
        };
        let b = head.with("image_url", Json::text(self.image_url.as_str())).with(
            "type",
            Json::text(self.kind.as_str()),
        );
        assert(b@ =~= self.wire()->Object_0);
        b.build()
    }
}

/// Encoded audio and the name of its format.
#[derive(Debug)]
pub struct OpenAiModelInputItemAudioData {
    pub data: String,
    pub format: String,
}

impl OpenAiModelInputItemAudioData {
    pub open spec fn wire(&self) -> JsonView {
        JsonView::Object(
            seq![("data"@, JsonView::Str(self.data@)), ("format"@, JsonView::Str(self.format@))],
        )
    }

    pub fn to_json(&self) -> (r: Json)
        ensures
            r@ == self.wire(),
    {
        let b = ObjectBuilder::new().with("data", Json::text(self.data.as_str())).with(
            "format",
            Json::text(self.format.as_str()),
        );
        assert(b@ =~= self.wire()->Object_0);
        b.build()
    }
}

/// A piece of input audio.
#[derive(Debug)]
pub struct OpenAiModelInputItemAudio {
    pub kind: OpenAiModelInputItemAudioType,
    pub input_audio: OpenAiModelInputItemAudioData,
}

impl OpenAiModelInputItemAudio {
    pub open spec fn wire(&self) -> JsonView {
        JsonView::Object(
            seq![
                ("input_audio"@, self.input_audio.wire()),
                ("type"@, JsonView::Str(OpenAiModelInputItemAudioType::literal())),
            ],
        )
    }

    pub fn to_json(&self) -> (r: Json)
        ensures
            r@ == self.wire(),
    {
        let b = ObjectBuilder::new().with("input_audio", self.input_audio.to_json()).with(
            "type",
            Json::text(self.kind.as_str()),
        );
        assert(b@ =~= self.wire()->Object_0);
        b.build()
    }
}

/// A piece of text that a model gave out.
#[derive(Debug)]
pub struct OpenAiModelOutputItemText {
    pub kind: OpenAiModelOutputItemTextType,
    pub text: String,
}

impl OpenAiModelOutputItemText {
    pub open spec fn wire(&self) -> JsonView {
        JsonView::Object(
            seq![
                ("text"@, JsonView::Str(self.text@)),
                ("type"@, JsonView::Str(OpenAiModelOutputItemTextType::literal())),
            ],
        )
    }

    pub fn to_json(&self) -> (r: Json)
        ensures
            r@ == self.wire(),
    {
        let b = ObjectBuilder::new().with("text", Json::text(self.text.as_str())).with(
            "type",
            Json::text(self.kind.as_str()),
        );
        assert(b@ =~= self.wire()->Object_0);
        b.build()
    }
}

/// One item of a list of input pieces.
#[derive(Debug)]
pub enum OpenAiModelInputItem {
    Text(OpenAiModelInputItemText),
    Image(OpenAiModelInputItemImage),
    Audio(OpenAiModelInputItemAudio),
}

impl OpenAiModelInputItem {
    pub open spec fn wire(&self) -> JsonView {
        match self {
            OpenAiModelInputItem::Text(x) => x.wire(),
            OpenAiModelInputItem::Image(x) => x.wire(),
            OpenAiModelInputItem::Audio(x) => x.wire(),
        }
    }

    pub fn to_json(&self) -> (r: Json)
        ensures
            r@ == self.wire(),
    {
        match self {
            OpenAiModelInputItem::Text(x) => x.to_json(),
            OpenAiModelInputItem::Image(x) => x.to_json(),
            OpenAiModelInputItem::Audio(x) => x.to_json(),
        }
    }
}

/// The wire forms of a list of input items.
pub open spec fn items_wire(items: Seq<OpenAiModelInputItem>) -> JsonView {
    JsonView::Array(Seq::new(items.len(), |i: int| items[i].wire()))
}

/// What a message holds.
#[derive(Debug)]
pub enum OpenAiModelInputContent {
    String(String),
    InputText(OpenAiModelInputItemText),
    InputImage(OpenAiModelInputItemImage),
    InputAudio(OpenAiModelInputItemAudio),
    OutputText(OpenAiModelOutputItemText),
    Array(Vec<OpenAiModelInputItem>),
}

impl OpenAiModelInputContent {
    pub open spec fn wire(&self) -> JsonView {
        match self {
            OpenAiModelInputContent::String(s) => JsonView::Str(s@),
            OpenAiModelInputContent::InputText(x) => x.wire(),
            OpenAiModelInputContent::InputImage(x) => x.wire(),
            OpenAiModelInputContent::InputAudio(x) => x.wire(),
            OpenAiModelInputContent::OutputText(x) => x.wire(),
            OpenAiModelInputContent::Array(items) => items_wire(items@),
        }
    }

    pub fn to_json(&self) -> (r: Json)
        ensures
            r@ == self.wire(),
    {
        match self {
            OpenAiModelInputContent::String(s) => Json::text(s.as_str()),
            OpenAiModelInputContent::InputText(x) => x.to_json(),
            OpenAiModelInputContent::InputImage(x) => x.to_json(),
            OpenAiModelInputContent::InputAudio(x) => x.to_json(),
            OpenAiModelInputContent::OutputText(x) => x.to_json(),
            OpenAiModelInputContent::Array(items) => {
                let mut out: Vec<Json> = Vec::new();
                let mut i: usize = 0;
                while i < items.len()
                    invariant
                        i <= items.len(),
                        out@.len() == i,
                        forall|j: int| 0 <= j < i ==> (#[trigger] out@[j])@ == items@[j].wire(),
                    decreases items.len() - i,
                {
                    out.push(items[i].to_json());
                    i += 1;
                }
                let r = Json::array(out);
                assert(r@->Array_0 =~= items_wire(items@)->Array_0);
                r
            },
        }
    }
}

/// One message handed to a model that grades.
#[derive(Debug)]
pub struct OpenAiModelInput {
    pub kind: OpenAiMessageType,
    pub role: OpenAiMessageRole,
    pub content: OpenAiModelInputContent,
}

impl OpenAiModelInput {
    pub open spec fn wire(&self) -> JsonView {
        JsonView::Object(
            seq![
                ("content"@, self.content.wire()),
                ("role"@, JsonView::Str(self.role.wire_name())),
                ("type"@, JsonView::Str(OpenAiMessageType::literal())),
            ],
        )
    }

    pub fn to_json(&self) -> (r: Json)
        ensures
            r@ == self.wire(),
    {
        let b = ObjectBuilder::new().with("content", self.content.to_json()).with(
            "role",
            Json::text(self.role.as_str()),
        ).with("type", Json::text(self.kind.as_str()));
        assert(b@ =~= self.wire()->Object_0);
        b.build()
    }
}

/// The wire forms of a list of messages.
pub open spec fn inputs_wire(inputs: Seq<OpenAiModelInput>) -> JsonView {
    JsonView::Array(Seq::new(inputs.len(), |i: int| inputs[i].wire()))
}

/// The wire form of a list of messages.
pub fn inputs_json(inputs: &Vec<OpenAiModelInput>) -> (r: Json)
    ensures
        r@ == inputs_wire(inputs@),
{
    let mut out: Vec<Json> = Vec::new();
    let mut i: usize = 0;
    while i < inputs.len()
        invariant
            i <= inputs.len(),
            out@.len() == i,
            forall|j: int| 0 <= j < i ==> (#[trigger] out@[j])@ == inputs@[j].wire(),
        decreases inputs.len() - i,
    {
        out.push(inputs[i].to_json());
        i += 1;
    }
    let r = Json::array(out);
    assert(r@->Array_0 =~= inputs_wire(inputs@)->Array_0);
    r
}

/// A grader that lets a model give a score. Numbers are held as the text of their
/// literals; the sampling parameters are held as the JSON they are.
#[derive(Debug)]
pub struct OpenAiGraderScoreModel {
    pub kind: OpenAiGraderScoreModelType,
    pub name: String,
    pub model: String,
    pub pass_threshold: String,
    pub range: (String, String),
    pub sampling_params: Json,
    pub input: Vec<OpenAiModelInput>,
}

impl OpenAiGraderScoreModel {
    pub open spec fn wire(&self) -> JsonView {
        JsonView::Object(
            seq![
                ("input"@, inputs_wire(self.input@)),
                ("model"@, JsonView::Str(self.model@)),
                ("name"@, JsonView::Str(self.name@)),
                ("pass_threshold"@, JsonView::Number(self.pass_threshold@)),
                (
                    "range"@,
                    JsonView::Array(
                        seq![JsonView::Number(self.range.0@), JsonView::Number(self.range.1@)],
                    ),
                ),
                ("sampling_params"@, self.sampling_params@),
                ("type"@, JsonView::Str(OpenAiGraderScoreModelType::literal())),
            ],
        )
    }

    pub fn to_json(&self) -> (r: Json)
        ensures
            r@ == self.wire(),
    {
        let mut bounds: Vec<Json> = Vec::new();
        bounds.push(Json::Number(self.range.0.clone()));
        bounds.push(Json::Number(self.range.1.clone()));
        let range = Json::array(bounds);
        assert(range@->Array_0 =~= seq![
            JsonView::Number(self.range.0@),
            JsonView::Number(self.range.1@),
        ]);
        let b = ObjectBuilder::new().with("input", inputs_json(&self.input)).with(
            "model",
            Json::text(self.model.as_str()),
        ).with("name", Json::text(self.name.as_str())).with(
            "pass_threshold",
            Json::Number(self.pass_threshold.clone()),
        ).with("range", range).with("sampling_params", self.sampling_params.copy()).with(
            "type",
            Json::text(self.kind.as_str()),
        );
        assert(b@ =~= self.wire()->Object_0);
        b.build()
    }
}

/// A grader that lets a model pick a label.
#[derive(Debug)]
pub struct OpenAiGraderLabelModel {
    pub kind: OpenAiGraderLabelModelType,
    pub name: String,
    pub model: String,
    pub labels: Vec<String>,
    pub passing_labels: Vec<String>,
    pub input: Vec<OpenAiModelInput>,
}

impl OpenAiGraderLabelModel {
    pub open spec fn wire(&self) -> JsonView {
        JsonView::Object(
            seq![
                ("input"@, inputs_wire(self.input@)),
                ("labels"@, strings_array(self.labels@)),
                ("model"@, JsonView::Str(self.model@)),
                ("name"@, JsonView::Str(self.name@)),
                ("passing_labels"@, strings_array(self.passing_labels@)),
                ("type"@, JsonView::Str(OpenAiGraderLabelModelType::literal())),
            ],
        )
    }

    pub fn to_json(&self) -> (r: Json)
        ensures
            r@ == self.wire(),
    {
        let b = ObjectBuilder::new().with("input", inputs_json(&self.input)).with(
            "labels",
            strings_array_json(&self.labels),
        ).with("model", Json::text(self.model.as_str())).with(
            "name",
            Json::text(self.name.as_str()),
        ).with("passing_labels", strings_array_json(&self.passing_labels)).with(
            "type",
            Json::text(self.kind.as_str()),
        );
        assert(b@ =~= self.wire()->Object_0);
        b.build()
    }
}

/// A grader that runs a piece of Python.
#[derive(Debug)]
pub struct OpenAiGraderPython {
    pub kind: OpenAiGraderPythonType,
    pub name: String,
    pub source: String,
    pub image_tag: String,
    pub pass_threshold: String,
}

impl OpenAiGraderPython {
    pub open spec fn wire(&self) -> JsonView {
        JsonView::Object(
            seq![
                ("image_tag"@, JsonView::Str(self.image_tag@)),
                ("name"@, JsonView::Str(self.name@)),
                ("pass_threshold"@, JsonView::Number(self.pass_threshold@)),
                ("source"@, JsonView::Str(self.source@)),
                ("type"@, JsonView::Str(OpenAiGraderPythonType::literal())),
            ],
        )
    }

    pub fn to_json(&self) -> (r: Json)
        ensures
            r@ == self.wire(),
    {
        let b = ObjectBuilder::new().with("image_tag", Json::text(self.image_tag.as_str())).with(
            "name",
            Json::text(self.name.as_str()),
        ).with("pass_threshold", Json::Number(self.pass_threshold.clone())).with(
            "source",
            Json::text(self.source.as_str()),
        ).with("type", Json::text(self.kind.as_str()));
        assert(b@ =~= self.wire()->Object_0);
        b.build()
    }
}

/// One testing criterion of an evaluation.
#[derive(Debug)]
pub enum OpenAiGrader {
    StringCheck(OpenAiGraderStringCheck),
    TextSimilarity(OpenAiGraderTextSimilarity),
    LabelModel(OpenAiGraderLabelModel),
    ScoreModel(OpenAiGraderScoreModel),
    Python(OpenAiGraderPython),
}

impl OpenAiGrader {
    pub open spec fn wire(&self) -> JsonView {
        match self {
            OpenAiGrader::StringCheck(g) => g.wire(),
            OpenAiGrader::TextSimilarity(g) => g.wire(),
            OpenAiGrader::LabelModel(g) => g.wire(),
            OpenAiGrader::ScoreModel(g) => g.wire(),
            OpenAiGrader::Python(g) => g.wire(),
        }
    }

    pub fn to_json(&self) -> (r: Json)
        ensures
            r@ == self.wire(),
    {
        match self {
            OpenAiGrader::StringCheck(g) => g.to_json(),
            OpenAiGrader::TextSimilarity(g) => g.to_json(),
            OpenAiGrader::LabelModel(g) => g.to_json(),
            OpenAiGrader::ScoreModel(g) => g.to_json(),
            OpenAiGrader::Python(g) => g.to_json(),
        }
    }
}

/// The wire forms of a list of graders.
pub open spec fn graders_wire(graders: Seq<OpenAiGrader>) -> JsonView {
    JsonView::Array(Seq::new(graders.len(), |i: int| graders[i].wire()))
}

/// The wire form of a list of graders.
pub fn graders_json(graders: &Vec<OpenAiGrader>) -> (r: Json)
    ensures
        r@ == graders_wire(graders@),
{
    let mut out: Vec<Json> = Vec::new();
    let mut i: usize = 0;
    while i < graders.len()
        invariant
            i <= graders.len(),
            out@.len() == i,
            forall|j: int| 0 <= j < i ==> (#[trigger] out@[j])@ == graders@[j].wire(),
        decreases graders.len() - i,
    {
        out.push(graders[i].to_json());
        i += 1;
    }
    let r = Json::array(out);
    assert(r@->Array_0 =~= graders_wire(graders@)->Array_0);
    r
}

/// The wire form of metadata that may be missing: nothing where it is.
pub open spec fn optional_strings(metadata: Option<TextMap<String>>) -> Option<JsonView> {
    match metadata {
        Some(m) => Some(strings_object(m@)),
        None => None,
    }
}

/// A data source whose items follow a schema of the owner's own.
#[derive(Debug)]
pub struct OpenAiCustomDataSourceConfig {
    pub kind: OpenAiCustomDataSourceConfigType,
    pub schema: Json,
}

impl OpenAiCustomDataSourceConfig {
    pub open spec fn wire(&self) -> JsonView {
        JsonView::Object(
            seq![
                ("schema"@, self.schema@),
                ("type"@, JsonView::Str(OpenAiCustomDataSourceConfigType::literal())),
            ],
        )
    }

    pub fn to_json(&self) -> (r: Json)
        ensures
            r@ == self.wire(),
    {
        let b = ObjectBuilder::new().with("schema", self.schema.copy()).with(
            "type",
            Json::text(self.kind.as_str()),
        );
        assert(b@ =~= self.wire()->Object_0);
        b.build()
    }
}

/// A data source fed from logs.
#[derive(Debug)]
pub struct OpenAiLogsDataSourceConfig {
    pub kind: OpenAiLogsDataSourceConfigType,
    pub metadata: Option<TextMap<String>>,
}

impl OpenAiLogsDataSourceConfig {
    pub open spec fn wire(&self) -> JsonView {
        JsonView::Object(
            with_optional(Seq::empty(), "metadata"@, optional_strings(self.metadata)).push(
                ("type"@, JsonView::Str(OpenAiLogsDataSourceConfigType::literal())),
            ),
        )
    }

    pub fn to_json(&self) -> (r: Json)
        ensures
            r@ == self.wire(),
    {
        let head = match &self.metadata {
            Some(m) => ObjectBuilder::new().with("metadata", strings_object_json(m)),
            None => ObjectBuilder::new(),
        };
        let b = head.with("type", Json::text(self.kind.as_str()));
        assert(b@ =~= self.wire()->Object_0);
        b.build()
    }
}

/// A data source fed from stored completions.
#[derive(Debug)]
pub struct OpenAiStoredCompletionsDataSourceConfig {
    pub kind: OpenAiStoredCompletionsDataSourceConfigType,
    pub metadata: Option<TextMap<String>>,
}

impl OpenAiStoredCompletionsDataSourceConfig {
    pub open spec fn wire(&self) -> JsonView {
        JsonView::Object(
            with_optional(Seq::empty(), "metadata"@, optional_strings(self.metadata)).push(
                ("type"@, JsonView::Str(OpenAiStoredCompletionsDataSourceConfigType::literal())),
            ),
        )
    }

    pub fn to_json(&self) -> (r: Json)
        ensures
            r@ == self.wire(),
    {
        let head = match &self.metadata {
            Some(m) => ObjectBuilder::new().with("metadata", strings_object_json(m)),
            None => ObjectBuilder::new(),
        };
        let b = head.with("type", Json::text(self.kind.as_str()));
        assert(b@ =~= self.wire()->Object_0);
        b.build()
    }
}

/// Where the items of an evaluation come from.
#[derive(Debug)]
pub enum OpenAiDataSourceConfig {
    Custom(OpenAiCustomDataSourceConfig),
    Logs(OpenAiLogsDataSourceConfig),
    StoredCompletions(OpenAiStoredCompletionsDataSourceConfig),
}

impl OpenAiDataSourceConfig {
    pub open spec fn wire(&self) -> JsonView {
        match self {
            OpenAiDataSourceConfig::Custom(c) => c.wire(),
            OpenAiDataSourceConfig::Logs(c) => c.wire(),
            OpenAiDataSourceConfig::StoredCompletions(c) => c.wire(),
        }
    }

    pub fn to_json(&self) -> (r: Json)
        ensures
            r@ == self.wire(),
    {
        match self {
            OpenAiDataSourceConfig::Custom(c) => c.to_json(),
            OpenAiDataSourceConfig::Logs(c) => c.to_json(),
            OpenAiDataSourceConfig::StoredCompletions(c) => c.to_json(),
        }
    }
}

/// An evaluation as the remote service holds it.
#[derive(Debug)]
pub struct OpenAiEval {
    pub object: OpenAiEvalObject,
    pub id: String,
    pub name: String,
    pub created_at: i64,
    pub metadata: Option<TextMap<String>>,
    pub data_source_config: OpenAiDataSourceConfig,
    pub testing_criteria: Vec<OpenAiGrader>,
}

impl OpenAiEval {
    pub open spec fn wire(&self) -> JsonView {
        JsonView::Object(
            with_optional(
                seq![
                    ("created_at"@, JsonView::Number(signed_decimal(self.created_at as int))),
                    ("data_source_config"@, self.data_source_config.wire()),
                    ("id"@, JsonView::Str(self.id@)),
                ],
                "metadata"@,
                optional_strings(self.metadata),
            ).push(("name"@, JsonView::Str(self.name@))).push(
                ("object"@, JsonView::Str(OpenAiEvalObject::literal())),
            ).push(("testing_criteria"@, graders_wire(self.testing_criteria@))),
        )
    }

    /// The evaluation as it stands on the wire.
    pub fn to_json(&self) -> (r: Json)
        ensures
            r@ == self.wire(),
    {
        let first = ObjectBuilder::new().with(
            "created_at",
            Json::Number(signed_decimal_string(self.created_at)),
        ).with("data_source_config", self.data_source_config.to_json()).with(
            "id",
            Json::text(self.id.as_str()),
        );
        let head = match &self.metadata {
            Some(m) => first.with("metadata", strings_object_json(m)),
            None => first,
        };
        let b = head.with("name", Json::text(self.name.as_str())).with(
            "object",
            Json::text(self.object.as_str()),
        ).with("testing_criteria", graders_json(&self.testing_criteria));
        assert(b@ =~= self.wire()->Object_0);
        b.build()
    }
}

/// A custom data source as it is sent when an evaluation is created.
#[derive(Debug)]
pub struct OpenAiCustomDataSourceConfigUpsert {
    pub kind: OpenAiCustomDataSourceConfigType,
    pub item_schema: Json,
    pub include_sample_schema: Option<bool>,
}

impl OpenAiCustomDataSourceConfigUpsert {
    pub open spec fn wire(&self) -> JsonView {
        JsonView::Object(
            with_optional(
                Seq::empty(),
                "include_sample_schema"@,
                match self.include_sample_schema {
                    Some(b) => Some(JsonView::Bool(b)),
                    None => None,
                },
            ).push(("item_schema"@, self.item_schema@)).push(
                ("type"@, JsonView::Str(OpenAiCustomDataSourceConfigType::literal())),
            ),
        )
    }

    pub fn to_json(&self) -> (r: Json)
        ensures
            r@ == self.wire(),
    {
        let head = match self.include_sample_schema {
            Some(b) => ObjectBuilder::new().with("include_sample_schema", Json::Bool(b)),
            None => ObjectBuilder::new(),
        };
        let b = head.with("item_schema", self.item_schema.copy()).with(
            "type",
            Json::text(self.kind.as_str()),
        );
        assert(b@ =~= self.wire()->Object_0);
        b.build()
    }
}

/// A logs data source as it is sent when an evaluation is created.
#[derive(Debug)]
pub struct OpenAiLogsDataSourceConfigUpsert {
    pub kind: OpenAiLogsDataSourceConfigType,
    pub metadata: Option<TextMap<String>>,
}

impl OpenAiLogsDataSourceConfigUpsert {
    pub open spec fn wire(&self) -> JsonView {
        JsonView::Object(
            with_optional(Seq::empty(), "metadata"@, optional_strings(self.metadata)).push(
                ("type"@, JsonView::Str(OpenAiLogsDataSourceConfigType::literal())),
            ),
        )
    }

    pub fn to_json(&self) -> (r: Json)
        ensures
            r@ == self.wire(),
    {
        let head = match &self.metadata {
            Some(m) => ObjectBuilder::new().with("metadata", strings_object_json(m)),
            None => ObjectBuilder::new(),
        };
        let b = head.with("type", Json::text(self.kind.as_str()));
        assert(b@ =~= self.wire()->Object_0);
        b.build()
    }
}

/// A stored-completions data source as it is sent when an evaluation is created.
#[derive(Debug)]
pub struct OpenAiStoredCompletionsDataSourceConfigUpsert {
    pub kind: OpenAiStoredCompletionsDataSourceConfigType,
    pub metadata: Option<TextMap<String>>,
}

impl OpenAiStoredCompletionsDataSourceConfigUpsert {
    pub open spec fn wire(&self) -> JsonView {
        JsonView::Object(
            with_optional(Seq::empty(), "metadata"@, optional_strings(self.metadata)).push(
                ("type"@, JsonView::Str(OpenAiStoredCompletionsDataSourceConfigType::literal())),
            ),
        )
    }

    pub fn to_json(&self) -> (r: Json)
        ensures
            r@ == self.wire(),
    {
        let head = match &self.metadata {
            Some(m) => ObjectBuilder::new().with("metadata", strings_object_json(m)),
            None => ObjectBuilder::new(),
        };
        let b = head.with("type", Json::text(self.kind.as_str()));
        assert(b@ =~= self.wire()->Object_0);
        b.build()
    }
}

/// The data source of an evaluation that is to be created.
#[derive(Debug)]
pub enum OpenAiDataSourceConfigUpsert {
    Custom(OpenAiCustomDataSourceConfigUpsert),
    Logs(OpenAiLogsDataSourceConfigUpsert),
    StoredCompletions(OpenAiStoredCompletionsDataSourceConfigUpsert),
}

impl OpenAiDataSourceConfigUpsert {
    pub open spec fn wire(&self) -> JsonView {
        match self {
            OpenAiDataSourceConfigUpsert::Custom(c) => c.wire(),
            OpenAiDataSourceConfigUpsert::Logs(c) => c.wire(),
            OpenAiDataSourceConfigUpsert::StoredCompletions(c) => c.wire(),
        }
    }

    pub fn to_json(&self) -> (r: Json)
        ensures
            r@ == self.wire(),
    {
        match self {
            OpenAiDataSourceConfigUpsert::Custom(c) => c.to_json(),
            OpenAiDataSourceConfigUpsert::Logs(c) => c.to_json(),
            OpenAiDataSourceConfigUpsert::StoredCompletions(c) => c.to_json(),
        }
    }
}

/// What is sent to create an evaluation: its name, its metadata, and the fields that make
/// up its content.
#[derive(Debug)]
pub struct OpenAiEvalUpsert {
    pub name: String,
    pub metadata: Option<TextMap<String>>,
    pub data_source_config: OpenAiDataSourceConfigUpsert,
    pub testing_criteria: Vec<OpenAiGrader>,
}

impl OpenAiEvalUpsert {
    pub open spec fn wire(&self) -> JsonView {
        JsonView::Object(
            with_optional(
                seq![("data_source_config"@, self.data_source_config.wire())],
                "metadata"@,
                optional_strings(self.metadata),
            ).push(("name"@, JsonView::Str(self.name@))).push(
                ("testing_criteria"@, graders_wire(self.testing_criteria@)),
            ),
        )
    }

    /// The body of the request that creates the evaluation.
    pub fn to_json(&self) -> (r: Json)
        ensures
            r@ == self.wire(),
    {
        let first = ObjectBuilder::new().with("data_source_config", self.data_source_config.to_json());
        let head = match &self.metadata {
            Some(m) => first.with("metadata", strings_object_json(m)),
            None => first,
        };
        let b = head.with("name", Json::text(self.name.as_str())).with(
            "testing_criteria",
            graders_json(&self.testing_criteria),
        );
        assert(b@ =~= self.wire()->Object_0);
        b.build()
    }
}

/// One page of a listing of the service.
#[derive(Debug)]
pub struct OpenAiResponseList<T> {
    pub object: String,
    pub data: Vec<T>,
    pub has_more: bool,
}

/// What is asked for one page of evaluations.
#[derive(Debug)]
pub struct OpenAiListEvalsPageRequest {
    pub project: Option<String>,
    pub after: Option<String>,
    pub limit: Option<u32>,
    pub order: Option<&'static str>,
    pub order_by: Option<&'static str>,
}

/// What is asked for the whole listing of evaluations.
#[derive(Debug)]
pub struct OpenAiListAllEvalsRequest {
    pub project: Option<String>,
    pub order: Option<&'static str>,
    pub order_by: Option<&'static str>,
}

} // verus!
