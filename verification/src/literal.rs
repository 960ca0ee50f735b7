//! The literal markers of the wire format: each stands for one fixed string.

use vstd::prelude::*;

verus! {

/// The fixed string `eval`.
#[derive(Debug, Clone, Copy, Default)]
pub struct OpenAiEvalObject;

impl OpenAiEvalObject {
    pub open spec fn literal() -> Seq<char> {
        "eval"@
    }

    /// The string this marker stands for.
    pub fn as_str(&self) -> (r: &'static str)
        ensures
            r@ == Self::literal(),
    {
        "eval"
    }
}

/// The fixed string `custom`.
#[derive(Debug, Clone, Copy, Default)]
pub struct OpenAiCustomDataSourceConfigType;

impl OpenAiCustomDataSourceConfigType {
    pub open spec fn literal() -> Seq<char> {
        "custom"@
    }

    /// The string this marker stands for.
    pub fn as_str(&self) -> (r: &'static str)
        ensures
            r@ == Self::literal(),
    {
        "custom"
    }
}

/// The fixed string `logs`.
#[derive(Debug, Clone, Copy, Default)]
pub struct OpenAiLogsDataSourceConfigType;

impl OpenAiLogsDataSourceConfigType {
    pub open spec fn literal() -> Seq<char> {
        "logs"@
    }

    /// The string this marker stands for.
    pub fn as_str(&self) -> (r: &'static str)
        ensures
            r@ == Self::literal(),
    {
        "logs"
    }
}

/// The fixed string `stored_completions`.
#[derive(Debug, Clone, Copy, Default)]
pub struct OpenAiStoredCompletionsDataSourceConfigType;

impl OpenAiStoredCompletionsDataSourceConfigType {
    pub open spec fn literal() -> Seq<char> {
        "stored_completions"@
    }

    /// The string this marker stands for.
    pub fn as_str(&self) -> (r: &'static str)
        ensures
            r@ == Self::literal(),
    {
        "stored_completions"
    }
}

/// The fixed string `string_check`.
#[derive(Debug, Clone, Copy, Default)]
pub struct OpenAiGraderStringCheckType;

impl OpenAiGraderStringCheckType {
    pub open spec fn literal() -> Seq<char> {
        "string_check"@
    }

    /// The string this marker stands for.
    pub fn as_str(&self) -> (r: &'static str)
        ensures
            r@ == Self::literal(),
    {
        "string_check"
    }
}

/// The fixed string `text_similarity`.
#[derive(Debug, Clone, Copy, Default)]
pub struct OpenAiGraderTextSimilarityType;

impl OpenAiGraderTextSimilarityType {
    pub open spec fn literal() -> Seq<char> {
        "text_similarity"@
    }

    /// The string this marker stands for.
    pub fn as_str(&self) -> (r: &'static str)
        ensures
            r@ == Self::literal(),
    {
        "text_similarity"
    }
}

/// The fixed string `score_model`.
#[derive(Debug, Clone, Copy, Default)]
pub struct OpenAiGraderScoreModelType;

impl OpenAiGraderScoreModelType {
    pub open spec fn literal() -> Seq<char> {
        "score_model"@
    }

    /// The string this marker stands for.
    pub fn as_str(&self) -> (r: &'static str)
        ensures
            r@ == Self::literal(),
    {
        "score_model"
    }
}

/// The fixed string `label_model`.
#[derive(Debug, Clone, Copy, Default)]
pub struct OpenAiGraderLabelModelType;

impl OpenAiGraderLabelModelType {
    pub open spec fn literal() -> Seq<char> {
        "label_model"@
    }

    /// The string this marker stands for.
    pub fn as_str(&self) -> (r: &'static str)
        ensures
            r@ == Self::literal(),
    {
        "label_model"
    }
}

/// The fixed string `python`.
#[derive(Debug, Clone, Copy, Default)]
pub struct OpenAiGraderPythonType;

impl OpenAiGraderPythonType {
    pub open spec fn literal() -> Seq<char> {
        "python"@
    }

    /// The string this marker stands for.
    pub fn as_str(&self) -> (r: &'static str)
        ensures
            r@ == Self::literal(),
    {
        "python"
    }
}

/// The fixed string `input_text`.
#[derive(Debug, Clone, Copy, Default)]
pub struct OpenAiModelInputItemTextType;

impl OpenAiModelInputItemTextType {
    pub open spec fn literal() -> Seq<char> {
        "input_text"@
    }

    /// The string this marker stands for.
    pub fn as_str(&self) -> (r: &'static str)
        ensures
            r@ == Self::literal(),
    {
        "input_text"
    }
}

/// The fixed string `input_image`.
#[derive(Debug, Clone, Copy, Default)]
pub struct OpenAiModelInputItemImageType;

impl OpenAiModelInputItemImageType {
    pub open spec fn literal() -> Seq<char> {
        "input_image"@
    }

    /// The string this marker stands for.
    pub fn as_str(&self) -> (r: &'static str)
        ensures
            r@ == Self::literal(),
    {
        "input_image"
    }
}

/// The fixed string `input_audio`.
#[derive(Debug, Clone, Copy, Default)]
pub struct OpenAiModelInputItemAudioType;

impl OpenAiModelInputItemAudioType {
    pub open spec fn literal() -> Seq<char> {
        "input_audio"@
    }

    /// The string this marker stands for.
    pub fn as_str(&self) -> (r: &'static str)
        ensures
            r@ == Self::literal(),
    {
        "input_audio"
    }
}

/// The fixed string `output_text`.
#[derive(Debug, Clone, Copy, Default)]
pub struct OpenAiModelOutputItemTextType;

impl OpenAiModelOutputItemTextType {
    pub open spec fn literal() -> Seq<char> {
        "output_text"@
    }

    /// The string this marker stands for.
    pub fn as_str(&self) -> (r: &'static str)
        ensures
            r@ == Self::literal(),
    {
        "output_text"
    }
}

/// The fixed string `message`.
#[derive(Debug, Clone, Copy, Default)]
pub struct OpenAiMessageType;

impl OpenAiMessageType {
    pub open spec fn literal() -> Seq<char> {
        "message"@
    }

    /// The string this marker stands for.
    pub fn as_str(&self) -> (r: &'static str)
        ensures
            r@ == Self::literal(),
    {
        "message"
    }
}

} // verus!
