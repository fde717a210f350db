//! Completion requests and the list of completion models.

use vstd::prelude::*;

use super::message::Message;
use super::tools::Tool;

verus! {

/// The completion models the plugin can address.
#[derive(Debug, Clone, Copy, PartialEq, Eq, Structural)]
pub enum Model {
    MistralLargeLatest,
    MistralMediumLatest,
    MistralTinyLatest,
    MistralNemoLatest,
    CodestralLatest,
    Codestral2405,
    DevstralMediumLatest,
    MagistralMediumLatest,
    PixtralLargeLatest,
    VoxtralMiniLatest,
    MistralOcrLatest,
    Ministral3bLatest,
    Ministral8bLatest,
}

/// The display name of a model.
pub open spec fn spec_model_name(m: Model) -> Seq<char> {
    match m {
        Model::MistralLargeLatest => "Large Latest"@,
        Model::MistralMediumLatest => "Medium Latest"@,
        Model::MistralTinyLatest => "Tiny Latest"@,
        Model::MistralNemoLatest => "Nemo Latest"@,
        Model::CodestralLatest => "Codestral Latest"@,
        Model::Codestral2405 => "Codestra l2405"@,
        Model::DevstralMediumLatest => "Devstral Medium Latest"@,
        Model::MagistralMediumLatest => "Magistral Medium Latest"@,
        Model::PixtralLargeLatest => "Pixtral Large Latest"@,
        Model::VoxtralMiniLatest => "Voxtral Mini Latest"@,
        Model::MistralOcrLatest => "Ocr Latest"@,
        Model::Ministral3bLatest => "Ministral 3b Latest"@,
        Model::Ministral8bLatest => "Ministral 8b Latest"@,
    }
}

impl Model {
    /// The display name of this model.
    pub fn name(&self) -> (r: &'static str)
        ensures
            r@ == spec_model_name(*self),
    {
        match self {
            Model::MistralLargeLatest => "Large Latest",
            Model::MistralMediumLatest => "Medium Latest",
            Model::MistralTinyLatest => "Tiny Latest",
            Model::MistralNemoLatest => "Nemo Latest",
            Model::CodestralLatest => "Codestral Latest",
            Model::Codestral2405 => "Codestra l2405",
            Model::DevstralMediumLatest => "Devstral Medium Latest",
            Model::MagistralMediumLatest => "Magistral Medium Latest",
            Model::PixtralLargeLatest => "Pixtral Large Latest",
            Model::VoxtralMiniLatest => "Voxtral Mini Latest",
            Model::MistralOcrLatest => "Ocr Latest",
            Model::Ministral3bLatest => "Ministral 3b Latest",
            Model::Ministral8bLatest => "Ministral 8b Latest",
        }
    }

    /// Replaces this model when `value` is one of the display names; any
    /// other text leaves it unchanged.
    pub fn replace_from_str(&mut self, value: &str)
        ensures
            (exists|m: Model| spec_model_name(m) == value@) ==> spec_model_name(*final(self))
                == value@,
            !(exists|m: Model| spec_model_name(m) == value@) ==> *final(self) == *old(self),
    {
        let picked: Option<Model> = if crate::text::str_eq(value, "Large Latest") {
            Some(Model::MistralLargeLatest)
        } else if crate::text::str_eq(value, "Medium Latest") {
            Some(Model::MistralMediumLatest)
        } else if crate::text::str_eq(value, "Tiny Latest") {
            Some(Model::MistralTinyLatest)
        } else if crate::text::str_eq(value, "Nemo Latest") {
            Some(Model::MistralNemoLatest)
        } else if crate::text::str_eq(value, "Codestral Latest") {
            Some(Model::CodestralLatest)
        } else if crate::text::str_eq(value, "Codestra l2405") {
            Some(Model::Codestral2405)
        } else if crate::text::str_eq(value, "Devstral Medium Latest") {
            Some(Model::DevstralMediumLatest)
        } else if crate::text::str_eq(value, "Magistral Medium Latest") {
            Some(Model::MagistralMediumLatest)
        } else if crate::text::str_eq(value, "Pixtral Large Latest") {
            Some(Model::PixtralLargeLatest)
        } else if crate::text::str_eq(value, "Voxtral Mini Latest") {
            Some(Model::VoxtralMiniLatest)
        } else if crate::text::str_eq(value, "Ocr Latest") {
            Some(Model::MistralOcrLatest)
        } else if crate::text::str_eq(value, "Ministral 3b Latest") {
            Some(Model::Ministral3bLatest)
        } else if crate::text::str_eq(value, "Ministral 8b Latest") {
            Some(Model::Ministral8bLatest)
        } else {
            None
        };
        match picked {
            Some(m) => {
                proof {
                    assert(spec_model_name(m) == value@);
                }
                *self = m;
            },
            None => {
                proof {
                    assert forall|m: Model| spec_model_name(m) != value@ by {
                        reveal_strlit("Large Latest");
                        reveal_strlit("Medium Latest");
                        reveal_strlit("Tiny Latest");
                        reveal_strlit("Nemo Latest");
                        reveal_strlit("Codestral Latest");
                        reveal_strlit("Codestra l2405");
                        reveal_strlit("Devstral Medium Latest");
                        reveal_strlit("Magistral Medium Latest");
                        reveal_strlit("Pixtral Large Latest");
                        reveal_strlit("Voxtral Mini Latest");
                        reveal_strlit("Ocr Latest");
                        reveal_strlit("Ministral 3b Latest");
                        reveal_strlit("Ministral 8b Latest");
                    }
                }
            },
        }
    }

    /// The model used for fill-in-the-middle completions.
    pub fn fim() -> (r: Model)
        ensures
            r == Model::CodestralLatest,
    {
        Model::CodestralLatest
    }
}

/// The messages of one chat completion request.
#[derive(Debug, Clone)]
pub struct ChatCompletion {
    pub model: Model,
    pub messages: Vec<Message>,
}

/// One full chat request: the completion plus its parameters.
#[derive(Debug, Clone)]
pub struct ChatRequest {
    pub completion: ChatCompletion,
    pub params: CompletionParams,
}

/// One fill-in-the-middle request: the completion plus its parameters.
#[derive(Debug, Clone)]
pub struct FimRequest {
    pub completion: FimCompletion,
    pub params: CompletionParams,
}

/// The prompt and optional suffix of a fill-in-the-middle completion.
#[derive(Debug, Clone)]
pub struct FimCompletion {
    pub model: Model,
    pub prompt: String,
    pub suffix: Option<String>,
}

/// Token limits and the tools offered to the model.
#[derive(Debug, Clone)]
pub struct CompletionParams {
    pub min_tokens: Option<u32>,
    pub max_tokens: Option<u32>,
    pub tools: Option<Vec<Tool>>,
}

impl CompletionParams {
    /// Parameters asking for nothing: no limits, no tools.
    pub fn empty() -> (r: CompletionParams)
        ensures
            r.min_tokens is None,
            r.max_tokens is None,
            r.tools is None,
    {
        CompletionParams { min_tokens: None, max_tokens: None, tools: None }
    }
}

} // verus!
