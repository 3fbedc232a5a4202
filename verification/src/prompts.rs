//! The prompts the server offers, and what each answers.

use vstd::prelude::*;
use crate::text::same_text;

verus! {

/// An argument of a prompt.
pub struct PromptArgument {
    pub name: String,
    pub description: String,
    pub required: Option<bool>,
}

/// What a prompt is called and what it does.
pub struct Prompt {
    pub name: String,
    pub description: String,
    pub arguments: Option<Vec<PromptArgument>>,
}

/// The content of a prompt message.
pub enum PromptContent {
    Text { text: String },
}

/// One message of a prompt's answer.
pub struct PromptMessage {
    pub role: String,
    pub content: PromptContent,
}

/// A prompt's answer.
pub struct PromptResponse {
    pub messages: Vec<PromptMessage>,
}

/// An answer made of one assistant message holding `text`.
pub open spec fn is_text_response(r: PromptResponse, text: Seq<char>) -> bool {
    &&& r.messages@.len() == 1
    &&& r.messages@[0].role@ == "assistant"@
    &&& r.messages@[0].content matches PromptContent::Text { text: t } && t@ == text
}

/// Creates a simple text answer for a prompt.
pub fn text_response(text: String) -> (r: PromptResponse)
    ensures
        is_text_response(r, text@),
{
    let ghost t = text@;
    let mut messages: Vec<PromptMessage> = Vec::new();
    messages.push(PromptMessage { role: String::from_str("assistant"), content: PromptContent::Text { text } });
    PromptResponse { messages }
}

pub open spec fn discover_methods_name() -> Seq<char> {
    "discover-brp-methods"@
}

pub open spec fn discover_methods_description() -> Seq<char> {
    "List all available Bevy Remote Protocol methods and their capabilities"@
}

pub open spec fn discover_methods_text() -> Seq<char> {
    "To discover all available BRP methods, use the brp_execute tool with method=\"rpc.discover\". This will return a comprehensive list of all available Bevy Remote Protocol methods and their capabilities."@
}

/// The prompt that explains how to discover the BRP methods.
pub struct DiscoverMethodsPrompt;

impl DiscoverMethodsPrompt {
    /// The prompt's name and description; it takes no arguments.
    pub fn get_prompt_info(&self) -> (r: Prompt)
        ensures
            r.name@ == discover_methods_name(),
            r.description@ == discover_methods_description(),
            r.arguments is None,
    {
        Prompt {
            name: String::from_str("discover-brp-methods"),
            description: String::from_str("List all available Bevy Remote Protocol methods and their capabilities"),
            arguments: None,
        }
    }

    /// The prompt's answer.
    pub fn execute(&self) -> (r: PromptResponse)
        ensures
            is_text_response(r, discover_methods_text()),
    {
        text_response(String::from_str(
            "To discover all available BRP methods, use the brp_execute tool with method=\"rpc.discover\". This will return a comprehensive list of all available Bevy Remote Protocol methods and their capabilities.",
        ))
    }
}

/// The prompts the server offers.
pub struct PromptRegistry {
    pub prompts: Vec<DiscoverMethodsPrompt>,
}

impl PromptRegistry {
    /// A registry holding every prompt.
    pub fn new() -> (r: PromptRegistry)
        ensures
            r.prompts@.len() == 1,
    {
        let mut prompts: Vec<DiscoverMethodsPrompt> = Vec::new();
        prompts.push(DiscoverMethodsPrompt);
        PromptRegistry { prompts }
    }

    /// The information of every prompt, in order.
    pub fn list_prompts(&self) -> (r: Vec<Prompt>)
        ensures
            r@.len() == self.prompts@.len(),
            forall|i: int| 0 <= i < r@.len() ==> #[trigger] r@[i].name@ == discover_methods_name()
                && r@[i].description@ == discover_methods_description() && r@[i].arguments is None,
    {
        let mut out: Vec<Prompt> = Vec::new();
        let mut i: usize = 0;
        while i < self.prompts.len()
            invariant
                i <= self.prompts.len(),
                out@.len() == i,
                forall|j: int| 0 <= j < i ==> #[trigger] out@[j].name@ == discover_methods_name()
                    && out@[j].description@ == discover_methods_description() && out@[j].arguments is None,
            decreases self.prompts.len() - i,
        {
            out.push(self.prompts[i].get_prompt_info());
            i += 1;
        }
        out
    }

    /// The description and answer of the prompt called `name`; an error
    /// where no prompt is called so.
    pub fn get_prompt(&self, name: &str) -> (r: Result<(String, PromptResponse), String>)
        ensures
            match r {
                Ok((description, response)) => self.prompts@.len() > 0 && name@ == discover_methods_name()
                    && description@ == discover_methods_description()
                    && is_text_response(response, discover_methods_text()),
                Err(e) => (self.prompts@.len() == 0 || name@ != discover_methods_name()) && e@ == "Prompt not found"@,
            },
    {
        let mut i: usize = 0;
        while i < self.prompts.len()
            invariant
                i <= self.prompts.len(),
                i > 0 ==> name@ != discover_methods_name(),
            decreases self.prompts.len() - i,
        {
            let info = self.prompts[i].get_prompt_info();
            if same_text(info.name.as_str(), name) {
                return Ok((info.description, self.prompts[i].execute()));
            }
            i += 1;
        }
        Err(String::from_str("Prompt not found"))
    }
}

} // verus!
