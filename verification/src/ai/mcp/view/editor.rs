//! The MCP prompt editor: a prompt and the response to the last input.
use vstd::prelude::*;
use crate::text::concat;

verus! {

/// The MCP editor state.
pub struct McpViewEditor {
    prompt: String,
    response: String,
}

impl McpViewEditor {
    /// The current prompt.
    pub closed spec fn prompt(self) -> Seq<char> {
        self.prompt@
    }

    /// The response to the last input.
    pub closed spec fn response(self) -> Seq<char> {
        self.response@
    }

    /// An editor with empty prompt and response.
    pub fn new() -> (e: Self)
        ensures
            e.prompt() == Seq::<char>::empty(),
            e.response() == Seq::<char>::empty(),
    {
        McpViewEditor { prompt: String::new(), response: String::new() }
    }

    /// Replaces the prompt.
    pub fn set_prompt(&mut self, prompt: String)
        ensures
            final(self).prompt() == prompt@,
            final(self).response() == old(self).response(),
    {
        self.prompt = prompt;
    }

    /// `"Current prompt: "` followed by the prompt.
    pub fn get_current_context(&self) -> (r: String)
        ensures
            r@ == "Current prompt: "@ + self.prompt(),
    {
        concat("Current prompt: ", self.prompt.as_str())
    }

    /// The text that describes the editor as drawn: its prompt and its response.
    pub fn render(&self) -> (r: String)
        ensures
            r@ == "Rendering MCP Editor View. Prompt: '"@ + self.prompt() + "', Response: '"@ + self.response() + "'"@,
    {
        let mut r = crate::text::owned("Rendering MCP Editor View. Prompt: '");
        r.append(self.prompt.as_str());
        r.append("', Response: '");
        r.append(self.response.as_str());
        r.append("'");
        r
    }

    /// Answers `input`: the response becomes `"AI response to: "` followed by it.
    pub fn process_input(&mut self, input: &str)
        ensures
            final(self).response() == "AI response to: "@ + input@,
            final(self).prompt() == old(self).prompt(),
    {
        self.response = concat("AI response to: ", input);
    }
}

} // verus!
