//! A prompt with an editable value, such as a text, password or number field.
use vstd::prelude::*;
use crate::text::owned;

verus! {

/// An input field: its prompt, current value and kind (`"text"`, `"password"`, `"number"`...).
#[derive(Debug, Clone)]
pub struct InputBlock {
    pub prompt: String,
    pub value: String,
    pub input_type: String,
}

impl InputBlock {
    /// A block with an empty value.
    pub fn new(prompt: String, input_type: String) -> (b: Self)
        ensures
            b.prompt@ == prompt@,
            b.value@ == Seq::<char>::empty(),
            b.input_type@ == input_type@,
    {
        InputBlock { prompt, value: String::new(), input_type }
    }

    /// A block holding `initial_value`.
    pub fn with_value(prompt: String, initial_value: String, input_type: String) -> (b: Self)
        ensures
            b.prompt@ == prompt@,
            b.value@ == initial_value@,
            b.input_type@ == input_type@,
    {
        InputBlock { prompt, value: initial_value, input_type }
    }

    /// Replaces the value.
    pub fn set_value(&mut self, new_value: String)
        ensures
            final(self).value@ == new_value@,
            final(self).prompt@ == old(self).prompt@,
            final(self).input_type@ == old(self).input_type@,
    {
        self.value = new_value;
    }

    /// The current value.
    pub fn get_value(&self) -> (r: &str)
        ensures
            r@ == self.value@,
    {
        self.value.as_str()
    }

    /// Empties the value.
    pub fn clear(&mut self)
        ensures
            final(self).value@ == Seq::<char>::empty(),
            final(self).prompt@ == old(self).prompt@,
            final(self).input_type@ == old(self).input_type@,
    {
        self.value = String::new();
    }

    /// The text that describes the block as drawn: its prompt, value and kind.
    pub fn render(&self) -> (r: String)
        ensures
            r@ == "Rendering InputBlock: Prompt='"@ + self.prompt@ + "', Value='"@ + self.value@
                + "', Type='"@ + self.input_type@ + "'"@,
    {
        let mut r = owned("Rendering InputBlock: Prompt='");
        r.append(self.prompt.as_str());
        r.append("', Value='");
        r.append(self.value.as_str());
        r.append("', Type='");
        r.append(self.input_type.as_str());
        r.append("'");
        r
    }
}

} // verus!
