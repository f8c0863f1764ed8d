//! Worked examples of input blocks.
use vstd::prelude::*;
use crate::input_block::InputBlock;
use crate::text::owned;

verus! {

/// Runs the examples and returns the blocks as they end up: a text field set to
/// `Alice`, a password field set to `secret123`, a number field set to `30`, a
/// pre-filled field updated to `Updated content`, and a field that was cleared.
pub fn run_input_block_examples() -> (r: Vec<InputBlock>)
    ensures
        r.len() == 5,
        r[0].prompt@ == "Enter your name:"@ && r[0].value@ == "Alice"@ && r[0].input_type@ == "text"@,
        r[1].prompt@ == "Enter your password:"@ && r[1].value@ == "secret123"@ && r[1].input_type@ == "password"@,
        r[2].prompt@ == "Enter your age:"@ && r[2].value@ == "30"@ && r[2].input_type@ == "number"@,
        r[3].prompt@ == "Edit this pre-filled text:"@ && r[3].value@ == "Updated content"@ && r[3].input_type@ == "text"@,
        r[4].prompt@ == "Type something to clear:"@ && r[4].value@.len() == 0 && r[4].input_type@ == "text"@,
{
    let mut text_input = InputBlock::new(owned("Enter your name:"), owned("text"));
    text_input.set_value(owned("Alice"));
    let mut password_input = InputBlock::new(owned("Enter your password:"), owned("password"));
    password_input.set_value(owned("secret123"));
    let mut number_input = InputBlock::new(owned("Enter your age:"), owned("number"));
    number_input.set_value(owned("30"));
    let mut prefilled_input = InputBlock::with_value(
        owned("Edit this pre-filled text:"),
        owned("Initial content"),
        owned("text"),
    );
    prefilled_input.set_value(owned("Updated content"));
    let mut clearable_input = InputBlock::new(owned("Type something to clear:"), owned("text"));
    clearable_input.set_value(owned("This will be cleared"));
    clearable_input.clear();
    let mut r: Vec<InputBlock> = Vec::new();
    r.push(text_input);
    r.push(password_input);
    r.push(number_input);
    r.push(prefilled_input);
    r.push(clearable_input);
    r
}

} // verus!
