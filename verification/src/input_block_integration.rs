//! Hooks input blocks into the rest of the interface.
use vstd::prelude::*;
use crate::input_block::InputBlock;
use crate::text::{concat3, owned};

verus! {

/// What integrating a block of the given kind announces.
pub open spec fn kind_note(input_type: Seq<char>) -> Seq<char> {
    if input_type == "text"@ {
        "  (Text input ready for user text)"@
    } else if input_type == "password"@ {
        "  (Password input ready for secure entry)"@
    } else if input_type == "number"@ {
        "  (Number input ready for numerical entry)"@
    } else {
        "  (Unknown input type)"@
    }
}

/// Integrates input blocks into a layout.
pub struct InputBlockIntegrator;

impl InputBlockIntegrator {
    pub fn new() -> Self {
        InputBlockIntegrator
    }

    /// Integrates `block`, returning the note that tells what it is ready for.
    pub fn integrate_block(&self, block: &InputBlock) -> (r: String)
        ensures
            r@ == kind_note(block.input_type@),
    {
        let t = &block.input_type;
        if t.eq(&owned("text")) {
            owned("  (Text input ready for user text)")
        } else if t.eq(&owned("password")) {
            owned("  (Password input ready for secure entry)")
        } else if t.eq(&owned("number")) {
            owned("  (Number input ready for numerical entry)")
        } else {
            owned("  (Unknown input type)")
        }
    }

    /// Processes the value of `block`, returning what is reported about it.
    pub fn process_integrated_input(&self, block: &InputBlock) -> (r: String)
        ensures
            r@ == if block.value@.len() == 0 {
                "  Input is empty. Please provide a value."@
            } else {
                "  Input received: '"@ + block.value@ + "'. Performing action..."@
            },
    {
        let v = block.get_value();
        if v.is_empty() {
            owned("  Input is empty. Please provide a value.")
        } else {
            concat3("  Input received: '", v, "'. Performing action...")
        }
    }
}

} // verus!
