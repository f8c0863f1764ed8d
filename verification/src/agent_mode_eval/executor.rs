//! Running agents: the script that hands an agent its context, and the error for a
//! missing entry point. Running WebAssembly and JavaScript is left to the caller.
use vstd::prelude::*;
use crate::text::concat3;

verus! {

/// The script that defines `context` for a JavaScript agent from the context as JSON.
pub fn context_setup_script(context_json: &str) -> (r: String)
    ensures
        r@ == "const context = JSON.parse(`"@ + context_json@ + "`);"@,
{
    concat3("const context = JSON.parse(`", context_json, "`);")
}

/// The error when a WebAssembly module has no function of that name.
pub fn missing_function_message(function_name: &str) -> (r: String)
    ensures
        r@ == "Function '"@ + function_name@ + "' not found in WASM module"@,
{
    concat3("Function '", function_name, "' not found in WASM module")
}

} // verus!
