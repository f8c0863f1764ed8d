//! A small HTTP server for WebAssembly modules: what it answers, and whether it can be
//! told to stop. Listening for requests is left to the caller.
use vstd::prelude::*;
use crate::text::concat;

verus! {

/// The text served for a module (a placeholder for its bytes).
pub fn module_response(module_name: &str) -> (r: String)
    ensures
        r@ == "Placeholder WASM module: "@ + module_name@,
{
    concat("Placeholder WASM module: ", module_name)
}

/// The module a request path `/wasm/<name>` asks for: the one segment after `wasm`.
pub open spec fn requested_module(path: Seq<char>) -> Option<Seq<char>> {
    let prefix = "/wasm/"@;
    if path.len() > prefix.len() && path.take(prefix.len() as int) == prefix
        && !path.skip(prefix.len() as int).contains('/') {
        Some(path.skip(prefix.len() as int))
    } else {
        None
    }
}

/// The module a request path asks for, if it is `/wasm/<name>` with a one-segment name.
pub fn route_module(path: &str) -> (r: Option<String>)
    ensures
        r matches Some(m) ==> requested_module(path@) == Some(m@),
        r is None ==> requested_module(path@) is None,
{
    let v = crate::text::chars_of(path);
    proof {
        reveal_strlit("/wasm/");
    }
    if v.len() <= 6 || !crate::text::starts_with(path, "/wasm/") {
        proof {
            if path@.len() > 6 && path@.take(6) == "/wasm/"@ {
                assert forall|j: int| 0 <= j < 6 implies path@[j] == "/wasm/"@[j] by {
                    assert(path@.take(6)[j] == path@[j]);
                }
                assert(path@.subrange(0, 6) =~= "/wasm/"@);
            }
        }
        return None;
    }
    assert(path@.take(6) =~= "/wasm/"@);
    let mut name: Vec<char> = Vec::new();
    let mut k: usize = 6;
    while k < v.len()
        invariant
            6 <= k <= v@.len(),
            v@ == path@,
            path@.len() > 6,
            path@.take(6) == "/wasm/"@,
            "/wasm/"@.len() == 6,
            name@ == v@.subrange(6, k as int),
            !name@.contains('/'),
        decreases v.len() - k,
    {
        if v[k] == '/' {
            assert(path@.skip(6)[k - 6] == '/');
            assert(path@.skip(6).contains('/'));
            return None;
        }
        name.push(v[k]);
        assert(v@.subrange(6, k + 1) =~= v@.subrange(6, k as int).push(v@[k as int]));
        k = k + 1;
    }
    assert(name@ =~= path@.skip(6));
    Some(crate::text::string_from_chars(&name))
}

/// Whether the server runs and can be told to stop.
pub struct WasmServer {
    address: String,
    running: bool,
}

impl WasmServer {
    pub closed spec fn addr(self) -> Seq<char> {
        self.address@
    }

    pub closed spec fn is_running(self) -> bool {
        self.running
    }

    /// A stopped server for `address` (such as `127.0.0.1:3030`).
    pub fn new(address: String) -> (s: Self)
        ensures
            s.addr() == address@,
            !s.is_running(),
    {
        WasmServer { address, running: false }
    }

    /// Records that the server started.
    pub fn start(&mut self)
        ensures
            final(self).is_running(),
            final(self).addr() == old(self).addr(),
    {
        self.running = true;
    }

    /// Whether a stop signal is to be sent: only to a running server, which then counts
    /// as stopped.
    pub fn stop(&mut self) -> (send_signal: bool)
        ensures
            send_signal == old(self).is_running(),
            !final(self).is_running(),
            final(self).addr() == old(self).addr(),
    {
        let was = self.running;
        self.running = false;
        was
    }

    pub fn address(&self) -> (r: &str)
        ensures
            r@ == self.addr(),
    {
        self.address.as_str()
    }
}

} // verus!
