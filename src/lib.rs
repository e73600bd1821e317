use vstd::prelude::*;

verus! {

/// The kind of build a caller runs in: a native binary or a WebAssembly module.
#[derive(Clone, Copy, Debug, PartialEq, Eq, Structural)]
pub enum Target {
    Native,
    Wasm,
}

/// The three greeting operations.
#[derive(Clone, Copy, Debug, PartialEq, Eq, Structural)]
pub enum Greeting {
    Standard,
    Wasm,
    AllTargets,
}

/// The fixed text of each greeting.
pub open spec fn greeting_text(g: Greeting) -> Seq<char> {
    match g {
        Greeting::Standard => "Hello, world!"@,
        Greeting::Wasm => "Hello, WASM!"@,
        Greeting::AllTargets => "Hello, all targets!"@,
    }
}

/// Whether greeting `g` may be requested in a build for `t`: the standard
/// greeting only outside WebAssembly, the WebAssembly greeting only inside it,
/// the universal one everywhere.
pub open spec fn allowed_on(g: Greeting, t: Target) -> bool {
    match g {
        Greeting::Standard => t == Target::Native,
        Greeting::Wasm => t == Target::Wasm,
        Greeting::AllTargets => true,
    }
}

/// The classic greeting, for a caller built for `target`. Only a native
/// build may ask for it: a caller tests `is_allowed` first.
pub fn standard_hello(target: Target) -> (r: String)
    requires
        allowed_on(Greeting::Standard, target),
    ensures
        r@ == greeting_text(Greeting::Standard),
{
    "Hello, world!".to_string()
}

/// The WebAssembly greeting, for a caller built for `target`. Only a
/// WebAssembly build may ask for it: a caller tests `is_allowed` first.
pub fn wasm_hello(target: Target) -> (r: String)
    requires
        allowed_on(Greeting::Wasm, target),
    ensures
        r@ == greeting_text(Greeting::Wasm),
{
    "Hello, WASM!".to_string()
}

/// The greeting that every build may ask for.
pub fn all_targets_hello() -> (r: String)
    ensures
        r@ == greeting_text(Greeting::AllTargets),
{
    "Hello, all targets!".to_string()
}

/// Whether greeting `g` may be requested in a build for `target`. A caller
/// that gets `false` has asked in the wrong environment and must stop.
pub fn is_allowed(g: Greeting, target: Target) -> (r: bool)
    ensures
        r == allowed_on(g, target),
{
    match g {
        Greeting::Standard => match target {
            Target::Native => true,
            Target::Wasm => false,
        },
        Greeting::Wasm => match target {
            Target::Native => false,
            Target::Wasm => true,
        },
        Greeting::AllTargets => true,
    }
}

/// In a native build the standard greeting is allowed and the WebAssembly
/// greeting is refused; in a WebAssembly build it is the other way round. As
/// these are the preconditions of `standard_hello` and `wasm_hello`, exactly
/// one of the two can be called in any one build.
pub proof fn lemma_restricted_by_target(t: Target)
    ensures
        allowed_on(Greeting::Standard, t) <==> t == Target::Native,
        allowed_on(Greeting::Wasm, t) <==> t == Target::Wasm,
        allowed_on(Greeting::Standard, t) != allowed_on(Greeting::Wasm, t),
{
}

/// The universal greeting is allowed in every build.
pub proof fn lemma_universal_allowed(t: Target)
    ensures
        allowed_on(Greeting::AllTargets, t),
        greeting_text(Greeting::AllTargets) == "Hello, all targets!"@,
{
}

} // verus!
