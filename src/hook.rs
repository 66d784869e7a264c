use vstd::prelude::*;

verus! {

/// The calling conventions a trampoline can be built for. A trampoline must use exactly
/// the convention of the call it replaces, or the stack is corrupted.
#[derive(Debug, Clone, Copy, PartialEq, Eq, Structural)]
pub enum CallingConvention {
    Stdcall,
    Cdecl,
    Thiscall,
    Fastcall,
    System,
}

impl CallingConvention {
    /// The name Rust gives the convention in an `extern` declaration.
    pub fn abi_name(&self) -> (r: &'static str)
        ensures
            r@ == abi_name_of(*self),
    {
        match self {
            CallingConvention::Stdcall => "stdcall",
            CallingConvention::Cdecl => "cdecl",
            CallingConvention::Thiscall => "thiscall",
            CallingConvention::Fastcall => "fastcall",
            CallingConvention::System => "system",
        }
    }
}

/// The name of each convention in an `extern` declaration.
pub open spec fn abi_name_of(c: CallingConvention) -> Seq<char> {
    match c {
        CallingConvention::Stdcall => "stdcall"@,
        CallingConvention::Cdecl => "cdecl"@,
        CallingConvention::Thiscall => "thiscall"@,
        CallingConvention::Fastcall => "fastcall"@,
        CallingConvention::System => "system"@,
    }
}

/// A function a trampoline calls.
#[derive(Debug, Clone, Copy, PartialEq, Eq, Structural)]
pub enum Callee {
    /// The function supplied to hook the call.
    Handler,
    /// The function the call site reached before it was patched.
    Original,
}

/// How a trampoline combines the handler with the original function.
#[derive(Debug, Clone, Copy, PartialEq, Eq, Structural)]
pub enum HookPolicy {
    /// Calls the handler only.
    Replace,
    /// Calls the handler, then the original; returns the handler's result.
    PreRetNew,
    /// Calls the original, then the handler; returns the handler's result.
    PostRetNew,
    /// Calls the handler, then the original; returns the original's result.
    PreRetOld,
    /// Calls the original, then the handler; returns the original's result.
    PostRetOld,
    /// Calls the handler with the original as an argument, and lets it decide whether
    /// and when to call it; returns the handler's result.
    Hook,
}

/// The calls a trampoline under policy `p` makes itself, in order.
pub open spec fn call_order(p: HookPolicy) -> Seq<Callee> {
    match p {
        HookPolicy::Replace => seq![Callee::Handler],
        HookPolicy::PreRetNew => seq![Callee::Handler, Callee::Original],
        HookPolicy::PostRetNew => seq![Callee::Original, Callee::Handler],
        HookPolicy::PreRetOld => seq![Callee::Handler, Callee::Original],
        HookPolicy::PostRetOld => seq![Callee::Original, Callee::Handler],
        HookPolicy::Hook => seq![Callee::Handler],
    }
}

/// Whose result a trampoline under policy `p` returns.
pub open spec fn result_of(p: HookPolicy) -> Callee {
    match p {
        HookPolicy::PreRetOld | HookPolicy::PostRetOld => Callee::Original,
        _ => Callee::Handler,
    }
}

impl HookPolicy {
    /// The calls the trampoline makes, in order.
    pub fn calls(&self) -> (r: Vec<Callee>)
        ensures
            r@ == call_order(*self),
    {
        let r = match self {
            HookPolicy::Replace | HookPolicy::Hook => vec![Callee::Handler],
            HookPolicy::PreRetNew | HookPolicy::PreRetOld => vec![Callee::Handler, Callee::Original],
            HookPolicy::PostRetNew | HookPolicy::PostRetOld => vec![Callee::Original, Callee::Handler],
        };
        assert(r@ =~= call_order(*self));
        r
    }

    /// Whose result the trampoline returns.
    pub fn result_from(&self) -> (r: Callee)
        ensures
            r == result_of(*self),
    {
        match self {
            HookPolicy::PreRetOld | HookPolicy::PostRetOld => Callee::Original,
            _ => Callee::Handler,
        }
    }

    /// Whether the handler receives the original function to call as it sees fit.
    pub fn passes_original(&self) -> (r: bool)
        ensures
            r <==> *self == HookPolicy::Hook,
    {
        matches!(self, HookPolicy::Hook)
    }
}

} // verus!
