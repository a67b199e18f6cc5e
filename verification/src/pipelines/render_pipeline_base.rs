//! The hot-reload decision that every pass shares.

use vstd::prelude::*;

verus! {

/// A pass is rebuilt exactly when its source was modified strictly after the
/// time recorded at the last build.
pub open spec fn spec_need_recompile_shader(recorded_time: u64, source_time: u64) -> bool {
    source_time > recorded_time
}

/// Decides from the recorded time of a pass and the modification time just
/// read from its source whether the shader has to be rebuilt.
#[verifier::when_used_as_spec(spec_need_recompile_shader)]
pub fn need_recompile_shader(recorded_time: u64, source_time: u64) -> (needed: bool)
    ensures
        needed == spec_need_recompile_shader(recorded_time, source_time),
{
    source_time > recorded_time
}

/// What a pass answers when asked to reload: nothing to do, or a request
/// that the caller has to carry out.
#[derive(Debug, PartialEq, Eq)]
pub enum ReloadDecision<R> {
    AlreadyUpToDate,
    Recompile(R),
}

/// The answer of a pass that would hand out `request` for a rebuild.
pub open spec fn spec_reload_decision<R>(
    recorded_time: u64,
    source_time: u64,
    request: R,
) -> ReloadDecision<R> {
    if spec_need_recompile_shader(recorded_time, source_time) {
        ReloadDecision::Recompile(request)
    } else {
        ReloadDecision::AlreadyUpToDate
    }
}

/// The start of a reload attempt, the same for every pass: the request is
/// handed out exactly when the source is strictly newer than the time the
/// pass has recorded.
pub fn reload_decision<R>(recorded_time: u64, source_time: u64, request: R) -> (decision:
    ReloadDecision<R>)
    ensures
        decision == spec_reload_decision(recorded_time, source_time, request),
{
    if !need_recompile_shader(recorded_time, source_time) {
        return ReloadDecision::AlreadyUpToDate;
    }
    ReloadDecision::Recompile(request)
}

} // verus!
