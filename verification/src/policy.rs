//! Image pull policy evaluation.

use vstd::prelude::*;

verus! {

/// When an image has to be fetched before a container is created.
#[derive(Clone, Copy, Debug, PartialEq, Eq, Structural)]
pub enum PullPolicy {
    Always,
    IfNotPresent,
    Never,
}

/// Whether an image is pulled, given the policy and whether it is present:
/// under `Always`, and under `IfNotPresent` if it is absent.
pub open spec fn spec_should_pull(policy: PullPolicy, present: bool) -> bool {
    policy == PullPolicy::Always || (policy == PullPolicy::IfNotPresent && !present)
}

/// Decides whether to pull: always for `Always`, never for `Never`, and
/// for `IfNotPresent` exactly when the image is absent.
pub fn should_pull(policy: PullPolicy, present: bool) -> (r: bool)
    ensures
        r == spec_should_pull(policy, present),
{
    match policy {
        PullPolicy::Always => true,
        PullPolicy::IfNotPresent => !present,
        PullPolicy::Never => false,
    }
}

} // verus!
