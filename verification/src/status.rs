//! What a state publishes of its pod.

use vstd::prelude::*;
use crate::model::{kind, Kind, Stage};

verus! {

/// The phase of a pod that a status reports.
#[derive(Clone, Copy, Debug, PartialEq, Eq, Structural)]
pub enum Phase {
    Pending,
    Running,
    Succeeded,
}

/// A status snapshot: the phase, and the reason for it.
#[derive(Debug, PartialEq, Eq)]
pub struct Status {
    pub phase: Phase,
    pub reason: String,
}

impl View for Status {
    type V = (Phase, Seq<char>);

    open spec fn view(&self) -> (Phase, Seq<char>) {
        (self.phase, self.reason@)
    }
}

/// The status of each stage: pending until the pod runs, running while it
/// does, succeeded once it is torn down. A failed pod is pending, with the
/// failure as the reason; the others give the state's name.
pub open spec fn status_of(stage: Stage) -> (Phase, Seq<char>) {
    match kind(stage) {
        Kind::Registered => (Phase::Pending, "Registered"@),
        Kind::ImagePull => (Phase::Pending, "ImagePull"@),
        Kind::Starting => (Phase::Pending, "Starting"@),
        Kind::Running => (Phase::Running, "Running"@),
        Kind::Terminated => (Phase::Succeeded, "Terminated"@),
        Kind::Error => (
            Phase::Pending,
            match stage {
                Stage::Error(message) => message,
                _ => Seq::empty(),
            },
        ),
    }
}

/// The status patch that `kubelet::pod::make_status` builds for a phase and
/// a reason, written out as JSON text; or that function's error, in words.
pub uninterp spec fn status_patch(phase: Phase, reason: Seq<char>) -> Result<Seq<char>, Seq<char>>;

/// The view of a patch or of the error in its place.
pub open spec fn json_patch(r: Result<String, String>) -> Result<Seq<char>, Seq<char>> {
    match r {
        Ok(text) => Ok(text@),
        Err(cause) => Err(cause@),
    }
}

/// Calls `kubelet::pod::make_status` with the phase and the reason, and
/// writes the `serde_json::Value` that it returns out as text, by that
/// type's `to_string`. The contract claims only that the text, or the
/// error in words, is a function of the phase and the reason.
#[verifier::external_body]
fn make_status(phase: Phase, reason: &str) -> (r: Result<String, String>)
    ensures
        json_patch(r) == status_patch(phase, reason@),
{
    let phase = match phase {
        Phase::Pending => kubelet::pod::Phase::Pending,
        Phase::Running => kubelet::pod::Phase::Running,
        Phase::Succeeded => kubelet::pod::Phase::Succeeded,
    };
    match kubelet::pod::make_status(phase, reason) {
        Ok(value) => Ok(value.to_string()),
        Err(e) => Err(e.to_string()),
    }
}

impl Status {
    /// The status as the text of a JSON patch.
    pub fn json(&self) -> (r: Result<String, String>)
        ensures
            json_patch(r) == status_patch(self@.0, self@.1),
    {
        make_status(self.phase, self.reason.as_str())
    }
}

} // verus!
