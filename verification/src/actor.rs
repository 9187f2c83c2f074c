//! The per-identity actor lifecycle.
//!
//! An actor is a long-lived, strictly serialized state holder with two
//! states: Unloaded (initial) and Loaded (terminal until the host recycles
//! the instance). The first valid request triggers a model load; a
//! successful load caches the parameters for the rest of the instance's
//! lifetime, a failed load leaves the instance Unloaded so a later request
//! retries from scratch. The host performs the outside work (fetching and
//! decoding the weight blob, running the forward pass) and feeds the
//! outcomes back; this module makes every decision.
//!
//! Cached parameters are named by an opaque `u64` token: the host owns the
//! decoded weights and hands out the token at decode time. An actor never
//! shares its token with another actor, so distinct identities hold fully
//! independent state.

use vstd::prelude::*;

use crate::errors::ClassifyError;
use crate::errors::LoadError;
use crate::input::INPUT_LEN;
use crate::input::RawInput;

verus! {

/// What the host must do next for one request.
pub enum Step {
    /// Answer the request with this error.
    Reject { error: ClassifyError },
    /// Fetch and decode the weights, feed the outcome to `complete_load`,
    /// and classify `input` only if the load succeeded.
    NeedLoad { input: RawInput },
    /// Run the pipeline on `input` with the cached parameters `model`.
    Classify { model: u64, input: RawInput },
}

/// The decision component of a `Step`, with the input stripped.
pub enum Decision {
    Reject(ClassifyError),
    Load,
    Run(u64),
}

/// The decision an actor takes for one request, as a pure function of its
/// state and of the decoded body alone: a missing or wrong-length body is
/// rejected before anything else, a valid body runs on the cached
/// parameters if there are any and plans a load otherwise.
pub open spec fn spec_decision(model: Option<u64>, body: Option<Seq<u32>>) -> Decision {
    match body {
        None => Decision::Reject(ClassifyError::MalformedInput),
        Some(b) => if b.len() != INPUT_LEN {
            Decision::Reject(ClassifyError::MalformedInput)
        } else {
            match model {
                Some(m) => Decision::Run(m),
                None => Decision::Load,
            }
        },
    }
}

/// The decision a `Step` embodies.
pub open spec fn step_decision(step: Step) -> Decision {
    match step {
        Step::Reject { error } => Decision::Reject(error),
        Step::NeedLoad { .. } => Decision::Load,
        Step::Classify { model, .. } => Decision::Run(model),
    }
}

/// A per-identity stateful actor instance.
pub struct Actor {
    model: Option<u64>,
}

impl Actor {
    /// The cached parameter token, if the instance is Loaded.
    pub closed spec fn model_id(self) -> Option<u64> {
        self.model
    }

    /// Whether the instance is in the Loaded state.
    pub open spec fn loaded(self) -> bool {
        self.model_id() is Some
    }

    /// Whether the instance is Loaded, as the host can observe it.
    pub fn is_loaded(&self) -> (b: bool)
        ensures
            b == self.loaded(),
    {
        self.model.is_some()
    }

    /// A fresh instance starts Unloaded.
    pub fn new() -> (a: Actor)
        ensures
            !a.loaded(),
    {
        Actor { model: None }
    }

    /// One request arrives with its decoded body (`None` when the body was
    /// not a numeric array). The step returned is exactly
    /// `spec_decision(self.model_id(), ...)`: malformed input is rejected
    /// before any load is attempted, and a valid input is carried into the
    /// step unchanged.
    pub fn on_request(&self, body: Option<Vec<u32>>) -> (step: Step)
        ensures
            step_decision(step) == spec_decision(
                self.model_id(),
                match body {
                    Some(b) => Some(b@),
                    None => None::<Seq<u32>>,
                },
            ),
            step matches Step::NeedLoad { input } ==> (body matches Some(b) && input@ == b@
                && input.wf()),
            step matches Step::Classify { input, .. } ==> (body matches Some(b) && input@ == b@
                && input.wf()),
    {
        match body {
            None => Step::Reject { error: ClassifyError::MalformedInput },
            Some(b) => match RawInput::new(b) {
                Err(error) => Step::Reject { error },
                Ok(input) => match self.model {
                    Some(model) => Step::Classify { model, input },
                    None => Step::NeedLoad { input },
                },
            },
        }
    }

    /// Feed back the host's load outcome; callable only while Unloaded. A
    /// success moves the instance to Loaded with exactly these parameters
    /// and hands the token back for immediate use; a failure leaves the
    /// instance Unloaded and surfaces the cause as `ModelUnavailable`.
    pub fn complete_load(&mut self, outcome: Result<u64, LoadError>) -> (r: Result<
        u64,
        ClassifyError,
    >)
        requires
            !old(self).loaded(),
        ensures
            match outcome {
                Ok(m) => final(self).model_id() == Some(m) && r == Ok::<u64, ClassifyError>(m),
                Err(e) => !final(self).loaded() && r == Err::<u64, ClassifyError>(
                    ClassifyError::ModelUnavailable(e),
                ),
            },
    {
        match outcome {
            Ok(m) => {
                self.model = Some(m);
                Ok(m)
            },
            Err(e) => Err(ClassifyError::ModelUnavailable(e)),
        }
    }
}

/// Load-once: an actor loaded with parameters `m` never plans another load,
/// whatever bodies arrive; every valid request among any number of
/// sequential requests runs on the same cached `m`. Together with
/// `complete_load`, which is callable only while Unloaded, the loader runs
/// at most once per instance after a success.
pub proof fn lemma_load_once(m: u64, bodies: Seq<Option<Seq<u32>>>)
    ensures
        forall|i: int| 0 <= i < bodies.len() ==> spec_decision(Some(m), #[trigger] bodies[i])
            != Decision::Load,
        forall|i: int| 0 <= i < bodies.len() ==> ((#[trigger] bodies[i]) matches Some(b)
            && b.len() == INPUT_LEN ==> spec_decision(Some(m), bodies[i]) == Decision::Run(m)),
{
}

/// Failure isolation: after a failed load the instance is Unloaded again,
/// and an Unloaded actor plans a fresh load for the next valid request
/// rather than reusing poisoned state.
pub proof fn lemma_failed_load_retries(body: Seq<u32>)
    requires
        body.len() == INPUT_LEN,
    ensures
        spec_decision(None::<u64>, Some(body)) == Decision::Load,
{
}

/// A malformed body is rejected identically in every actor state, and in
/// particular never triggers a load.
pub proof fn lemma_malformed_never_loads(model: Option<u64>, body: Option<Seq<u32>>)
    requires
        match body {
            Some(b) => b.len() != INPUT_LEN,
            None => true,
        },
    ensures
        spec_decision(model, body) == Decision::Reject(ClassifyError::MalformedInput),
        spec_decision(model, body) != Decision::Load,
{
}

} // verus!
