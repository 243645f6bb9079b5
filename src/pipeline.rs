use vstd::prelude::*;

verus! {

/// Why start-up failed. Every start-up failure is fatal.
#[derive(Clone, Copy, Debug, PartialEq, Eq, Structural)]
pub enum FailureReason {
    Download,
    Descriptor,
    Tokenizer,
    Backend,
    Unhealthy,
    Assembly,
}

/// Where the one-time start-up of the inference engine stands.
#[derive(Clone, Copy, Debug, PartialEq, Eq, Structural)]
pub enum Stage {
    Unconfigured,
    ArtifactsResolving,
    ConfigParsed,
    TokenizerReady,
    BackendConstructed,
    HealthChecked,
    Ready,
    Failed(FailureReason),
}

/// The work that the caller performs next, and whose outcome it reports back.
#[derive(Clone, Copy, Debug, PartialEq, Eq, Structural)]
pub enum Action {
    /// Fetch the model's files.
    DownloadArtifacts,
    /// Read and parse the model descriptor.
    ParseDescriptor,
    /// Load the tokenizer and patch it.
    PrepareTokenizer,
    /// Build the compute backend.
    ConstructBackend,
    /// Probe the backend's health.
    ProbeHealth,
    /// Build the request queue and bind it with the tokenizer and backend.
    AssembleEngine,
    /// Start-up is over: serve requests.
    Serve,
    /// Start-up is over: stop the process.
    Abort(FailureReason),
}

pub open spec fn is_terminal(s: Stage) -> bool {
    s is Ready || s is Failed
}

/// The stage that a successful step leads to.
pub open spec fn successor(s: Stage) -> Stage {
    match s {
        Stage::Unconfigured => Stage::ArtifactsResolving,
        Stage::ArtifactsResolving => Stage::ConfigParsed,
        Stage::ConfigParsed => Stage::TokenizerReady,
        Stage::TokenizerReady => Stage::BackendConstructed,
        Stage::BackendConstructed => Stage::HealthChecked,
        Stage::HealthChecked => Stage::Ready,
        _ => s,
    }
}

/// The failure that a failed step leads to.
pub open spec fn failure_at(s: Stage) -> FailureReason {
    match s {
        Stage::Unconfigured => FailureReason::Download,
        Stage::ArtifactsResolving => FailureReason::Descriptor,
        Stage::ConfigParsed => FailureReason::Tokenizer,
        Stage::TokenizerReady => FailureReason::Backend,
        Stage::BackendConstructed => FailureReason::Unhealthy,
        _ => FailureReason::Assembly,
    }
}

/// The work that each stage asks for.
pub open spec fn action_at(s: Stage) -> Action {
    match s {
        Stage::Unconfigured => Action::DownloadArtifacts,
        Stage::ArtifactsResolving => Action::ParseDescriptor,
        Stage::ConfigParsed => Action::PrepareTokenizer,
        Stage::TokenizerReady => Action::ConstructBackend,
        Stage::BackendConstructed => Action::ProbeHealth,
        Stage::HealthChecked => Action::AssembleEngine,
        Stage::Ready => Action::Serve,
        Stage::Failed(r) => Action::Abort(r),
    }
}

/// The stage after the work of stage `s` has succeeded (`ok`) or failed.
/// `Ready` and `Failed` are final: nothing leads out of them.
pub open spec fn step(s: Stage, ok: bool) -> Stage {
    if is_terminal(s) {
        s
    } else if ok {
        successor(s)
    } else {
        Stage::Failed(failure_at(s))
    }
}

/// The stage reached from `s` by the outcomes `outcomes`, in order.
pub open spec fn run(s: Stage, outcomes: Seq<bool>) -> Stage
    decreases outcomes.len(),
{
    if outcomes.len() == 0 {
        s
    } else {
        run(step(s, outcomes[0]), outcomes.drop_first())
    }
}

impl Stage {
    /// The work that this stage asks the caller to perform.
    pub fn action(&self) -> (r: Action)
        ensures
            r == action_at(*self),
    {
        match self {
            Stage::Unconfigured => Action::DownloadArtifacts,
            Stage::ArtifactsResolving => Action::ParseDescriptor,
            Stage::ConfigParsed => Action::PrepareTokenizer,
            Stage::TokenizerReady => Action::ConstructBackend,
            Stage::BackendConstructed => Action::ProbeHealth,
            Stage::HealthChecked => Action::AssembleEngine,
            Stage::Ready => Action::Serve,
            Stage::Failed(r) => Action::Abort(*r),
        }
    }

    /// The next stage, once the work of this one has succeeded or failed.
    pub fn advance(&self, ok: bool) -> (r: Stage)
        ensures
            r == step(*self, ok),
    {
        match self {
            Stage::Ready | Stage::Failed(_) => *self,
            _ => {
                if ok {
                    match self {
                        Stage::Unconfigured => Stage::ArtifactsResolving,
                        Stage::ArtifactsResolving => Stage::ConfigParsed,
                        Stage::ConfigParsed => Stage::TokenizerReady,
                        Stage::TokenizerReady => Stage::BackendConstructed,
                        Stage::BackendConstructed => Stage::HealthChecked,
                        _ => Stage::Ready,
                    }
                } else {
                    let reason = match self {
                        Stage::Unconfigured => FailureReason::Download,
                        Stage::ArtifactsResolving => FailureReason::Descriptor,
                        Stage::ConfigParsed => FailureReason::Tokenizer,
                        Stage::TokenizerReady => FailureReason::Backend,
                        Stage::BackendConstructed => FailureReason::Unhealthy,
                        _ => FailureReason::Assembly,
                    };
                    Stage::Failed(reason)
                }
            },
        }
    }
}

/// A failed start-up stays failed, whatever is reported after.
pub proof fn lemma_failed_is_final(r: FailureReason, outcomes: Seq<bool>)
    ensures
        run(Stage::Failed(r), outcomes) == Stage::Failed(r),
    decreases outcomes.len(),
{
    if outcomes.len() > 0 {
        lemma_failed_is_final(r, outcomes.drop_first());
    }
}

/// A start-up that has become ready stays ready.
pub proof fn lemma_ready_is_final(outcomes: Seq<bool>)
    ensures
        run(Stage::Ready, outcomes) == Stage::Ready,
    decreases outcomes.len(),
{
    if outcomes.len() > 0 {
        lemma_ready_is_final(outcomes.drop_first());
    }
}

/// How many successful steps still separate a stage from `Ready`.
pub open spec fn steps_to_ready(s: Stage) -> nat {
    match s {
        Stage::Unconfigured => 6,
        Stage::ArtifactsResolving => 5,
        Stage::ConfigParsed => 4,
        Stage::TokenizerReady => 3,
        Stage::BackendConstructed => 2,
        Stage::HealthChecked => 1,
        _ => 0,
    }
}

/// From a stage that has not failed, start-up becomes ready exactly when the
/// next `steps_to_ready(s)` outcomes all succeed; one failure among them,
/// the health probe's included, keeps it from ever being ready.
pub proof fn lemma_ready_needs_every_step(s: Stage, outcomes: Seq<bool>)
    requires
        !(s is Failed),
    ensures
        run(s, outcomes) == Stage::Ready <==> (outcomes.len() >= steps_to_ready(s) && forall|i: int|
            0 <= i < steps_to_ready(s) ==> #[trigger] outcomes[i]),
    decreases outcomes.len(),
{
    if s is Ready {
        lemma_ready_is_final(outcomes);
    } else if outcomes.len() > 0 {
        let tail = outcomes.drop_first();
        if outcomes[0] {
            lemma_ready_needs_every_step(successor(s), tail);
            assert forall|i: int| 1 <= i < outcomes.len() implies outcomes[i] == tail[i - 1] by {}
            if run(s, outcomes) == Stage::Ready {
                assert forall|i: int| 0 <= i < steps_to_ready(s) implies #[trigger] outcomes[i] by {
                    if i > 0 {
                        assert(tail[i - 1]);
                    }
                }
            } else {
                if outcomes.len() >= steps_to_ready(s) && forall|i: int|
                    0 <= i < steps_to_ready(s) ==> #[trigger] outcomes[i] {
                    assert forall|i: int| 0 <= i < steps_to_ready(successor(s)) implies #[trigger] tail[i] by {
                        assert(outcomes[i + 1]);
                    }
                }
            }
        } else {
            lemma_failed_is_final(failure_at(s), tail);
        }
    }
}

} // verus!
