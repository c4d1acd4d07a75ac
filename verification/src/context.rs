//! Creating a graphics context by a fixed chain of fallbacks.

use crate::error::RenderError;
use vstd::prelude::*;

verus! {

/// The family of interface that a context is asked to speak.
#[derive(Clone, Copy, Debug, PartialEq, Eq)]
pub enum ContextApi {
    /// Whatever the platform creates when nothing is asked for: a modern
    /// core context.
    Default,
    /// The embedded profile.
    Gles,
    /// The desktop interface.
    OpenGl,
}

/// What is asked of the platform in one attempt to create a context.
#[derive(Clone, Copy, Debug, PartialEq, Eq)]
pub struct ContextAttributes {
    pub api: ContextApi,
    /// The version asked for, major and minor; `None` leaves it open.
    pub version: Option<(u8, u8)>,
}

/// The strategies of the fallback chain, in the order in which they are
/// tried.
#[derive(Clone, Copy, Debug, PartialEq, Eq)]
pub enum ContextStrategy {
    /// A modern core context.
    ModernCore,
    /// An embedded-profile context of any version.
    EmbeddedNoVersion,
    /// A context of version 2.1, for devices that have nothing newer.
    Legacy21,
}

impl ContextStrategy {
    /// The place of the strategy in the chain, from zero.
    pub open spec fn rank(self) -> int {
        match self {
            ContextStrategy::ModernCore => 0,
            ContextStrategy::EmbeddedNoVersion => 1,
            ContextStrategy::Legacy21 => 2,
        }
    }

    /// The strategy at a place in the chain.
    pub open spec fn at(rank: int) -> ContextStrategy {
        if rank <= 0 {
            ContextStrategy::ModernCore
        } else if rank == 1 {
            ContextStrategy::EmbeddedNoVersion
        } else {
            ContextStrategy::Legacy21
        }
    }

    /// The strategy that follows in the chain.
    pub open spec fn spec_fallback(self) -> Option<ContextStrategy> {
        match self {
            ContextStrategy::ModernCore => Some(ContextStrategy::EmbeddedNoVersion),
            ContextStrategy::EmbeddedNoVersion => Some(ContextStrategy::Legacy21),
            ContextStrategy::Legacy21 => None,
        }
    }

    /// The strategy that follows in the chain.
    #[verifier::when_used_as_spec(spec_fallback)]
    pub fn fallback(self) -> (next: Option<ContextStrategy>)
        ensures
            next == self.spec_fallback(),
    {
        match self {
            ContextStrategy::ModernCore => Some(ContextStrategy::EmbeddedNoVersion),
            ContextStrategy::EmbeddedNoVersion => Some(ContextStrategy::Legacy21),
            ContextStrategy::Legacy21 => None,
        }
    }

    /// What the strategy asks of the platform.
    pub open spec fn spec_attributes(self) -> ContextAttributes {
        match self {
            ContextStrategy::ModernCore => ContextAttributes {
                api: ContextApi::Default,
                version: None,
            },
            ContextStrategy::EmbeddedNoVersion => ContextAttributes {
                api: ContextApi::Gles,
                version: None,
            },
            ContextStrategy::Legacy21 => ContextAttributes {
                api: ContextApi::OpenGl,
                version: Some((2u8, 1u8)),
            },
        }
    }

    /// What the strategy asks of the platform.
    #[verifier::when_used_as_spec(spec_attributes)]
    pub fn attributes(self) -> (attributes: ContextAttributes)
        ensures
            attributes == self.spec_attributes(),
    {
        match self {
            ContextStrategy::ModernCore => ContextAttributes {
                api: ContextApi::Default,
                version: None,
            },
            ContextStrategy::EmbeddedNoVersion => ContextAttributes {
                api: ContextApi::Gles,
                version: None,
            },
            ContextStrategy::Legacy21 => ContextAttributes {
                api: ContextApi::OpenGl,
                version: Some((2, 1)),
            },
        }
    }
}

/// Where the creation of a context stands.
#[derive(Clone, Debug, PartialEq, Eq)]
pub enum ContextProgress {
    /// The host is to attempt this strategy and report whether a context
    /// came of it.
    Attempt(ContextStrategy),
    /// A context was created by this strategy.
    Created(ContextStrategy),
    /// No strategy is left.
    Failed(RenderError),
}

/// The mathematical content of a [`ContextProgress`].
pub enum ContextProgressView {
    Attempt(ContextStrategy),
    Created(ContextStrategy),
    Failed,
}

impl DeepView for ContextProgress {
    type V = ContextProgressView;

    open spec fn deep_view(&self) -> ContextProgressView {
        match *self {
            ContextProgress::Attempt(strategy) => ContextProgressView::Attempt(strategy),
            ContextProgress::Created(strategy) => ContextProgressView::Created(strategy),
            ContextProgress::Failed(_) => ContextProgressView::Failed,
        }
    }
}

/// What follows an attempt: a success ends the chain with that strategy; a
/// failure leads to the next strategy, or to failure where none is left.
pub open spec fn after_attempt(strategy: ContextStrategy, succeeded: bool) -> ContextProgressView {
    if succeeded {
        ContextProgressView::Created(strategy)
    } else {
        match strategy.spec_fallback() {
            Some(next) => ContextProgressView::Attempt(next),
            None => ContextProgressView::Failed,
        }
    }
}

/// Where the chain stands after the platform has answered the attempts so
/// far with the given outcomes. Outcomes beyond the end of the chain are not
/// looked at: nothing is attempted any more.
pub open spec fn chain_after(outcomes: Seq<bool>) -> ContextProgressView
    decreases outcomes.len(),
{
    if outcomes.len() == 0 {
        ContextProgressView::Attempt(ContextStrategy::ModernCore)
    } else {
        match chain_after(outcomes.drop_last()) {
            ContextProgressView::Attempt(strategy) => after_attempt(strategy, outcomes.last()),
            ended => ended,
        }
    }
}

/// Begins to create a context: the first strategy to attempt.
pub fn create_gl_context() -> (progress: ContextProgress)
    ensures
        progress.deep_view() == chain_after(Seq::empty()),
        progress == ContextProgress::Attempt(ContextStrategy::ModernCore),
{
    ContextProgress::Attempt(ContextStrategy::ModernCore)
}

/// Takes the outcome of the attempt of `strategy` and says how to go on.
pub fn context_attempted(strategy: ContextStrategy, succeeded: bool) -> (progress: ContextProgress)
    ensures
        progress.deep_view() == after_attempt(strategy, succeeded),
        progress matches ContextProgress::Failed(error) ==> error
            == RenderError::ContextCreationFailed,
{
    if succeeded {
        ContextProgress::Created(strategy)
    } else {
        match strategy.fallback() {
            Some(next) => ContextProgress::Attempt(next),
            None => ContextProgress::Failed(RenderError::ContextCreationFailed),
        }
    }
}

/// While the chain is under way, every attempt so far has failed, and the
/// strategy to attempt next is the one whose place is the number of
/// failures.
pub proof fn lemma_chain_attempts_in_order(outcomes: Seq<bool>)
    ensures
        chain_after(outcomes) matches ContextProgressView::Attempt(strategy) ==> {
            &&& strategy.rank() == outcomes.len()
            &&& forall|i: int| 0 <= i < outcomes.len() ==> !outcomes[i]
        },
    decreases outcomes.len(),
{
    if outcomes.len() > 0 {
        lemma_chain_attempts_in_order(outcomes.drop_last());
        assert forall|i: int| 0 <= i < outcomes.len() - 1 implies outcomes[i]
            == outcomes.drop_last()[i] by {}
    }
}

/// The order of the chain is fixed. If a context is created by a strategy,
/// every strategy before it in the chain was attempted before it and
/// failed, in the order of the chain, and the strategy itself was attempted
/// next and succeeded.
pub proof fn lemma_first_success_wins(outcomes: Seq<bool>)
    ensures
        chain_after(outcomes) matches ContextProgressView::Created(strategy) ==> {
            &&& strategy.rank() < outcomes.len()
            &&& outcomes[strategy.rank()]
            &&& chain_after(outcomes.take(strategy.rank())) == ContextProgressView::Attempt(
                strategy,
            )
            &&& forall|i: int|
                0 <= i < strategy.rank() ==> !outcomes[i] && (#[trigger] chain_after(
                    outcomes.take(i),
                )) == ContextProgressView::Attempt(ContextStrategy::at(i))
        },
    decreases outcomes.len(),
{
    if outcomes.len() > 0 {
        let before = outcomes.drop_last();
        lemma_first_success_wins(before);
        lemma_chain_attempts_in_order(before);
        match chain_after(before) {
            ContextProgressView::Attempt(strategy) => {
                if outcomes.last() {
                    assert(outcomes.take(strategy.rank()) =~= before);
                    assert forall|i: int| 0 <= i < strategy.rank() implies !outcomes[i] && (
                    #[trigger] chain_after(outcomes.take(i))) == ContextProgressView::Attempt(
                        ContextStrategy::at(i),
                    ) by {
                        assert(outcomes[i] == before[i]);
                        lemma_prefix_still_attempting(before, i);
                        assert(outcomes.take(i) =~= before.take(i));
                    }
                }
            },
            ContextProgressView::Created(strategy) => {
                assert(outcomes[strategy.rank()] == before[strategy.rank()]);
                assert(outcomes.take(strategy.rank()) =~= before.take(strategy.rank()));
                assert forall|i: int| 0 <= i < strategy.rank() implies !outcomes[i] && (
                #[trigger] chain_after(outcomes.take(i))) == ContextProgressView::Attempt(
                    ContextStrategy::at(i),
                ) by {
                    assert(outcomes[i] == before[i]);
                    assert(outcomes.take(i) =~= before.take(i));
                }
            },
            ContextProgressView::Failed => {},
        }
    }
}

/// A chain that is still under way was under way after every shorter run
/// of the same outcomes.
proof fn lemma_prefix_still_attempting(outcomes: Seq<bool>, n: int)
    requires
        0 <= n <= outcomes.len(),
        chain_after(outcomes) is Attempt,
    ensures
        chain_after(outcomes.take(n)) == ContextProgressView::Attempt(ContextStrategy::at(n)),
    decreases outcomes.len(),
{
    if n == outcomes.len() {
        assert(outcomes.take(n) =~= outcomes);
        lemma_chain_attempts_in_order(outcomes);
    } else {
        assert(outcomes.drop_last().take(n) =~= outcomes.take(n));
        lemma_prefix_still_attempting(outcomes.drop_last(), n);
    }
}

/// The chain fails only after all three strategies have been attempted and
/// have failed.
pub proof fn lemma_failure_exhausts_chain(outcomes: Seq<bool>)
    ensures
        chain_after(outcomes) is Failed ==> outcomes.len() >= 3 && !outcomes[0] && !outcomes[1]
            && !outcomes[2],
    decreases outcomes.len(),
{
    if outcomes.len() > 0 {
        let before = outcomes.drop_last();
        lemma_failure_exhausts_chain(before);
        lemma_chain_attempts_in_order(before);
        if before.len() >= 3 {
            assert(outcomes[0] == before[0] && outcomes[1] == before[1] && outcomes[2]
                == before[2]);
        } else if before.len() == 2 {
            assert(outcomes[0] == before[0] && outcomes[1] == before[1]);
        }
    }
}

} // verus!
