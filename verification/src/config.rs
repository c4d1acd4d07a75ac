//! Choosing one graphics configuration among those that the platform
//! offers.

use crate::error::RenderError;
use vstd::prelude::*;

verus! {

/// The capabilities of a framebuffer configuration, as the platform
/// reports them.
#[derive(Clone, Copy, Debug, PartialEq, Eq)]
pub struct GraphicsConfig {
    pub float_pixels: bool,
    pub alpha_size: u8,
    pub depth_size: u8,
    pub stencil_size: u8,
    pub num_samples: u8,
    pub srgb_capable: bool,
    pub hardware_accelerated: bool,
    /// Whether windows of this configuration can be transparent; `None`
    /// where the platform cannot tell.
    pub supports_transparency: Option<bool>,
}

impl GraphicsConfig {
    /// Whether the configuration is known to support transparency.
    pub open spec fn transparent(self) -> bool {
        self.supports_transparency == Some(true)
    }

    /// What the choice looks at: transparency and sample count.
    pub open spec fn key(self) -> (bool, u8) {
        (self.transparent(), self.num_samples)
    }

    /// A candidate takes the place of the best so far if it offers
    /// transparency where the best does not, or otherwise strictly more
    /// samples.
    pub open spec fn spec_preferred_to(self, best: GraphicsConfig) -> bool {
        (self.transparent() && !best.transparent()) || self.num_samples > best.num_samples
    }

    /// Whether this candidate takes the place of the best so far.
    pub fn preferred_to(&self, best: &GraphicsConfig) -> (preferred: bool)
        ensures
            preferred == self.spec_preferred_to(*best),
    {
        let gains_transparency = match self.supports_transparency {
            Some(true) => match best.supports_transparency {
                Some(true) => false,
                _ => true,
            },
            _ => false,
        };
        gains_transparency || self.num_samples > best.num_samples
    }
}

/// The position of the configuration that is chosen among the first `n`:
/// the first is the best to begin with, and each later one takes its place
/// if it is preferred to it.
pub open spec fn picked(configs: Seq<GraphicsConfig>, n: nat) -> int
    decreases n,
{
    if n <= 1 {
        0
    } else {
        let best = picked(configs, (n - 1) as nat);
        if configs[n - 1].spec_preferred_to(configs[best]) {
            n - 1
        } else {
            best
        }
    }
}

/// Chooses among the configurations that the platform offers and returns
/// the position of the chosen one. Fails if there is none to choose from.
pub fn gl_config_picker(configs: &Vec<GraphicsConfig>) -> (choice: Result<usize, RenderError>)
    ensures
        configs@.len() == 0 <==> choice is Err,
        choice matches Err(error) ==> error == RenderError::ConfigSelectionFailed,
        choice matches Ok(position) ==> position == picked(configs@, configs@.len())
            && position < configs@.len(),
{
    if configs.len() == 0 {
        return Err(RenderError::ConfigSelectionFailed);
    }
    let mut best: usize = 0;
    let mut i: usize = 1;
    while i < configs.len()
        invariant
            1 <= i <= configs.len(),
            best < i,
            best == picked(configs@, i as nat),
        decreases configs.len() - i,
    {
        if configs[i].preferred_to(&configs[best]) {
            best = i;
        }
        i += 1;
    }
    Ok(best)
}

/// The chosen position lies among the candidates.
pub proof fn lemma_picked_in_range(configs: Seq<GraphicsConfig>, n: nat)
    requires
        1 <= n,
    ensures
        0 <= picked(configs, n) < n,
    decreases n,
{
    if n > 1 {
        lemma_picked_in_range(configs, (n - 1) as nat);
    }
}

/// A true tie keeps the first seen: a candidate with the same transparency
/// and the same sample count as the best so far does not take its place.
pub proof fn lemma_tie_keeps_first(candidate: GraphicsConfig, best: GraphicsConfig)
    requires
        candidate.key() == best.key(),
    ensures
        !candidate.spec_preferred_to(best),
{
}

/// The choice depends on transparency and sample count alone: two lists of
/// candidates that agree on these, position by position, have the same
/// position chosen.
pub proof fn lemma_choice_depends_on_keys(
    first: Seq<GraphicsConfig>,
    second: Seq<GraphicsConfig>,
    n: nat,
)
    requires
        n <= first.len(),
        n <= second.len(),
        forall|i: int| 0 <= i < n ==> (#[trigger] first[i]).key() == (#[trigger] second[i]).key(),
    ensures
        picked(first, n) == picked(second, n),
    decreases n,
{
    if n > 1 {
        lemma_choice_depends_on_keys(first, second, (n - 1) as nat);
        lemma_picked_in_range(first, (n - 1) as nat);
        let best = picked(first, (n - 1) as nat);
        assert(first[best].key() == second[best].key());
        assert(first[n - 1].key() == second[n - 1].key());
    }
}

/// The order of candidates that tie does not matter: with two candidates
/// of the same transparency and sample count exchanged, the same position
/// is chosen, and so a configuration with the same transparency and sample
/// count.
pub proof fn lemma_choice_ignores_order_of_ties(configs: Seq<GraphicsConfig>, i: int, j: int)
    requires
        0 <= i < configs.len(),
        0 <= j < configs.len(),
        configs[i].key() == configs[j].key(),
    ensures
        ({
            let exchanged = configs.update(i, configs[j]).update(j, configs[i]);
            let position = picked(configs, configs.len());
            &&& picked(exchanged, exchanged.len()) == position
            &&& exchanged[position].key() == configs[position].key()
        }),
{
    let exchanged = configs.update(i, configs[j]).update(j, configs[i]);
    assert forall|k: int| 0 <= k < configs.len() implies (#[trigger] configs[k]).key() == (
    #[trigger] exchanged[k]).key() by {}
    lemma_choice_depends_on_keys(configs, exchanged, configs.len());
    lemma_picked_in_range(configs, configs.len());
}

} // verus!
