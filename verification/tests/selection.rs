use render_core::config::{gl_config_picker, GraphicsConfig};
use render_core::context::{
    context_attempted, create_gl_context, ContextApi, ContextAttributes, ContextProgress,
    ContextStrategy,
};
use render_core::error::RenderError;

fn config(transparency: Option<bool>, samples: u8) -> GraphicsConfig {
    GraphicsConfig {
        float_pixels: false,
        alpha_size: 8,
        depth_size: 24,
        stencil_size: 8,
        num_samples: samples,
        srgb_capable: true,
        hardware_accelerated: true,
        supports_transparency: transparency,
    }
}

/// Runs the chain against a platform on which the strategies succeed as
/// given, and returns the strategies that were attempted and the outcome.
fn run_chain(succeeds: [bool; 3]) -> (Vec<ContextStrategy>, ContextProgress) {
    let mut attempted = Vec::new();
    let mut progress = create_gl_context();
    loop {
        match progress {
            ContextProgress::Attempt(strategy) => {
                let succeeded = succeeds[attempted.len()];
                attempted.push(strategy);
                progress = context_attempted(strategy, succeeded);
            }
            ended => return (attempted, ended),
        }
    }
}

#[test]
fn picker_fails_on_no_candidates() {
    assert_eq!(gl_config_picker(&Vec::new()), Err(RenderError::ConfigSelectionFailed));
}

#[test]
fn picker_takes_the_only_candidate() {
    assert_eq!(gl_config_picker(&vec![config(None, 0)]), Ok(0));
}

#[test]
fn picker_prefers_more_samples() {
    let candidates = vec![config(None, 2), config(None, 8), config(None, 4)];
    assert_eq!(gl_config_picker(&candidates), Ok(1));
}

#[test]
fn picker_prefers_transparency_where_the_best_has_none() {
    let candidates = vec![config(Some(false), 8), config(Some(true), 2), config(None, 2)];
    assert_eq!(gl_config_picker(&candidates), Ok(1));
}

#[test]
fn picker_lets_more_samples_win_over_transparency_seen_before() {
    let candidates = vec![config(Some(true), 2), config(Some(false), 8)];
    assert_eq!(gl_config_picker(&candidates), Ok(1));
    let candidates = vec![config(Some(true), 2), config(Some(false), 8), config(Some(true), 2)];
    assert_eq!(gl_config_picker(&candidates), Ok(2));
}

#[test]
fn picker_keeps_the_first_of_a_tie() {
    let candidates = vec![config(Some(true), 4), config(Some(true), 4), config(Some(true), 4)];
    assert_eq!(gl_config_picker(&candidates), Ok(0));
    let candidates = vec![config(None, 4), config(Some(false), 4)];
    assert_eq!(gl_config_picker(&candidates), Ok(0));
}

#[test]
fn picker_does_not_care_which_of_two_tying_candidates_comes_first() {
    let mut deep = config(Some(true), 4);
    deep.depth_size = 32;
    let mut shallow = config(Some(true), 4);
    shallow.depth_size = 16;
    let one = vec![config(None, 2), deep, config(None, 8), shallow];
    let other = vec![config(None, 2), shallow, config(None, 8), deep];
    let chosen_one = gl_config_picker(&one).unwrap();
    let chosen_other = gl_config_picker(&other).unwrap();
    assert_eq!(chosen_one, chosen_other);
    assert_eq!(one[chosen_one].num_samples, other[chosen_other].num_samples);
    assert_eq!(one[chosen_one].supports_transparency, other[chosen_other].supports_transparency);
    assert!(config(Some(true), 4).preferred_to(&config(Some(false), 9)));
    assert!(!config(Some(true), 4).preferred_to(&config(Some(true), 4)));
    assert!(!config(None, 4).preferred_to(&config(Some(false), 4)));
}

#[test]
fn chain_starts_with_the_modern_core_context() {
    assert_eq!(create_gl_context(), ContextProgress::Attempt(ContextStrategy::ModernCore));
    assert_eq!(
        ContextStrategy::ModernCore.attributes(),
        ContextAttributes { api: ContextApi::Default, version: None }
    );
    assert_eq!(
        ContextStrategy::EmbeddedNoVersion.attributes(),
        ContextAttributes { api: ContextApi::Gles, version: None }
    );
    assert_eq!(
        ContextStrategy::Legacy21.attributes(),
        ContextAttributes { api: ContextApi::OpenGl, version: Some((2, 1)) }
    );
    assert_eq!(ContextStrategy::ModernCore.fallback(), Some(ContextStrategy::EmbeddedNoVersion));
    assert_eq!(ContextStrategy::EmbeddedNoVersion.fallback(), Some(ContextStrategy::Legacy21));
    assert_eq!(ContextStrategy::Legacy21.fallback(), None);
}

#[test]
fn chain_stops_at_the_first_strategy_that_succeeds() {
    let (attempted, outcome) = run_chain([true, true, true]);
    assert_eq!(attempted, vec![ContextStrategy::ModernCore]);
    assert_eq!(outcome, ContextProgress::Created(ContextStrategy::ModernCore));
}

#[test]
fn chain_falls_back_to_the_embedded_profile() {
    let (attempted, outcome) = run_chain([false, true, true]);
    assert_eq!(attempted, vec![ContextStrategy::ModernCore, ContextStrategy::EmbeddedNoVersion]);
    assert_eq!(outcome, ContextProgress::Created(ContextStrategy::EmbeddedNoVersion));
}

#[test]
fn chain_falls_back_to_the_legacy_context_last() {
    let (attempted, outcome) = run_chain([false, false, true]);
    assert_eq!(
        attempted,
        vec![
            ContextStrategy::ModernCore,
            ContextStrategy::EmbeddedNoVersion,
            ContextStrategy::Legacy21
        ]
    );
    assert_eq!(outcome, ContextProgress::Created(ContextStrategy::Legacy21));
}

#[test]
fn chain_fails_only_when_all_three_strategies_failed() {
    let (attempted, outcome) = run_chain([false, false, false]);
    assert_eq!(attempted.len(), 3);
    assert_eq!(outcome, ContextProgress::Failed(RenderError::ContextCreationFailed));
}
