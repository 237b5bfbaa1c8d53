use screen_readout::setup::{panels, render_setup, Panel, RenderSetup, TargetFamily};

#[test]
fn web_target_draws_into_the_page_canvas() {
    match render_setup(TargetFamily::Wasm) {
        RenderSetup::Canvas(c) => {
            assert_eq!(c.selector, "#bevy");
            assert!(c.fit_to_parent);
            assert!(c.prevent_default_event_handling);
        }
        other => panic!("expected a canvas setup, got {:?}", other),
    }
}

#[test]
fn windows_target_renders_through_dx12() {
    assert!(matches!(render_setup(TargetFamily::Windows), RenderSetup::Dx12));
}

#[test]
fn other_targets_keep_the_defaults() {
    assert!(matches!(render_setup(TargetFamily::Other), RenderSetup::Defaults));
}

#[test]
fn panels_stand_in_order() {
    assert_eq!(
        panels(),
        vec![Panel::Ui, Panel::Window, Panel::Viewport, Panel::Mouse, Panel::Touch]
    );
}
