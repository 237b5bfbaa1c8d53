//! What is set up at startup: how the renderer is configured for the target,
//! and the readout panels in the order they stand on screen.
use vstd::prelude::*;

verus! {

/// The family of the target the program is built for.
#[derive(Clone, Copy, Debug, PartialEq, Eq, Structural)]
pub enum TargetFamily {
    Wasm,
    Windows,
    Other,
}

/// How the page's canvas hosts the window on the web.
#[derive(Debug)]
pub struct CanvasSetup {
    /// CSS selector of the canvas element to draw into.
    pub selector: String,
    /// Resize the canvas to fill its parent element.
    pub fit_to_parent: bool,
    /// Keep the browser from acting on input events itself.
    pub prevent_default_event_handling: bool,
}

/// The change made to the default plugins before the app runs.
#[derive(Debug)]
pub enum RenderSetup {
    /// Draw into a canvas of the page.
    Canvas(CanvasSetup),
    /// Render through DirectX 12 only.
    Dx12,
    /// Leave the defaults as they are.
    Defaults,
}

/// The setup for `family`: on the web a canvas selected by `#bevy` that fits
/// its parent and keeps default event handling off, on Windows DirectX 12,
/// and the defaults elsewhere.
pub open spec fn is_setup_for(family: TargetFamily, r: RenderSetup) -> bool {
    match family {
        TargetFamily::Wasm => r matches RenderSetup::Canvas(c) && c.selector@ == "#bevy"@
            && c.fit_to_parent && c.prevent_default_event_handling,
        TargetFamily::Windows => r is Dx12,
        TargetFamily::Other => r is Defaults,
    }
}

/// The setup that the app applies when built for `family`.
pub fn render_setup(family: TargetFamily) -> (r: RenderSetup)
    ensures
        is_setup_for(family, r),
{
    match family {
        TargetFamily::Wasm => RenderSetup::Canvas(
            CanvasSetup {
                selector: String::from_str("#bevy"),
                fit_to_parent: true,
                prevent_default_event_handling: true,
            },
        ),
        TargetFamily::Windows => RenderSetup::Dx12,
        TargetFamily::Other => RenderSetup::Defaults,
    }
}

/// One text line of the overlay.
#[derive(Clone, Copy, Debug, PartialEq, Eq, Structural)]
pub enum Panel {
    Ui,
    Window,
    Viewport,
    Mouse,
    Touch,
}

/// The panels from top to bottom of the full-screen column.
pub open spec fn panel_order() -> Seq<Panel> {
    seq![Panel::Ui, Panel::Window, Panel::Viewport, Panel::Mouse, Panel::Touch]
}

/// The panels to spawn, top to bottom.
pub fn panels() -> (r: Vec<Panel>)
    ensures
        r@ == panel_order(),
{
    let r = vec![Panel::Ui, Panel::Window, Panel::Viewport, Panel::Mouse, Panel::Touch];
    assert(r@ =~= panel_order());
    r
}

} // verus!
