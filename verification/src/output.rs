use vstd::prelude::*;

use crate::geom::PhySize;
use crate::rational::Rat;

verus! {

/// A background colour, one byte per channel.
#[derive(Clone, Copy, Debug, PartialEq, Eq, Structural)]
pub struct Rgba {
    pub r: u8,
    pub g: u8,
    pub b: u8,
    pub a: u8,
}

impl Rgba {
    /// Opaque black, the initial background.
    pub fn black() -> (c: Rgba)
        ensures
            c == (Rgba { r: 0, g: 0, b: 0, a: 255 }),
    {
        Rgba { r: 0, g: 0, b: 0, a: 255 }
    }
}

/// A logical window size in points, exact.
#[derive(Clone, Copy, Debug, PartialEq, Eq, Structural)]
pub struct LogicalSize {
    pub width: Rat,
    pub height: Rat,
}

/// The cursor icon requested by the GUI layer.
#[derive(Clone, Copy, Debug, PartialEq, Eq, Structural)]
pub enum CursorIcon {
    Default,
    /// No cursor shown at all.
    Hidden,
    ContextMenu,
    Help,
    PointingHand,
    Progress,
    Wait,
    Cell,
    Crosshair,
    Text,
    VerticalText,
    Alias,
    Copy,
    Move,
    NoDrop,
    NotAllowed,
    Grab,
    Grabbing,
    AllScroll,
    ResizeHorizontal,
    ResizeNeSw,
    ResizeNwSe,
    ResizeVertical,
    ResizeEast,
    ResizeSouthEast,
    ResizeSouth,
    ResizeSouthWest,
    ResizeWest,
    ResizeNorthWest,
    ResizeNorth,
    ResizeNorthEast,
    ResizeColumn,
    ResizeRow,
    ZoomIn,
    ZoomOut,
}

/// A command the GUI layer issued for its viewport. Commands the session
/// does not act on are `Other`.
#[derive(Clone, Copy, Debug, PartialEq, Eq, Structural)]
pub enum ViewportCommand {
    Close,
    InnerSize(LogicalSize),
    Other,
}

/// A platform side-effect command from the GUI layer's frame output.
#[derive(Clone, Debug, PartialEq)]
pub enum OutputCommand {
    CopyText(String),
    CopyImage,
    OpenUrl(String),
}

/// What the GUI layer's end-of-frame pass reported, reduced to the values
/// the session logic reads.
#[derive(Clone, Debug, PartialEq)]
pub struct FrameOutput {
    /// Whether the root viewport is still listed in the frame output; when
    /// it is gone the GUI layer has closed the window itself.
    pub root_viewport_present: bool,
    /// Commands for this viewport, in order.
    pub viewport_commands: Vec<ViewportCommand>,
    /// How long the GUI layer wants to wait before the next repaint, in
    /// microseconds; zero asks for a repaint in this very tick.
    pub repaint_delay_micros: u64,
    /// Side-effect commands, in order.
    pub output_commands: Vec<OutputCommand>,
    /// The cursor icon the GUI layer wants shown.
    pub cursor_icon: CursorIcon,
}

/// The mathematical value of a frame output.
pub ghost struct FrameOutputModel {
    pub root_viewport_present: bool,
    pub viewport_commands: Seq<ViewportCommand>,
    pub repaint_delay_micros: u64,
    pub output_commands: Seq<OutputCommand>,
    pub cursor_icon: CursorIcon,
}

impl FrameOutput {
    pub open spec fn model(self) -> FrameOutputModel {
        FrameOutputModel {
            root_viewport_present: self.root_viewport_present,
            viewport_commands: self.viewport_commands@,
            repaint_delay_micros: self.repaint_delay_micros,
            output_commands: self.output_commands@,
            cursor_icon: self.cursor_icon,
        }
    }

    /// Every inner-size command carries well-formed rationals.
    pub open spec fn wf(self) -> bool {
        forall|i: int|
            0 <= i < self.viewport_commands@.len() ==> match #[trigger] self.viewport_commands@[i] {
                ViewportCommand::InnerSize(size) => size.width.wf() && size.height.wf(),
                _ => true,
            }
    }
}

/// Everything a renderer backend needs for one draw pass, besides the draw
/// primitives and texture deltas it is handed directly.
#[derive(Clone, Copy, Debug, PartialEq, Eq, Structural)]
pub struct RenderParams {
    pub bg_color: Rgba,
    pub physical_size: PhySize,
    pub pixels_per_point: Rat,
}

/// What the windowing layer must do after a frame tick.
#[derive(Clone, Copy, Debug, PartialEq, Eq, Structural)]
pub struct FrameDecision {
    /// Close the window.
    pub close: bool,
    /// Resize the window to this logical size (the last inner-size command
    /// of the frame, clamped to at least one point each way).
    pub resize: Option<LogicalSize>,
    /// Issue a draw pass with these parameters; `None` skips the frame.
    pub render: Option<RenderParams>,
    /// Change the OS cursor icon (only present when it changed).
    pub set_cursor: Option<CursorIcon>,
}

} // verus!
