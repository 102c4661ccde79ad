//! Pointer input: what the window's events do to it, and where on the grid
//! the pointer stands.
//!
//! Positions on the screen are whole numbers of `1 / SUBPIXELS` of a pixel,
//! counted from the top left corner. Positions on the grid are exact
//! fractions of a cell, counted from the bottom left corner.

use vstd::prelude::*;

verus! {

/// Position units per pixel.
pub const SUBPIXELS: u64 = 65536;

/// A position on the screen, in position units from the top left corner.
#[derive(Clone, Copy, Debug, PartialEq, Eq, Structural)]
pub struct ScreenPosition {
    pub x: i64,
    pub y: i64,
}

/// The latest state of the pointer.
#[derive(Clone, Copy, Debug, PartialEq, Eq, Structural)]
pub struct InputState {
    /// Where the pointer was seen last, if it was seen at all.
    pub mouse_pos: Option<ScreenPosition>,
    /// Whether the left button is held.
    pub mouse_down: bool,
}

/// What the window reports to the application.
#[derive(Clone, Copy, Debug, PartialEq, Eq, Structural)]
pub enum WindowEvent {
    CloseRequested,
    Resized { width: u32, height: u32 },
    RedrawRequested,
    CursorMoved { x: i64, y: i64 },
    MouseInput { left_button: bool, pressed: bool },
    Other,
}

/// What the application is to do about an event.
#[derive(Clone, Copy, Debug, PartialEq, Eq, Structural)]
pub enum LoopCommand {
    /// Leave the event loop.
    Exit,
    /// Reconfigure the presentation surface for the new size.
    Resize { width: u32, height: u32 },
    /// Render one frame.
    Render,
    /// Nothing beyond what the event did to the pointer state.
    Nothing,
}

/// A coordinate on the grid: `num / den` cells, with `den` positive.
#[derive(Clone, Copy, Debug, PartialEq, Eq, Structural)]
pub struct GridCoordinate {
    pub num: u128,
    pub den: u64,
}

/// The centre of the brush on the grid.
#[derive(Clone, Copy, Debug, PartialEq, Eq, Structural)]
pub struct BrushCenter {
    pub x: GridCoordinate,
    pub y: GridCoordinate,
}

/// `position` moved into `0..=extent`.
pub open spec fn clamped(position: int, extent: int) -> int {
    if position < 0 {
        0
    } else if position > extent {
        extent
    } else {
        position
    }
}

/// Length of `pixels` pixels in position units.
pub open spec fn extent_of(pixels: int) -> int {
    pixels * SUBPIXELS
}

/// Numerator of the grid coordinate along the horizontal axis, over the
/// denominator `extent_of(surface)`: the position's share of the surface,
/// taken of `cells`.
pub open spec fn x_numerator(position: int, surface: int, cells: int) -> int {
    clamped(position, extent_of(surface)) * cells
}

/// Numerator of the grid coordinate along the vertical axis, over the
/// denominator `extent_of(surface)`. The axis is turned over: the top of the
/// screen is the top of the grid, where the coordinate is highest.
pub open spec fn y_numerator(position: int, surface: int, cells: int) -> int {
    (extent_of(surface) - clamped(position, extent_of(surface))) * cells
}

/// The origin of the grid, where the brush rests while it has no place.
pub open spec fn origin() -> BrushCenter {
    BrushCenter { x: GridCoordinate { num: 0, den: 1 }, y: GridCoordinate { num: 0, den: 1 } }
}

/// Whether the pointer has a place on the grid: the button is held, a
/// position is known and the surface is not empty.
pub open spec fn brush_is_placed(input: InputState, surface: (u32, u32)) -> bool {
    input.mouse_down && input.mouse_pos.is_some() && surface.0 > 0 && surface.1 > 0
}

/// `center` is the place on a grid of `grid` cells of the screen position
/// `position` on a surface of `surface` pixels.
pub open spec fn is_mapped(
    center: BrushCenter,
    position: ScreenPosition,
    surface: (u32, u32),
    grid: (u32, u32),
) -> bool {
    &&& center.x.den == extent_of(surface.0 as int)
    &&& center.y.den == extent_of(surface.1 as int)
    &&& center.x.num == x_numerator(position.x as int, surface.0 as int, grid.0 as int)
    &&& center.y.num == y_numerator(position.y as int, surface.1 as int, grid.1 as int)
}

impl InputState {
    /// The state before any event: no position, button up.
    pub open spec fn initial() -> InputState {
        InputState { mouse_pos: None, mouse_down: false }
    }

    /// The state after `event`.
    pub open spec fn after(self, event: WindowEvent) -> InputState {
        match event {
            WindowEvent::CursorMoved { x, y } => InputState {
                mouse_pos: Some(ScreenPosition { x, y }),
                mouse_down: self.mouse_down,
            },
            WindowEvent::MouseInput { left_button, pressed } => if left_button {
                InputState { mouse_pos: self.mouse_pos, mouse_down: pressed }
            } else {
                self
            },
            _ => self,
        }
    }

    /// The state before any event: no position, button up.
    pub fn new() -> (input: InputState)
        ensures
            input == Self::initial(),
    {
        InputState { mouse_pos: None, mouse_down: false }
    }

    /// Takes in one event of the window. A move of the pointer sets the
    /// position, the left button sets whether it is held, and neither asks
    /// for anything more. A request to close, a new size and a request to
    /// redraw leave the pointer as it is and are passed on as commands.
    pub fn window_event(&mut self, event: WindowEvent) -> (command: LoopCommand)
        ensures
            *final(self) == old(self).after(event),
            command == command_for(event),
    {
        match event {
            WindowEvent::CloseRequested => LoopCommand::Exit,
            WindowEvent::Resized { width, height } => LoopCommand::Resize { width, height },
            WindowEvent::RedrawRequested => LoopCommand::Render,
            WindowEvent::CursorMoved { x, y } => {
                self.mouse_pos = Some(ScreenPosition { x, y });
                LoopCommand::Nothing
            },
            WindowEvent::MouseInput { left_button, pressed } => {
                if left_button {
                    self.mouse_down = pressed;
                }
                LoopCommand::Nothing
            },
            WindowEvent::Other => LoopCommand::Nothing,
        }
    }
}

/// What the application is to do about `event`.
pub open spec fn command_for(event: WindowEvent) -> LoopCommand {
    match event {
        WindowEvent::CloseRequested => LoopCommand::Exit,
        WindowEvent::Resized { width, height } => LoopCommand::Resize { width, height },
        WindowEvent::RedrawRequested => LoopCommand::Render,
        _ => LoopCommand::Nothing,
    }
}

/// One axis of the mapping: `position` moved into the surface and the
/// surface's extent, both in position units.
fn clamp_to_surface(position: i64, pixels: u32) -> (r: (u64, u64))
    ensures
        r.1 == extent_of(pixels as int),
        r.0 == clamped(position as int, extent_of(pixels as int)),
        r.0 <= r.1,
        r.1 <= 0xFFFF_FFFF * 0x1_0000,
{
    let extent: u64 = (pixels as u64) * SUBPIXELS;
    let inside: u64 = if position < 0 {
        0
    } else if (position as u64) > extent {
        extent
    } else {
        position as u64
    };
    (inside, extent)
}

/// Maps a position on the screen to the grid. The position is first moved
/// into the surface. Along the horizontal axis its share of the surface's
/// width is taken of the grid's width. Along the vertical axis the share is
/// counted from the bottom, as the grid counts. There is no place on a
/// surface without extent.
pub fn map_to_grid(position: ScreenPosition, surface: (u32, u32), grid: (u32, u32)) -> (center:
    Option<BrushCenter>)
    ensures
        center.is_some() <==> surface.0 > 0 && surface.1 > 0,
        center matches Some(c) ==> {
            &&& is_mapped(c, position, surface, grid)
            &&& c.x.den > 0 && c.y.den > 0
            &&& c.x.num <= grid.0 * c.x.den
            &&& c.y.num <= grid.1 * c.y.den
        },
{
    if surface.0 == 0 || surface.1 == 0 {
        return None;
    }
    let (inside_x, extent_x) = clamp_to_surface(position.x, surface.0);
    let (inside_y, extent_y) = clamp_to_surface(position.y, surface.1);
    let from_bottom: u64 = extent_y - inside_y;
    proof {
        lemma_product_bound(inside_x as int, extent_x as int, grid.0 as int);
        lemma_product_bound(from_bottom as int, extent_y as int, grid.1 as int);
    }
    let x_num: u128 = (inside_x as u128) * (grid.0 as u128);
    let y_num: u128 = (from_bottom as u128) * (grid.1 as u128);
    Some(
        BrushCenter {
            x: GridCoordinate { num: x_num, den: extent_x },
            y: GridCoordinate { num: y_num, den: extent_y },
        },
    )
}

/// The centre of the brush for the pointer as it stands: its place on the
/// grid while it has one, the origin otherwise.
pub fn brush_center(input: &InputState, surface: (u32, u32), grid: (u32, u32)) -> (center:
    BrushCenter)
    ensures
        brush_is_placed(*input, surface) ==> is_mapped(
            center,
            input.mouse_pos.unwrap(),
            surface,
            grid,
        ),
        !brush_is_placed(*input, surface) ==> center == origin(),
        center.x.den > 0 && center.y.den > 0,
        center.x.num <= grid.0 * center.x.den,
        center.y.num <= grid.1 * center.y.den,
{
    let rest = BrushCenter {
        x: GridCoordinate { num: 0, den: 1 },
        y: GridCoordinate { num: 0, den: 1 },
    };
    if !input.mouse_down {
        return rest;
    }
    match input.mouse_pos {
        Some(position) => match map_to_grid(position, surface, grid) {
            Some(center) => center,
            None => rest,
        },
        None => rest,
    }
}

/// A share of an extent, taken of a number of cells, is at most that number
/// of cells and fits in 128 bits.
proof fn lemma_product_bound(part: int, whole: int, cells: int)
    requires
        0 <= part <= whole <= 0xFFFF_FFFF * 0x1_0000,
        0 <= cells <= u32::MAX,
    ensures
        0 <= part * cells <= cells * whole,
        part * cells <= u128::MAX,
{
    assert(0 <= part * cells <= cells * whole) by (nonlinear_arith)
        requires
            0 <= part <= whole,
            0 <= cells,
    ;
    assert(cells * whole <= 0xFFFF_FFFF * (0xFFFF_FFFF * 0x1_0000)) by (nonlinear_arith)
        requires
            0 <= whole <= 0xFFFF_FFFF * 0x1_0000,
            0 <= cells <= 0xFFFF_FFFF,
    ;
}

/// The corners and the centre of the screen: the top left corner is mapped
/// to the grid's left edge at its full height, the bottom right corner to
/// the grid's right edge at height zero, and the centre of the surface to
/// the centre of the grid, whatever the sizes of the surface and the grid.
pub proof fn lemma_mapping_corners(surface: (u32, u32), grid: (u32, u32))
    requires
        surface.0 > 0,
        surface.1 > 0,
    ensures
        x_numerator(0, surface.0 as int, grid.0 as int) == 0,
        y_numerator(0, surface.1 as int, grid.1 as int) == grid.1 * extent_of(surface.1 as int),
        x_numerator(extent_of(surface.0 as int), surface.0 as int, grid.0 as int) == grid.0
            * extent_of(surface.0 as int),
        y_numerator(extent_of(surface.1 as int), surface.1 as int, grid.1 as int) == 0,
        2 * x_numerator(extent_of(surface.0 as int) / 2, surface.0 as int, grid.0 as int) == grid.0
            * extent_of(surface.0 as int),
        2 * y_numerator(extent_of(surface.1 as int) / 2, surface.1 as int, grid.1 as int) == grid.1
            * extent_of(surface.1 as int),
{
    let ex = extent_of(surface.0 as int);
    let ey = extent_of(surface.1 as int);
    let hx = ex / 2;
    let hy = ey / 2;
    assert(ex == 2 * hx && ey == 2 * hy);
    assert(ex > 0 && ey > 0);
    assert(ex * grid.0 == grid.0 * ex) by (nonlinear_arith);
    assert(ey * grid.1 == grid.1 * ey) by (nonlinear_arith);
    assert(2 * (hx * grid.0) == grid.0 * ex) by (nonlinear_arith)
        requires
            ex == 2 * hx,
    ;
    assert(2 * ((ey - hy) * grid.1) == grid.1 * ey) by (nonlinear_arith)
        requires
            ey == 2 * hy,
    ;
    assert((ey - ey) * grid.1 == 0) by (nonlinear_arith);
    assert(0 * grid.0 == 0);
}

/// A position outside the surface is mapped as the nearest position on its
/// edge is.
pub proof fn lemma_mapping_clamps(position: int, surface: int, cells: int)
    requires
        surface > 0,
    ensures
        position < 0 ==> x_numerator(position, surface, cells) == x_numerator(0, surface, cells)
            && y_numerator(position, surface, cells) == y_numerator(0, surface, cells),
        position > extent_of(surface) ==> x_numerator(position, surface, cells) == x_numerator(
            extent_of(surface),
            surface,
            cells,
        ) && y_numerator(position, surface, cells) == y_numerator(
            extent_of(surface),
            surface,
            cells,
        ),
{
}

} // verus!
