//! Shape of the simulation grid, its initial contents and the sizes derived
//! from it.

use vstd::prelude::*;
use vstd::arithmetic::div_mod::lemma_fundamental_div_mod_converse;
use crate::uniforms::{is_native_image, words_as_bytes};

verus! {

/// Bytes per cell: four single-precision components.
pub const BYTES_PER_CELL: u32 = 16;

/// Cells covered by one workgroup along the horizontal axis.
pub const WORKGROUP_X: u32 = 8;

/// Cells covered by one workgroup along the vertical axis.
pub const WORKGROUP_Y: u32 = 8;

/// Bit pattern of the single-precision value one.
pub const ONE: u32 = 0x3F80_0000;

/// Bit pattern of the single-precision value zero.
pub const ZERO: u32 = 0;

/// Width of the grid the simulation runs on unless another is chosen.
pub const DEFAULT_WIDTH: u32 = 720;

/// Height of the grid the simulation runs on unless another is chosen.
pub const DEFAULT_HEIGHT: u32 = 1280;

/// Squared radius of the disk that is seeded with the second substance.
pub const DEFAULT_BLOB_THRESHOLD: u64 = 100;

/// Width and height of a grid, in cells. Fixed once chosen.
///
/// Both extents are positive and the grid's byte size fits in 32 bits, the
/// width of every size the device is told.
#[derive(Clone, Copy, Debug)]
pub struct GridShape {
    width: u32,
    height: u32,
}

/// How the rows of a grid lie in the bytes handed to the device.
#[derive(Clone, Copy, Debug, PartialEq, Eq, Structural)]
pub struct TexelLayout {
    /// Offset of the first row.
    pub offset: u64,
    /// Distance in bytes from one row to the next.
    pub bytes_per_row: u32,
    /// Number of rows in the image.
    pub rows_per_image: u32,
}

/// The least number of groups of `size` cells that cover `extent` cells.
pub open spec fn groups_to_cover(extent: int, size: int) -> int {
    (extent + size - 1) / size
}

impl GridShape {
    /// Width in cells.
    pub closed spec fn spec_width(self) -> u32 {
        self.width
    }

    /// Height in cells.
    pub closed spec fn spec_height(self) -> u32 {
        self.height
    }

    /// The extents a grid can have.
    pub open spec fn valid_extents(width: int, height: int) -> bool {
        0 < width && 0 < height && 16 * width * height <= u32::MAX
    }

    /// Validity of a shape: holds of every shape that `new` hands out.
    #[verifier::type_invariant]
    pub open spec fn wf(self) -> bool {
        Self::valid_extents(self.spec_width() as int, self.spec_height() as int)
    }

    /// Number of words in the grid's contents.
    pub open spec fn word_count(self) -> int {
        4 * self.spec_width() * self.spec_height()
    }

    /// Whether cell (`x`, `y`) lies in the seeded disk: its squared distance
    /// from the grid's centre cell is below `threshold`.
    pub open spec fn in_blob(self, x: int, y: int, threshold: int) -> bool {
        let dx = x - self.spec_width() / 2;
        let dy = y - self.spec_height() / 2;
        dx * dx + dy * dy < threshold
    }

    /// Initial value of one component of cell (`x`, `y`): the first substance
    /// is present everywhere, the second inside the seeded disk only, the
    /// third component is zero and the fourth one.
    pub open spec fn initial_component(self, x: int, y: int, channel: int, threshold: int) -> u32 {
        if channel == 0 {
            ONE
        } else if channel == 1 {
            if self.in_blob(x, y, threshold) {
                ONE
            } else {
                ZERO
            }
        } else if channel == 2 {
            ZERO
        } else {
            ONE
        }
    }

    /// Initial contents of the grid: rows from the lowest `y` up, cells of a
    /// row from the lowest `x` up, four components per cell.
    pub open spec fn pattern(self, threshold: int) -> Seq<u32> {
        Seq::new(
            self.word_count() as nat,
            |i: int|
                self.initial_component(
                    (i / 4) % (self.spec_width() as int),
                    (i / 4) / (self.spec_width() as int),
                    i % 4,
                    threshold,
                ),
        )
    }

    /// A grid of the given extents, if there can be one: both extents are
    /// positive and sixteen bytes per cell stay within 32 bits in all.
    pub fn new(width: u32, height: u32) -> (shape: Option<GridShape>)
        ensures
            shape.is_some() <==> Self::valid_extents(width as int, height as int),
            shape matches Some(s) ==> s.spec_width() == width && s.spec_height() == height
                && s.wf(),
    {
        if width == 0 || height == 0 {
            return None;
        }
        assert(width * height <= u32::MAX * u32::MAX) by (nonlinear_arith)
            requires
                width <= u32::MAX,
                height <= u32::MAX,
        ;
        let cells: u64 = (width as u64) * (height as u64);
        assert(16 * width * height == 16 * (width * height)) by (nonlinear_arith);
        if cells > (u32::MAX as u64) / 16 {
            return None;
        }
        Some(GridShape { width, height })
    }

    /// The grid the simulation runs on unless another is chosen.
    pub fn standard() -> (shape: GridShape)
        ensures
            shape.spec_width() == DEFAULT_WIDTH,
            shape.spec_height() == DEFAULT_HEIGHT,
            shape.wf(),
    {
        GridShape { width: DEFAULT_WIDTH, height: DEFAULT_HEIGHT }
    }

    /// Width in cells.
    pub fn width(&self) -> (w: u32)
        ensures
            w == self.spec_width(),
    {
        self.width
    }

    /// Height in cells.
    pub fn height(&self) -> (h: u32)
        ensures
            h == self.spec_height(),
    {
        self.height
    }

    /// Width and height in cells.
    pub fn dimensions(&self) -> (size: (u32, u32))
        ensures
            size == (self.spec_width(), self.spec_height()),
    {
        (self.width, self.height)
    }

    /// How the rows of the grid lie in its byte image: row after row from
    /// offset zero, sixteen bytes per cell, as many rows as the grid is high.
    pub fn texel_layout(&self) -> (layout: TexelLayout)
        ensures
            layout.offset == 0,
            layout.bytes_per_row == 16 * self.spec_width(),
            layout.rows_per_image == self.spec_height(),
    {
        proof {
            use_type_invariant(self);
            lemma_extent_bounds(self.width as int, self.height as int);
        }
        TexelLayout {
            offset: 0,
            bytes_per_row: BYTES_PER_CELL * self.width,
            rows_per_image: self.height,
        }
    }

    /// Number of workgroups to dispatch along each axis: the least numbers
    /// whose tiles of eight by eight cells cover the grid.
    pub fn workgroups(&self) -> (groups: (u32, u32))
        ensures
            groups.0 == groups_to_cover(self.spec_width() as int, WORKGROUP_X as int),
            groups.1 == groups_to_cover(self.spec_height() as int, WORKGROUP_Y as int),
            WORKGROUP_X * (groups.0 - 1) < self.spec_width() <= WORKGROUP_X * groups.0,
            WORKGROUP_Y * (groups.1 - 1) < self.spec_height() <= WORKGROUP_Y * groups.1,
    {
        proof {
            use_type_invariant(self);
            lemma_extent_bounds(self.width as int, self.height as int);
        }
        let groups_x: u32 = (self.width + WORKGROUP_X - 1) / WORKGROUP_X;
        let groups_y: u32 = (self.height + WORKGROUP_Y - 1) / WORKGROUP_Y;
        (groups_x, groups_y)
    }

    /// Builds the initial contents of the grid for a seeded disk of the given
    /// squared radius.
    pub fn initial_pattern(&self, threshold: u64) -> (data: Vec<u32>)
        ensures
            data@ == self.pattern(threshold as int),
    {
        proof {
            use_type_invariant(self);
            lemma_extent_bounds(self.width as int, self.height as int);
        }
        let width: u32 = self.width;
        let height: u32 = self.height;
        let center_x: u32 = width / 2;
        let center_y: u32 = height / 2;
        let mut data: Vec<u32> = Vec::new();
        let mut y: u32 = 0;
        while y < height
            invariant
                width == self.spec_width(),
                height == self.spec_height(),
                self.wf(),
                center_x == width / 2,
                center_y == height / 2,
                y <= height,
                data@.len() == 4 * (y * width),
                forall|i: int|
                    0 <= i < data@.len() ==> #[trigger] data@[i] == self.pattern(
                        threshold as int,
                    )[i],
            decreases height - y,
        {
            let dist_y: u64 = if y >= center_y {
                (y - center_y) as u64
            } else {
                (center_y - y) as u64
            };
            let mut x: u32 = 0;
            while x < width
                invariant
                    width == self.spec_width(),
                    height == self.spec_height(),
                    self.wf(),
                    center_x == width / 2,
                    center_y == height / 2,
                    y < height,
                    x <= width,
                    dist_y == y - center_y || dist_y == center_y - y,
                    data@.len() == 4 * (y * width + x),
                    forall|i: int|
                        0 <= i < data@.len() ==> #[trigger] data@[i] == self.pattern(
                            threshold as int,
                        )[i],
                decreases width - x,
            {
                let dist_x: u64 = if x >= center_x {
                    (x - center_x) as u64
                } else {
                    (center_x - x) as u64
                };
                proof {
                    lemma_extent_bounds(width as int, height as int);
                    lemma_square_bound(dist_x as int, dist_y as int);
                    lemma_cell_position(width as int, height as int, x as int, y as int);
                    lemma_square_of_difference(x as int, center_x as int, dist_x as int);
                    lemma_square_of_difference(y as int, center_y as int, dist_y as int);
                }
                let inside: bool = dist_x * dist_x + dist_y * dist_y < threshold;
                let second: u32 = if inside {
                    ONE
                } else {
                    ZERO
                };
                let ghost before = data@;
                let ghost base = 4 * (y * width + x);
                data.push(ONE);
                data.push(second);
                data.push(ZERO);
                data.push(ONE);
                proof {
                    let full = self.pattern(threshold as int);
                    assert(inside == self.in_blob(x as int, y as int, threshold as int));
                    assert(base + 4 <= full.len());
                    assert forall|i: int| 0 <= i < data@.len() implies #[trigger] data@[i]
                        == full[i] by {
                        if i < base {
                            assert(data@[i] == before[i]);
                        } else {
                            let channel = i - base;
                            assert(i / 4 == y * width + x && i % 4 == channel);
                        }
                    }
                    assert(4 * (y * width + (x + 1)) == base + 4) by (nonlinear_arith)
                        requires
                            base == 4 * (y * width + x),
                    ;
                }
                x = x + 1;
            }
            proof {
                assert(4 * (y * width + width) == 4 * ((y + 1) * width)) by (nonlinear_arith);
            }
            y = y + 1;
        }
        proof {
            assert(4 * (height * width) == self.word_count()) by (nonlinear_arith)
                requires
                    width == self.spec_width(),
                    height == self.spec_height(),
            ;
            assert(data@ =~= self.pattern(threshold as int));
        }
        data
    }

    /// The byte image of the initial contents, as it is copied to each of the
    /// two grids.
    pub fn initial_texels(&self, threshold: u64) -> (bytes: Vec<u8>)
        ensures
            is_native_image(self.pattern(threshold as int), bytes@),
            bytes@.len() == 16 * self.spec_width() * self.spec_height(),
    {
        let data = self.initial_pattern(threshold);
        let bytes = words_as_bytes(&data);
        proof {
            assert(4 * (4 * self.spec_width() * self.spec_height()) == 16 * self.spec_width()
                * self.spec_height()) by (nonlinear_arith);
        }
        bytes
    }
}

/// Valid extents are each below `2^28`, and so is their product.
pub proof fn lemma_extent_bounds(width: int, height: int)
    requires
        GridShape::valid_extents(width, height),
    ensures
        16 * width <= u32::MAX,
        16 * height <= u32::MAX,
        16 * (width * height) <= u32::MAX,
        4 * width * height == 4 * (width * height),
{
    assert(16 * width * height == 16 * (width * height)) by (nonlinear_arith);
    assert(4 * width * height == 4 * (width * height)) by (nonlinear_arith);
    assert(width <= width * height) by (nonlinear_arith)
        requires
            0 < width,
            0 < height,
    ;
    assert(height <= width * height) by (nonlinear_arith)
        requires
            0 < width,
            0 < height,
    ;
}

/// The squared distances of two offsets below `2^28` add up within 64 bits.
proof fn lemma_square_bound(a: int, b: int)
    requires
        0 <= a <= 0x1000_0000,
        0 <= b <= 0x1000_0000,
    ensures
        0 <= a * a <= 0x100_0000_0000_0000,
        0 <= b * b <= 0x100_0000_0000_0000,
{
    assert(0 <= a * a <= 0x100_0000_0000_0000) by (nonlinear_arith)
        requires
            0 <= a <= 0x1000_0000,
    ;
    assert(0 <= b * b <= 0x100_0000_0000_0000) by (nonlinear_arith)
        requires
            0 <= b <= 0x1000_0000,
    ;
}

/// A distance squared is the signed difference squared.
proof fn lemma_square_of_difference(a: int, b: int, distance: int)
    requires
        distance == a - b || distance == b - a,
    ensures
        distance * distance == (a - b) * (a - b),
{
    assert((b - a) * (b - a) == (a - b) * (a - b)) by (nonlinear_arith);
}

/// Cell (`x`, `y`) is cell number `y * width + x`, and that number gives the
/// coordinates back.
pub proof fn lemma_cell_position(width: int, height: int, x: int, y: int)
    requires
        0 <= x < width,
        0 <= y < height,
    ensures
        0 <= y * width + x < width * height,
        (y * width + x) % width == x,
        (y * width + x) / width == y,
{
    lemma_fundamental_div_mod_converse(y * width + x, width, y, x);
    assert(y * width + x < width * height) by (nonlinear_arith)
        requires
            0 <= x < width,
            0 <= y < height,
    ;
    assert(0 <= y * width) by (nonlinear_arith)
        requires
            0 <= y,
            0 < width,
    ;
}

/// The seeded disk is centred on the grid's centre cell: that cell lies in it
/// for every positive threshold, and the corner cell at the origin lies in it
/// only if the threshold exceeds the squared distance between the two.
pub proof fn lemma_blob_is_centered(shape: GridShape, threshold: int)
    ensures
        shape.in_blob(shape.spec_width() as int / 2, shape.spec_height() as int / 2, threshold)
            <==> threshold > 0,
        shape.in_blob(0, 0, threshold) <==> (shape.spec_width() / 2) * (shape.spec_width() / 2)
            + (shape.spec_height() / 2) * (shape.spec_height() / 2) < threshold,
{
    let cx = shape.spec_width() as int / 2;
    let cy = shape.spec_height() as int / 2;
    assert((cx - cx) * (cx - cx) == 0 && (cy - cy) * (cy - cy) == 0) by (nonlinear_arith);
    assert((0 - cx) * (0 - cx) == cx * cx && (0 - cy) * (0 - cy) == cy * cy) by (nonlinear_arith);
}

/// The initial contents by coordinates: the four words of cell (`x`, `y`)
/// stand at `4 * (y * width + x)` and hold its four components.
pub proof fn lemma_pattern_cell(shape: GridShape, threshold: int, x: int, y: int, channel: int)
    requires
        shape.wf(),
        0 <= x < shape.spec_width(),
        0 <= y < shape.spec_height(),
        0 <= channel < 4,
    ensures
        0 <= 4 * (y * shape.spec_width() + x) + channel < shape.pattern(threshold).len(),
        shape.pattern(threshold)[4 * (y * shape.spec_width() + x) + channel]
            == shape.initial_component(x, y, channel, threshold),
{
    let width = shape.spec_width() as int;
    let height = shape.spec_height() as int;
    lemma_extent_bounds(width, height);
    lemma_cell_position(width, height, x, y);
    let i = 4 * (y * width + x) + channel;
    assert(i / 4 == y * width + x && i % 4 == channel);
}

} // verus!
