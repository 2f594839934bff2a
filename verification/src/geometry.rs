//! The nine-slice grid: breakpoints, regions, and the facts that make the
//! regions a tiling.

use vstd::prelude::*;

verus! {

/// Layout units per pixel.  With four units to the pixel a quarter of any
/// whole pixel count is a whole number of units.
pub const UNITS_PER_PIXEL: i64 = 4;

/// A texture's extent divided by this factor is the thickness of its border.
pub const NINE_SLICE_BORDER_SIZE_FROM_TEXTURE_SIZE_CONVERSION_FACTOR: i64 = 4;

/// A displacement or an extent, in layout units.
#[derive(Clone, Copy, Debug, PartialEq, Eq, Structural)]
pub struct Vec2 {
    pub x: i64,
    pub y: i64,
}

/// A position, in layout units.
#[derive(Clone, Copy, Debug, PartialEq, Eq, Structural)]
pub struct Pos2 {
    pub x: i64,
    pub y: i64,
}

/// An axis-aligned rectangle given by two opposite corners.
#[derive(Clone, Copy, Debug, PartialEq, Eq, Structural)]
pub struct Rect {
    pub min: Pos2,
    pub max: Pos2,
}

/// A rectangle in normalised texture space, held exactly: its corners are the
/// fractions `min.x / size.x`, `min.y / size.y`, `max.x / size.x` and
/// `max.y / size.y`.
#[derive(Clone, Copy, Debug, PartialEq, Eq, Structural)]
pub struct UvRect {
    pub min: Pos2,
    pub max: Pos2,
    pub size: Vec2,
}

/// The pixel dimensions of a texture.
#[derive(Clone, Copy, Debug, PartialEq, Eq, Structural)]
pub struct TextureSize {
    pub width: u32,
    pub height: u32,
}

/// Names the axes on which a border cannot be laid out: it is negative, or
/// its two bands overlap, or there is no extent to cut.
#[derive(Clone, Copy, Debug, PartialEq, Eq, Structural)]
pub struct DegenerateGeometryError {
    pub horizontal: bool,
    pub vertical: bool,
}

impl Rect {
    /// The extent along the horizontal axis; negative where the rectangle is
    /// inverted.
    pub open spec fn spec_width(self) -> int {
        self.max.x - self.min.x
    }

    /// The extent along the vertical axis; negative where the rectangle is
    /// inverted.
    pub open spec fn spec_height(self) -> int {
        self.max.y - self.min.y
    }

    /// The area; negative or zero extents are multiplied as they are.
    pub open spec fn spec_area(self) -> int {
        self.spec_width() * self.spec_height()
    }

    /// Neither axis is inverted.
    pub open spec fn ordered(self) -> bool {
        self.min.x <= self.max.x && self.min.y <= self.max.y
    }

    /// Membership of a point of the plane in the half-open rectangle: the
    /// `min` sides belong to it, the `max` sides do not.
    pub open spec fn holds(self, x: real, y: real) -> bool {
        self.min.x as real <= x && x < self.max.x as real && self.min.y as real <= y
            && y < self.max.y as real
    }

    /// `self` lies inside `outer`.
    pub open spec fn within(self, outer: Rect) -> bool {
        outer.min.x <= self.min.x && self.max.x <= outer.max.x
            && outer.min.y <= self.min.y && self.max.y <= outer.max.y
    }

    /// The rectangle with the given corners, which are taken as they are.
    pub fn from_min_max(min: Pos2, max: Pos2) -> (r: Rect)
        ensures
            r.min == min,
            r.max == max,
    {
        Rect { min, max }
    }
}

impl UvRect {
    /// The numerators as a rectangle in the texture's own units.
    pub open spec fn texels(self) -> Rect {
        Rect { min: self.min, max: self.max }
    }

    /// Membership of the point `(u, v)` of normalised texture space in the
    /// half-open rectangle: scaled to the texture's extent, the point lies in
    /// the rectangle of the numerators.
    pub open spec fn holds(self, u: real, v: real) -> bool {
        self.texels().holds(u * (self.size.x as real), v * (self.size.y as real))
    }

    /// The rectangle is not empty: it has an extent on both axes.
    pub open spec fn has_extent(self) -> bool {
        self.min.x < self.max.x && self.min.y < self.max.y
    }

    /// The rectangle is ordered and lies inside the unit square.
    pub open spec fn within_unit_square(self) -> bool {
        &&& self.size.x > 0
        &&& self.size.y > 0
        &&& 0 <= self.min.x <= self.max.x <= self.size.x
        &&& 0 <= self.min.y <= self.max.y <= self.size.y
    }
}

impl TextureSize {
    /// The texture's extent in layout units.
    pub open spec fn spec_extent(self) -> Vec2 {
        Vec2 { x: (self.width * UNITS_PER_PIXEL) as i64, y: (self.height * UNITS_PER_PIXEL) as i64 }
    }

    /// The texture's extent in layout units: every pixel counts
    /// [`UNITS_PER_PIXEL`] units.
    pub fn extent(&self) -> (r: Vec2)
        ensures
            r == self.spec_extent(),
            r.x == self.width * UNITS_PER_PIXEL,
            r.y == self.height * UNITS_PER_PIXEL,
    {
        let w: i64 = self.width as i64;
        let h: i64 = self.height as i64;
        Vec2 { x: w * UNITS_PER_PIXEL, y: h * UNITS_PER_PIXEL }
    }
}

/// The `k`-th of the four breakpoints that cut the span from `lo` to `hi`
/// with a band of `border` at either end.
pub open spec fn breakpoint(lo: int, hi: int, border: int, k: int) -> int {
    if k <= 0 {
        lo
    } else if k == 1 {
        lo + border
    } else if k == 2 {
        hi - border
    } else {
        hi
    }
}

/// Region `i` of the grid laid over `whole`, counted row by row from the top
/// left: column `i % 3`, row `i / 3`.
pub open spec fn grid_cell(whole: Rect, border: Vec2, i: int) -> Rect {
    Rect {
        min: Pos2 {
            x: breakpoint(whole.min.x as int, whole.max.x as int, border.x as int, i % 3) as i64,
            y: breakpoint(whole.min.y as int, whole.max.y as int, border.y as int, i / 3) as i64,
        },
        max: Pos2 {
            x: breakpoint(whole.min.x as int, whole.max.x as int, border.x as int, i % 3 + 1) as i64,
            y: breakpoint(whole.min.y as int, whole.max.y as int, border.y as int, i / 3 + 1) as i64,
        },
    }
}

/// The nine regions over `target_area`: top-left, top, top-right, left,
/// centre, right, bottom-left, bottom, bottom-right.
pub open spec fn nine_slice_destinations(target_area: Rect, border_size: Vec2) -> Seq<Rect> {
    Seq::new(9, |i: int| grid_cell(target_area, border_size, i))
}

/// The texture seen as a rectangle from the origin to its extent.
pub open spec fn texture_rect(texture_size: Vec2) -> Rect {
    Rect { min: Pos2 { x: 0, y: 0 }, max: Pos2 { x: texture_size.x, y: texture_size.y } }
}

/// Region `i` of the grid over the unit square, as fractions of the texture's
/// extent.
pub open spec fn uv_cell(texture_size: Vec2, border_size: Vec2, i: int) -> UvRect {
    let cell = grid_cell(texture_rect(texture_size), border_size, i);
    UvRect { min: cell.min, max: cell.max, size: texture_size }
}

/// The nine regions over the unit square, in the order of
/// [`nine_slice_destinations`].
pub open spec fn nine_slice_uvs(texture_size: Vec2, border_size: Vec2) -> Seq<UvRect> {
    Seq::new(9, |i: int| uv_cell(texture_size, border_size, i))
}

/// The border is degenerate on the horizontal axis when it is negative or the
/// left and the right band overlap.  Bands that just meet are not: they
/// leave a centre of no width.
pub open spec fn degenerate_x(whole: Rect, border: Vec2) -> bool {
    border.x < 0 || 2 * border.x > whole.spec_width()
}

/// The border is degenerate on the vertical axis when it is negative or the
/// top and the bottom band overlap.
pub open spec fn degenerate_y(whole: Rect, border: Vec2) -> bool {
    border.y < 0 || 2 * border.y > whole.spec_height()
}

/// The border is not negative and the two bands along each axis do not
/// overlap: the grid has no inverted region.
pub open spec fn border_fits(whole: Rect, border: Vec2) -> bool {
    &&& 0 <= border.x
    &&& 0 <= border.y
    &&& 2 * border.x <= whole.spec_width()
    &&& 2 * border.y <= whole.spec_height()
}

/// The axes on which `border` is degenerate over `whole`.
pub open spec fn degeneracy(whole: Rect, border: Vec2) -> DegenerateGeometryError {
    DegenerateGeometryError {
        horizontal: degenerate_x(whole, border),
        vertical: degenerate_y(whole, border),
    }
}

/// The texture has a positive extent on both axes and the border fits it.
pub open spec fn uv_border_fits(texture_size: Vec2, border_size: Vec2) -> bool {
    &&& texture_size.x > 0
    &&& texture_size.y > 0
    &&& border_fits(texture_rect(texture_size), border_size)
}

/// The axes on which the texture has no extent or the border is degenerate
/// over it.
pub open spec fn uv_degeneracy(texture_size: Vec2, border_size: Vec2) -> DegenerateGeometryError {
    DegenerateGeometryError {
        horizontal: texture_size.x <= 0 || degenerate_x(texture_rect(texture_size), border_size),
        vertical: texture_size.y <= 0 || degenerate_y(texture_rect(texture_size), border_size),
    }
}

/// The border thickness that belongs to a texture: a quarter of its extent.
pub open spec fn border_thickness(size: TextureSize) -> Vec2 {
    Vec2 {
        x: (size.spec_extent().x / NINE_SLICE_BORDER_SIZE_FROM_TEXTURE_SIZE_CONVERSION_FACTOR) as i64,
        y: (size.spec_extent().y / NINE_SLICE_BORDER_SIZE_FROM_TEXTURE_SIZE_CONVERSION_FACTOR) as i64,
    }
}

/// Divides the texture's extent by the conversion factor.  The quotient is
/// exact: four times the thickness is the extent.
pub fn derive_border_thickness(size: &TextureSize) -> (r: Vec2)
    ensures
        r == border_thickness(*size),
        r.x * NINE_SLICE_BORDER_SIZE_FROM_TEXTURE_SIZE_CONVERSION_FACTOR == size.spec_extent().x,
        r.y * NINE_SLICE_BORDER_SIZE_FROM_TEXTURE_SIZE_CONVERSION_FACTOR == size.spec_extent().y,
        r.x == size.width,
        r.y == size.height,
{
    let extent = size.extent();
    Vec2 {
        x: extent.x / NINE_SLICE_BORDER_SIZE_FROM_TEXTURE_SIZE_CONVERSION_FACTOR,
        y: extent.y / NINE_SLICE_BORDER_SIZE_FROM_TEXTURE_SIZE_CONVERSION_FACTOR,
    }
}

/// Tells whether a band of `border` at either end of the span from `lo` to
/// `hi` is negative or overlaps the other.
fn axis_degenerate(lo: i64, hi: i64, border: i64) -> (r: bool)
    ensures
        r == (border < 0 || 2 * border > hi - lo),
{
    let extent: i128 = hi as i128 - lo as i128;
    border < 0 || 2 * (border as i128) > extent
}

/// Accepts a border that is not negative and whose bands do not overlap on
/// either axis of `whole`, a border of exactly half the extent included, and
/// reports the degenerate axes otherwise.
pub fn check_geometry(whole: &Rect, border: &Vec2) -> (r: Result<(), DegenerateGeometryError>)
    ensures
        r is Ok <==> border_fits(*whole, *border),
        r matches Err(e) ==> e == degeneracy(*whole, *border),
{
    let horizontal = axis_degenerate(whole.min.x, whole.max.x, border.x);
    let vertical = axis_degenerate(whole.min.y, whole.max.y, border.y);
    if horizontal || vertical {
        Err(DegenerateGeometryError { horizontal, vertical })
    } else {
        Ok(())
    }
}

/// The nine destination rectangles for `target_area`, cut at
/// `min + border_size` and `max - border_size` on each axis.  A border that
/// does not fit the target is refused, so no region that comes back is
/// inverted.
pub fn calculate_nine_slice_destinations(target_area: &Rect, border_size: &Vec2) -> (r: Result<
    Vec<Rect>,
    DegenerateGeometryError,
>)
    ensures
        r is Ok <==> border_fits(*target_area, *border_size),
        r matches Ok(regions) ==> {
            &&& regions@ == nine_slice_destinations(*target_area, *border_size)
            &&& regions@.len() == 9
            &&& forall|i: int| 0 <= i < 9 ==> (#[trigger] regions@[i]).ordered()
        },
        r matches Err(e) ==> e == degeneracy(*target_area, *border_size),
{
    match check_geometry(target_area, border_size) {
        Err(e) => {
            return Err(e);
        },
        Ok(_) => {},
    }
    let x0: i64 = target_area.min.x;
    let x1: i64 = target_area.min.x + border_size.x;
    let x2: i64 = target_area.max.x - border_size.x;
    let x3: i64 = target_area.max.x;
    let y0: i64 = target_area.min.y;
    let y1: i64 = target_area.min.y + border_size.y;
    let y2: i64 = target_area.max.y - border_size.y;
    let y3: i64 = target_area.max.y;
    let regions = vec![
        Rect::from_min_max(Pos2 { x: x0, y: y0 }, Pos2 { x: x1, y: y1 }),
        Rect::from_min_max(Pos2 { x: x1, y: y0 }, Pos2 { x: x2, y: y1 }),
        Rect::from_min_max(Pos2 { x: x2, y: y0 }, Pos2 { x: x3, y: y1 }),
        Rect::from_min_max(Pos2 { x: x0, y: y1 }, Pos2 { x: x1, y: y2 }),
        Rect::from_min_max(Pos2 { x: x1, y: y1 }, Pos2 { x: x2, y: y2 }),
        Rect::from_min_max(Pos2 { x: x2, y: y1 }, Pos2 { x: x3, y: y2 }),
        Rect::from_min_max(Pos2 { x: x0, y: y2 }, Pos2 { x: x1, y: y3 }),
        Rect::from_min_max(Pos2 { x: x1, y: y2 }, Pos2 { x: x2, y: y3 }),
        Rect::from_min_max(Pos2 { x: x2, y: y2 }, Pos2 { x: x3, y: y3 }),
    ];
    proof {
        assert(regions@ =~= nine_slice_destinations(*target_area, *border_size));
    }
    Ok(regions)
}

/// The nine texture regions, as fractions of `texture_size`, cut at
/// `border_size / texture_size` and `1 - border_size / texture_size` on each
/// axis.  A texture without extent, and a border that does not fit the
/// texture, are refused.
pub fn calculate_nine_slice_uvs(texture_size: &Vec2, border_size: &Vec2) -> (r: Result<
    Vec<UvRect>,
    DegenerateGeometryError,
>)
    ensures
        r is Ok <==> uv_border_fits(*texture_size, *border_size),
        r matches Ok(regions) ==> {
            &&& regions@ == nine_slice_uvs(*texture_size, *border_size)
            &&& regions@.len() == 9
            &&& forall|i: int| 0 <= i < 9 ==> (#[trigger] regions@[i]).within_unit_square()
        },
        r matches Err(e) ==> e == uv_degeneracy(*texture_size, *border_size),
{
    let horizontal = texture_size.x <= 0 || axis_degenerate(0, texture_size.x, border_size.x);
    let vertical = texture_size.y <= 0 || axis_degenerate(0, texture_size.y, border_size.y);
    if horizontal || vertical {
        return Err(DegenerateGeometryError { horizontal, vertical });
    }
    let size = *texture_size;
    let x0: i64 = 0;
    let x1: i64 = border_size.x;
    let x2: i64 = texture_size.x - border_size.x;
    let x3: i64 = texture_size.x;
    let y0: i64 = 0;
    let y1: i64 = border_size.y;
    let y2: i64 = texture_size.y - border_size.y;
    let y3: i64 = texture_size.y;
    let regions = vec![
        UvRect { min: Pos2 { x: x0, y: y0 }, max: Pos2 { x: x1, y: y1 }, size },
        UvRect { min: Pos2 { x: x1, y: y0 }, max: Pos2 { x: x2, y: y1 }, size },
        UvRect { min: Pos2 { x: x2, y: y0 }, max: Pos2 { x: x3, y: y1 }, size },
        UvRect { min: Pos2 { x: x0, y: y1 }, max: Pos2 { x: x1, y: y2 }, size },
        UvRect { min: Pos2 { x: x1, y: y1 }, max: Pos2 { x: x2, y: y2 }, size },
        UvRect { min: Pos2 { x: x2, y: y1 }, max: Pos2 { x: x3, y: y2 }, size },
        UvRect { min: Pos2 { x: x0, y: y2 }, max: Pos2 { x: x1, y: y3 }, size },
        UvRect { min: Pos2 { x: x1, y: y2 }, max: Pos2 { x: x2, y: y3 }, size },
        UvRect { min: Pos2 { x: x2, y: y2 }, max: Pos2 { x: x3, y: y3 }, size },
    ];
    proof {
        assert(regions@ =~= nine_slice_uvs(*texture_size, *border_size));
    }
    Ok(regions)
}

/// `regions` tile `whole`: each is ordered and inside `whole`, and every
/// point of `whole` belongs to one region and to no second one.
pub open spec fn tiles(regions: Seq<Rect>, whole: Rect) -> bool {
    &&& forall|i: int|
        0 <= i < regions.len() ==> (#[trigger] regions[i]).ordered() && regions[i].within(whole)
    &&& forall|x: real, y: real| #[trigger]
        whole.holds(x, y) ==> exists|i: int| 0 <= i < regions.len() && #[trigger] regions[i].holds(x, y)
    &&& forall|i: int, j: int, x: real, y: real|
        0 <= i < j < regions.len() && #[trigger] regions[i].holds(x, y) ==> !#[trigger] regions[j].holds(x, y)
}

/// The point `(u, v)` lies in the half-open unit square.
pub open spec fn in_unit_square(u: real, v: real) -> bool {
    0 as real <= u && u < 1 as real && 0 as real <= v && v < 1 as real
}

/// The sum of the areas of nine regions.
pub open spec fn total_area(regions: Seq<Rect>) -> int
    recommends
        regions.len() == 9,
{
    regions[0].spec_area() + regions[1].spec_area() + regions[2].spec_area()
        + regions[3].spec_area() + regions[4].spec_area() + regions[5].spec_area()
        + regions[6].spec_area() + regions[7].spec_area() + regions[8].spec_area()
}

/// `uvs` tile the unit square: each is ordered and inside it, and every point
/// of the unit square belongs to one region and to no second one.
pub open spec fn tiles_unit_square(uvs: Seq<UvRect>) -> bool {
    &&& forall|i: int| 0 <= i < uvs.len() ==> (#[trigger] uvs[i]).within_unit_square()
    &&& forall|u: real, v: real| #[trigger]
        in_unit_square(u, v) ==> exists|i: int| 0 <= i < uvs.len() && #[trigger] uvs[i].holds(u, v)
    &&& forall|i: int, j: int, u: real, v: real|
        0 <= i < j < uvs.len() && #[trigger] uvs[i].holds(u, v) ==> !#[trigger] uvs[j].holds(u, v)
}

/// A fraction of the unit interval, scaled to a positive length, lies within
/// that length.
proof fn lemma_scaled_fraction(u: real, length: int)
    requires
        0 as real <= u,
        u < 1 as real,
        length > 0,
    ensures
        0 as real <= u * (length as real),
        u * (length as real) < length as real,
{
    assert(0 as real <= u * (length as real) && u * (length as real) < length as real)
        by (nonlinear_arith)
        requires
            0 as real <= u,
            u < 1 as real,
            length > 0,
    ;
}

proof fn lemma_area_distributes(a: int, b: int, c: int, d: int, e: int, f: int)
    ensures
        a * d + b * d + c * d + a * e + b * e + c * e + a * f + b * f + c * f
            == (a + b + c) * (d + e + f),
{
    assert(a * d + b * d + c * d + a * e + b * e + c * e + a * f + b * f + c * f
        == (a + b + c) * (d + e + f)) by (nonlinear_arith);
}

/// Whenever the border fits, region `i` of the grid is the cell in column
/// `i % 3` and row `i / 3`: its corners are the breakpoints `min`,
/// `min + border`, `max - border`, `max` of that column and row, and it is
/// not inverted.
pub proof fn lemma_grid_cell_corners(whole: Rect, border: Vec2, i: int)
    requires
        border_fits(whole, border),
        0 <= i < 9,
    ensures
        ({
            let cell = nine_slice_destinations(whole, border)[i];
            &&& cell.min.x == breakpoint(whole.min.x as int, whole.max.x as int, border.x as int, i % 3)
            &&& cell.max.x == breakpoint(
                whole.min.x as int,
                whole.max.x as int,
                border.x as int,
                i % 3 + 1,
            )
            &&& cell.min.y == breakpoint(whole.min.y as int, whole.max.y as int, border.y as int, i / 3)
            &&& cell.max.y == breakpoint(
                whole.min.y as int,
                whole.max.y as int,
                border.y as int,
                i / 3 + 1,
            )
            &&& cell.ordered()
        }),
{
}

/// Whenever the bands along each axis do not overlap, the nine destination
/// regions tile the target rectangle without gap or overlap, and their areas
/// add up to its area.  A border of exactly half the extent is included.
pub proof fn lemma_destinations_tile(target_area: Rect, border_size: Vec2)
    requires
        border_fits(target_area, border_size),
    ensures
        tiles(nine_slice_destinations(target_area, border_size), target_area),
        total_area(nine_slice_destinations(target_area, border_size)) == target_area.spec_area(),
{
    let regions = nine_slice_destinations(target_area, border_size);
    let x1 = target_area.min.x + border_size.x;
    let x2 = target_area.max.x - border_size.x;
    let y1 = target_area.min.y + border_size.y;
    let y2 = target_area.max.y - border_size.y;
    assert forall|x: real, y: real| #[trigger] target_area.holds(x, y) implies exists|i: int|
        0 <= i < regions.len() && #[trigger] regions[i].holds(x, y) by {
        let column: int = if x < x1 as real { 0 } else if x < x2 as real { 1 } else { 2 };
        let row: int = if y < y1 as real { 0 } else if y < y2 as real { 1 } else { 2 };
        let i = 3 * row + column;
        assert(i % 3 == column && i / 3 == row);
        assert(regions[i].holds(x, y));
    }
    assert forall|i: int, j: int, x: real, y: real|
        0 <= i < j < regions.len() && #[trigger] regions[i].holds(x, y) implies !#[trigger] regions[j].holds(x, y) by {
        assert(i % 3 != j % 3 || i / 3 != j / 3);
    }
    lemma_area_distributes(
        x1 - target_area.min.x, x2 - x1, target_area.max.x - x2,
        y1 - target_area.min.y, y2 - y1, target_area.max.y - y2,
    );
}

/// Whenever the texture has a positive extent and the bands along each axis
/// do not overlap, the nine texture regions tile the unit square without gap
/// or overlap, and the centre region spans `(w - 2 b.x) / w` by
/// `(h - 2 b.y) / h` of it, `w` and `h` being the texture's extent and `b` the
/// border.
pub proof fn lemma_uvs_tile(texture_size: Vec2, border_size: Vec2)
    requires
        uv_border_fits(texture_size, border_size),
    ensures
        tiles_unit_square(nine_slice_uvs(texture_size, border_size)),
        ({
            let centre = nine_slice_uvs(texture_size, border_size)[4];
            &&& centre.size == texture_size
            &&& centre.texels().spec_width() == texture_size.x - 2 * border_size.x
            &&& centre.texels().spec_height() == texture_size.y - 2 * border_size.y
            &&& centre.texels().spec_area() == (texture_size.x - 2 * border_size.x) * (texture_size.y
                - 2 * border_size.y)
        }),
{
    let whole = texture_rect(texture_size);
    let uvs = nine_slice_uvs(texture_size, border_size);
    let cells = nine_slice_destinations(whole, border_size);
    lemma_destinations_tile(whole, border_size);
    assert forall|i: int| 0 <= i < uvs.len() implies (#[trigger] uvs[i]).within_unit_square() by {
        assert(cells[i].ordered() && cells[i].within(whole));
    }
    assert forall|u: real, v: real| #[trigger] in_unit_square(u, v) implies exists|i: int|
        0 <= i < uvs.len() && #[trigger] uvs[i].holds(u, v) by {
        lemma_scaled_fraction(u, texture_size.x as int);
        lemma_scaled_fraction(v, texture_size.y as int);
        let x = u * (texture_size.x as real);
        let y = v * (texture_size.y as real);
        assert(whole.holds(x, y));
        let i = choose|i: int| 0 <= i < cells.len() && #[trigger] cells[i].holds(x, y);
        assert(uvs[i].texels() == cells[i]);
        assert(uvs[i].holds(u, v));
    }
    assert forall|i: int, j: int, u: real, v: real|
        0 <= i < j < uvs.len() && #[trigger] uvs[i].holds(u, v) implies !#[trigger] uvs[j].holds(u, v) by {
        let x = u * (texture_size.x as real);
        let y = v * (texture_size.y as real);
        assert(uvs[i].texels() == cells[i] && uvs[j].texels() == cells[j]);
        assert(cells[i].holds(x, y));
        if uvs[j].holds(u, v) {
            assert(cells[j].holds(x, y));
        }
    }
}

/// For every texture of positive width and height, the texture's own border
/// thickness is less than half its extent, the nine texture regions cut with
/// it tile the unit square and none of them is empty, and the centre region
/// reaches from a quarter to three quarters on both axes: half of each axis
/// and a quarter of the area.
pub proof fn lemma_texture_uvs_tile_unit_square(size: TextureSize)
    requires
        size.width > 0,
        size.height > 0,
    ensures
        uv_border_fits(size.spec_extent(), border_thickness(size)),
        tiles_unit_square(nine_slice_uvs(size.spec_extent(), border_thickness(size))),
        forall|i: int|
            0 <= i < 9 ==> (#[trigger] nine_slice_uvs(
                size.spec_extent(),
                border_thickness(size),
            )[i]).has_extent(),
        ({
            let centre = nine_slice_uvs(size.spec_extent(), border_thickness(size))[4];
            let extent = size.spec_extent();
            let border = border_thickness(size);
            &&& 2 * border.x < extent.x
            &&& 2 * border.y < extent.y
            &&& centre.size == extent
            &&& 4 * centre.min.x == extent.x
            &&& 4 * centre.min.y == extent.y
            &&& 4 * centre.max.x == 3 * extent.x
            &&& 4 * centre.max.y == 3 * extent.y
            &&& centre.texels().spec_width() == extent.x - 2 * border.x
            &&& centre.texels().spec_height() == extent.y - 2 * border.y
            &&& 4 * centre.texels().spec_area() == extent.x * extent.y
        }),
{
    let extent = size.spec_extent();
    let border = border_thickness(size);
    lemma_uvs_tile(extent, border);
    let centre = nine_slice_uvs(extent, border)[4];
    let w = centre.texels().spec_width();
    let h = centre.texels().spec_height();
    assert(4 * (w * h) == (2 * w) * (2 * h)) by (nonlinear_arith);
}

/// Destination region `i` and texture region `i` are the same cell of their
/// grids: the breakpoints 0, `b`, `w - b`, `w` of the texture correspond, in
/// this order, to `min`, `min + b`, `max - b`, `max` of the target, and both
/// regions reach from the breakpoint of column `i % 3` to the next and from
/// that of row `i / 3` to the next.
pub proof fn lemma_destination_and_uv_share_cell(
    texture_size: Vec2,
    target_area: Rect,
    border_size: Vec2,
    i: int,
)
    requires
        0 <= i < 9,
        uv_border_fits(texture_size, border_size),
        border_fits(target_area, border_size),
    ensures
        ({
            let d = nine_slice_destinations(target_area, border_size)[i];
            let u = nine_slice_uvs(texture_size, border_size)[i];
            let b = border_size;
            let t = target_area;
            &&& u.size == texture_size
            &&& u.min.x == breakpoint(0, texture_size.x as int, b.x as int, i % 3)
            &&& d.min.x == breakpoint(t.min.x as int, t.max.x as int, b.x as int, i % 3)
            &&& u.max.x == breakpoint(0, texture_size.x as int, b.x as int, i % 3 + 1)
            &&& d.max.x == breakpoint(t.min.x as int, t.max.x as int, b.x as int, i % 3 + 1)
            &&& u.min.y == breakpoint(0, texture_size.y as int, b.y as int, i / 3)
            &&& d.min.y == breakpoint(t.min.y as int, t.max.y as int, b.y as int, i / 3)
            &&& u.max.y == breakpoint(0, texture_size.y as int, b.y as int, i / 3 + 1)
            &&& d.max.y == breakpoint(t.min.y as int, t.max.y as int, b.y as int, i / 3 + 1)
        }),
{
}

/// Where on each axis the border is zero or the target is as long as the
/// texture, destination region `i` is similar to texture region `i`: its
/// offset and its extent are to the target's extent as the texture region's
/// are to the whole texture.
pub proof fn lemma_destination_similar_to_uv(
    texture_size: Vec2,
    target_area: Rect,
    border_size: Vec2,
    i: int,
)
    requires
        0 <= i < 9,
        uv_border_fits(texture_size, border_size),
        border_fits(target_area, border_size),
        border_size.x == 0 || target_area.spec_width() == texture_size.x,
        border_size.y == 0 || target_area.spec_height() == texture_size.y,
    ensures
        ({
            let d = nine_slice_destinations(target_area, border_size)[i];
            let u = nine_slice_uvs(texture_size, border_size)[i];
            &&& (d.min.x - target_area.min.x) * u.size.x == u.min.x * target_area.spec_width()
            &&& (d.min.y - target_area.min.y) * u.size.y == u.min.y * target_area.spec_height()
            &&& d.spec_width() * u.size.x == u.texels().spec_width() * target_area.spec_width()
            &&& d.spec_height() * u.size.y == u.texels().spec_height() * target_area.spec_height()
        }),
{
    let tw = target_area.spec_width();
    let th = target_area.spec_height();
    let sx = texture_size.x as int;
    let sy = texture_size.y as int;
    assert(0 * sx == 0 * tw && tw * sx == sx * tw) by (nonlinear_arith);
    assert(0 * sy == 0 * th && th * sy == sy * th) by (nonlinear_arith);
}

/// A border of exactly half the target's extent on an axis leaves the centre
/// region no extent on that axis, and no region is inverted.
pub proof fn lemma_half_border_collapses_centre(target_area: Rect, border_size: Vec2)
    requires
        border_fits(target_area, border_size),
    ensures
        forall|i: int| 0 <= i < 9 ==> (#[trigger] nine_slice_destinations(target_area, border_size)[i]).ordered(),
        2 * border_size.x == target_area.spec_width()
            ==> nine_slice_destinations(target_area, border_size)[4].spec_width() == 0,
        2 * border_size.y == target_area.spec_height()
            ==> nine_slice_destinations(target_area, border_size)[4].spec_height() == 0,
{
    lemma_destinations_tile(target_area, border_size);
}

} // verus!
