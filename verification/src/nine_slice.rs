//! The cached geometry of one nine-slice frame, and the drawable made of it.

use vstd::prelude::*;
use crate::geometry::{
    border_fits, border_thickness, calculate_nine_slice_destinations, calculate_nine_slice_uvs,
    degenerate_x, degenerate_y, derive_border_thickness, nine_slice_destinations, nine_slice_uvs,
    DegenerateGeometryError, Rect, TextureSize, UvRect, Vec2,
};

verus! {

/// The host's handle of an uploaded texture.
#[derive(Clone, Copy, Debug, PartialEq, Eq, Structural)]
pub enum TextureId {
    /// A texture that the host's texture manager owns.
    Managed(u64),
    /// A texture that the embedding application registered.
    User(u64),
}

/// A texture handle together with the texture's pixel dimensions.
#[derive(Clone, Copy, Debug, PartialEq, Eq, Structural)]
pub struct SizedTexture {
    pub id: TextureId,
    pub size: TextureSize,
}

/// A colour with eight bits per channel.
#[derive(Clone, Copy, Debug, PartialEq, Eq, Structural)]
pub struct Color32 {
    pub r: u8,
    pub g: u8,
    pub b: u8,
    pub a: u8,
}

impl Color32 {
    /// Opaque white, the tint that leaves a texture as it is.
    pub open spec fn spec_white() -> Color32 {
        Color32 { r: 255, g: 255, b: 255, a: 255 }
    }

    pub fn white() -> (r: Color32)
        ensures
            r == Color32::spec_white(),
    {
        Color32 { r: 255, g: 255, b: 255, a: 255 }
    }
}

/// One textured rectangle: the part `uv` of `texture`, drawn over
/// `destination` and multiplied by `tint`.
#[derive(Clone, Copy, Debug, PartialEq, Eq, Structural)]
pub struct TexturedQuad {
    pub texture: TextureId,
    pub destination: Rect,
    pub uv: UvRect,
    pub tint: Color32,
}

/// A composite drawable: textured rectangles in drawing order.
#[derive(Clone, Debug, PartialEq, Eq)]
pub struct Shape {
    pub quads: Vec<TexturedQuad>,
}

impl View for Shape {
    type V = Seq<TexturedQuad>;

    open spec fn view(&self) -> Seq<TexturedQuad> {
        self.quads@
    }
}

/// The tint that is drawn with: the given one, or opaque white.
pub open spec fn tint_or_white(tint: Option<Color32>) -> Color32 {
    match tint {
        Some(color) => color,
        None => Color32::spec_white(),
    }
}

/// The regions paired index by index, as many as the shorter sequence has.
pub open spec fn textured_quads(
    uvs: Seq<UvRect>,
    destinations: Seq<Rect>,
    texture: TextureId,
    tint: Color32,
) -> Seq<TexturedQuad> {
    Seq::new(
        if uvs.len() <= destinations.len() { uvs.len() } else { destinations.len() },
        |i: int| TexturedQuad { texture, destination: destinations[i], uv: uvs[i], tint },
    )
}

/// Pairs each texture region with the destination region of the same index
/// into one drawable.
pub fn create_shape(
    uvs: &Vec<UvRect>,
    destinations: &Vec<Rect>,
    texture: TextureId,
    tint: Option<Color32>,
) -> (r: Shape)
    ensures
        r@ == textured_quads(uvs@, destinations@, texture, tint_or_white(tint)),
{
    let color = match tint {
        Some(color) => color,
        None => Color32::white(),
    };
    let n: usize = if uvs.len() <= destinations.len() { uvs.len() } else { destinations.len() };
    let mut quads: Vec<TexturedQuad> = Vec::new();
    let mut i: usize = 0;
    while i < n
        invariant
            i <= n,
            n <= uvs.len(),
            n <= destinations.len(),
            quads@.len() == i,
            forall|k: int| 0 <= k < i ==> quads@[k] == (TexturedQuad {
                texture,
                destination: destinations@[k],
                uv: uvs@[k],
                tint: color,
            }),
        decreases n - i,
    {
        quads.push(TexturedQuad { texture, destination: destinations[i], uv: uvs[i], tint: color });
        i += 1;
    }
    proof {
        assert(quads@ =~= textured_quads(uvs@, destinations@, texture, tint_or_white(tint)));
    }
    Shape { quads }
}

/// What a widget keeps between redraws: the texture, both region sets, the
/// drawable made of them if there is one, and the available layout size under
/// which they were computed.
#[derive(Clone, Debug, PartialEq, Eq)]
pub struct NineSliceCache {
    pub texture: SizedTexture,
    pub uvs: Vec<UvRect>,
    pub destinations: Vec<Rect>,
    pub shape: Option<Shape>,
    pub last_available_ui_size: Vec2,
}

/// The mathematical content of a [`NineSliceCache`].
pub struct NineSliceCacheView {
    pub texture: SizedTexture,
    pub uvs: Seq<UvRect>,
    pub destinations: Seq<Rect>,
    pub shape: Option<Seq<TexturedQuad>>,
    pub last_available_ui_size: Vec2,
}

impl NineSliceCacheView {
    /// Both region sets have nine regions, none of them inverted, and the
    /// drawable, where there is one, pairs them index by index over the
    /// entry's texture.
    pub open spec fn well_formed(self) -> bool {
        &&& self.uvs.len() == 9
        &&& self.destinations.len() == 9
        &&& forall|i: int| 0 <= i < 9 ==> (#[trigger] self.uvs[i]).within_unit_square()
        &&& forall|i: int| 0 <= i < 9 ==> (#[trigger] self.destinations[i]).ordered()
        &&& self.shape matches Some(quads) ==> {
            &&& quads.len() == 9
            &&& forall|i: int|
                0 <= i < 9 ==> (#[trigger] quads[i]).uv == self.uvs[i] && quads[i].destination
                    == self.destinations[i] && quads[i].texture == self.texture.id
        }
    }
}

impl View for NineSliceCache {
    type V = NineSliceCacheView;

    open spec fn view(&self) -> NineSliceCacheView {
        NineSliceCacheView {
            texture: self.texture,
            uvs: self.uvs@,
            destinations: self.destinations@,
            shape: match self.shape {
                Some(shape) => Some(shape@),
                None => None,
            },
            last_available_ui_size: self.last_available_ui_size,
        }
    }
}

/// The texture has an extent on both axes, and its border thickness fits
/// `target_area`: it is at most half the target's extent on either axis.
pub open spec fn buildable(texture: SizedTexture, target_area: Rect) -> bool {
    &&& texture.size.width > 0
    &&& texture.size.height > 0
    &&& border_fits(target_area, border_thickness(texture.size))
}

/// The axes on which the texture has no extent or its border thickness is
/// degenerate over `target_area`.
pub open spec fn build_error(texture: SizedTexture, target_area: Rect) -> DegenerateGeometryError {
    DegenerateGeometryError {
        horizontal: texture.size.width == 0 || degenerate_x(
            target_area,
            border_thickness(texture.size),
        ),
        vertical: texture.size.height == 0 || degenerate_y(
            target_area,
            border_thickness(texture.size),
        ),
    }
}

/// The entry for a texture over a target area: both region sets cut with the
/// texture's border thickness, no drawable, and the available layout size as
/// the key of its freshness.
pub open spec fn built_entry(
    texture: SizedTexture,
    target_area: Rect,
    available_ui_size: Vec2,
) -> NineSliceCacheView {
    NineSliceCacheView {
        texture,
        uvs: nine_slice_uvs(texture.size.spec_extent(), border_thickness(texture.size)),
        destinations: nine_slice_destinations(target_area, border_thickness(texture.size)),
        shape: None,
        last_available_ui_size: available_ui_size,
    }
}

impl NineSliceCache {
    /// Computes the geometry of `texture` over `target_area` afresh.  A
    /// texture without extent, and a target too small for the texture's
    /// border, are refused with the axes at fault.
    pub fn from_texture(texture: SizedTexture, target_area: Rect, available_ui_size: Vec2) -> (r:
        Result<NineSliceCache, DegenerateGeometryError>)
        ensures
            r is Ok <==> buildable(texture, target_area),
            r matches Ok(entry) ==> entry@ == built_entry(texture, target_area, available_ui_size)
                && entry@.well_formed(),
            r matches Err(e) ==> e == build_error(texture, target_area),
    {
        let border_size = derive_border_thickness(&texture.size);
        let texture_size = texture.size.extent();
        match calculate_nine_slice_uvs(&texture_size, &border_size) {
            Ok(uvs) => match calculate_nine_slice_destinations(&target_area, &border_size) {
                Ok(destinations) => Ok(
                    NineSliceCache {
                        texture,
                        uvs,
                        shape: None,
                        destinations,
                        last_available_ui_size: available_ui_size,
                    },
                ),
                Err(over_target) => Err(over_target),
            },
            Err(over_texture) => match calculate_nine_slice_destinations(
                &target_area,
                &border_size,
            ) {
                Ok(_) => Err(over_texture),
                Err(over_target) => Err(
                    DegenerateGeometryError {
                        horizontal: over_texture.horizontal || over_target.horizontal,
                        vertical: over_texture.vertical || over_target.vertical,
                    },
                ),
            },
        }
    }
}

} // verus!
