//! The nine-slice decoration of a frame: when cached geometry is still good,
//! and what replaces it when it is not.

use vstd::prelude::*;
use crate::geometry::{
    border_thickness, lemma_half_border_collapses_centre, lemma_texture_uvs_tile_unit_square,
    nine_slice_destinations, nine_slice_uvs, DegenerateGeometryError, Rect, UvRect, Vec2,
};
use crate::nine_slice::{
    build_error, buildable, built_entry, create_shape, textured_quads, tint_or_white, Color32,
    NineSliceCache, NineSliceCacheView, Shape, SizedTexture, TextureId,
};
use crate::widget_state::{entry_at, stored_entries, view_of, WidgetStateType};

verus! {

/// A frame border drawn from a nine-slice texture.
#[derive(Clone, Copy, Debug, PartialEq, Eq, Structural)]
pub struct FrameDecorationNineSlice {
    pub texture: SizedTexture,
    /// Multiplied into the texture; opaque white where absent.
    pub tint: Option<Color32>,
}

/// An entry and whether its geometry was computed in this resolution.
#[derive(Clone, Debug, PartialEq, Eq)]
pub struct Resolution {
    pub entry: NineSliceCache,
    pub rebuilt: bool,
}

/// A stored entry is fresh when it was computed under the current available
/// layout size and carries its drawable.
pub open spec fn is_fresh(stored: Option<NineSliceCacheView>, available_ui_size: Vec2) -> bool {
    stored matches Some(entry) && entry.last_available_ui_size == available_ui_size
        && entry.shape is Some
}

/// A redraw can be resolved when the stored entry is fresh, or the geometry
/// over `area` can be built.
pub open spec fn resolvable(
    stored: Option<NineSliceCacheView>,
    decoration: FrameDecorationNineSlice,
    area: Rect,
    available_ui_size: Vec2,
) -> bool {
    is_fresh(stored, available_ui_size) || buildable(decoration.texture, area)
}

/// The number of times that a resolution computes the geometry: never for a
/// fresh entry, once for a missing or stale one, and never where the geometry
/// is refused.
pub open spec fn rebuilds(
    stored: Option<NineSliceCacheView>,
    decoration: FrameDecorationNineSlice,
    area: Rect,
    available_ui_size: Vec2,
) -> nat {
    if is_fresh(stored, available_ui_size) {
        0
    } else if buildable(decoration.texture, area) {
        1
    } else {
        0
    }
}

/// The entry that replaces a missing or stale one: the geometry over `area`,
/// with the drawable made of it.
pub open spec fn rebuilt_entry(
    decoration: FrameDecorationNineSlice,
    area: Rect,
    available_ui_size: Vec2,
) -> NineSliceCacheView {
    let built = built_entry(decoration.texture, area, available_ui_size);
    NineSliceCacheView {
        texture: built.texture,
        uvs: built.uvs,
        destinations: built.destinations,
        shape: Some(
            textured_quads(
                built.uvs,
                built.destinations,
                decoration.texture.id,
                tint_or_white(decoration.tint),
            ),
        ),
        last_available_ui_size: available_ui_size,
    }
}

/// The entry that a redraw works with: the stored one where it is fresh, a
/// rebuilt one where the geometry can be built, and none otherwise.
pub open spec fn resolved_entry(
    stored: Option<NineSliceCacheView>,
    decoration: FrameDecorationNineSlice,
    area: Rect,
    available_ui_size: Vec2,
) -> Option<NineSliceCacheView> {
    if is_fresh(stored, available_ui_size) {
        stored
    } else if buildable(decoration.texture, area) {
        Some(rebuilt_entry(decoration, area, available_ui_size))
    } else {
        None
    }
}

/// The stored entries after a redraw of the widget `id`: changed only where
/// an entry was rebuilt.
pub open spec fn resolved_store(
    entries: Map<egui::Id, NineSliceCacheView>,
    id: egui::Id,
    decoration: FrameDecorationNineSlice,
    area: Rect,
    available_ui_size: Vec2,
) -> Map<egui::Id, NineSliceCacheView> {
    if is_fresh(entry_at(entries, id), available_ui_size) {
        entries
    } else if buildable(decoration.texture, area) {
        entries.insert(id, rebuilt_entry(decoration, area, available_ui_size))
    } else {
        entries
    }
}

impl FrameDecorationNineSlice {
    /// Both region sets of this decoration over `area`, and the texture to
    /// draw them from.
    pub fn compute_uvs_and_destinations(&self, area: Rect, available_ui_size: Vec2) -> (r: Result<
        (Vec<UvRect>, Vec<Rect>, TextureId),
        DegenerateGeometryError,
    >)
        ensures
            r is Ok <==> buildable(self.texture, area),
            r matches Ok(parts) ==> {
                &&& parts.0@ == nine_slice_uvs(
                    self.texture.size.spec_extent(),
                    border_thickness(self.texture.size),
                )
                &&& parts.1@ == nine_slice_destinations(area, border_thickness(self.texture.size))
                &&& parts.2 == self.texture.id
            },
            r matches Err(e) ==> e == build_error(self.texture, area),
    {
        match NineSliceCache::from_texture(self.texture, area, available_ui_size) {
            Ok(cache) => Ok((cache.uvs, cache.destinations, cache.texture.id)),
            Err(e) => Err(e),
        }
    }
}

/// Decides what a redraw works with, given what the store held: a fresh entry
/// is handed back as it is, whatever the decoration and the area; anything
/// else is replaced by the geometry over `area` together with its drawable,
/// or refused where that geometry is degenerate.
pub fn resolve_loaded(
    loaded: Option<NineSliceCache>,
    decoration: &FrameDecorationNineSlice,
    area: Rect,
    available_ui_size: Vec2,
) -> (r: Result<Resolution, DegenerateGeometryError>)
    ensures
        r is Ok <==> resolvable(view_of(loaded), *decoration, area, available_ui_size),
        r matches Ok(resolution) ==> {
            &&& Some(resolution.entry@) == resolved_entry(
                view_of(loaded),
                *decoration,
                area,
                available_ui_size,
            )
            &&& resolution.rebuilt == !is_fresh(view_of(loaded), available_ui_size)
            &&& resolution.rebuilt == (rebuilds(
                view_of(loaded),
                *decoration,
                area,
                available_ui_size,
            ) == 1)
            &&& is_fresh(Some(resolution.entry@), available_ui_size)
            &&& (loaded matches Some(entry) ==> entry@.well_formed())
                ==> resolution.entry@.well_formed()
        },
        r matches Err(e) ==> e == build_error(decoration.texture, area),
{
    if let Some(entry) = loaded {
        if entry.last_available_ui_size == available_ui_size && entry.shape.is_some() {
            return Ok(Resolution { entry, rebuilt: false });
        }
    }
    match NineSliceCache::from_texture(decoration.texture, area, available_ui_size) {
        Ok(built) => {
            let mut cache = built;
            let shape = create_shape(
                &cache.uvs,
                &cache.destinations,
                cache.texture.id,
                decoration.tint,
            );
            cache.shape = Some(shape);
            cache.last_available_ui_size = available_ui_size;
            Ok(Resolution { entry: cache, rebuilt: true })
        },
        Err(e) => Err(e),
    }
}

/// The entry for the widget `id` in this redraw.  A fresh stored entry is
/// returned and the store is left alone; otherwise the entry is rebuilt once,
/// written to the store under `id`, and returned; where its geometry is
/// degenerate nothing is written and the axes at fault come back.
pub fn resolve_entry(
    store: &mut egui::util::IdTypeMap,
    id: egui::Id,
    decoration: &FrameDecorationNineSlice,
    area: Rect,
    available_ui_size: Vec2,
) -> (r: Result<Resolution, DegenerateGeometryError>)
    ensures
        r is Ok <==> resolvable(
            entry_at(stored_entries(*old(store)), id),
            *decoration,
            area,
            available_ui_size,
        ),
        stored_entries(*final(store)) == resolved_store(
            stored_entries(*old(store)),
            id,
            *decoration,
            area,
            available_ui_size,
        ),
        r matches Ok(resolution) ==> {
            &&& Some(resolution.entry@) == resolved_entry(
                entry_at(stored_entries(*old(store)), id),
                *decoration,
                area,
                available_ui_size,
            )
            &&& entry_at(stored_entries(*final(store)), id) == Some(resolution.entry@)
            &&& is_fresh(Some(resolution.entry@), available_ui_size)
            &&& resolution.rebuilt == !is_fresh(
                entry_at(stored_entries(*old(store)), id),
                available_ui_size,
            )
            &&& !resolution.rebuilt ==> stored_entries(*final(store)) == stored_entries(*old(store))
            &&& (entry_at(stored_entries(*old(store)), id) matches Some(entry)
                ==> entry.well_formed()) ==> resolution.entry@.well_formed()
        },
        r matches Err(e) ==> e == build_error(decoration.texture, area) && stored_entries(
            *final(store),
        ) == stored_entries(*old(store)),
{
    let loaded = NineSliceCache::try_load(store, id, WidgetStateType::Runtime);
    match resolve_loaded(loaded, decoration, area, available_ui_size) {
        Ok(resolution) => {
            if resolution.rebuilt {
                resolution.entry.save_state(store, id, WidgetStateType::Runtime);
            }
            Ok(resolution)
        },
        Err(e) => Err(e),
    }
}

/// The drawable for the widget `id` in this redraw: that of the entry which
/// [`resolve_entry`] yields.  On a fresh stored entry it is the stored
/// drawable, and the store is not written.
pub fn make_nine_slice_decoration_shape(
    store: &mut egui::util::IdTypeMap,
    decoration: &FrameDecorationNineSlice,
    area: Rect,
    id: egui::Id,
    available_ui_size: Vec2,
) -> (r: Result<Shape, DegenerateGeometryError>)
    ensures
        r is Ok <==> resolvable(
            entry_at(stored_entries(*old(store)), id),
            *decoration,
            area,
            available_ui_size,
        ),
        stored_entries(*final(store)) == resolved_store(
            stored_entries(*old(store)),
            id,
            *decoration,
            area,
            available_ui_size,
        ),
        r matches Ok(shape) ==> {
            &&& resolved_entry(
                entry_at(stored_entries(*old(store)), id),
                *decoration,
                area,
                available_ui_size,
            ) matches Some(entry) && entry.shape == Some(shape@)
            &&& entry_at(stored_entries(*final(store)), id) matches Some(kept) && kept.shape
                == Some(shape@) && kept.last_available_ui_size == available_ui_size
        },
        is_fresh(entry_at(stored_entries(*old(store)), id), available_ui_size) ==> {
            &&& r matches Ok(shape) && Some(shape@) == entry_at(
                stored_entries(*old(store)),
                id,
            )->Some_0.shape
            &&& stored_entries(*final(store)) == stored_entries(*old(store))
        },
        r matches Err(e) ==> e == build_error(decoration.texture, area) && stored_entries(
            *final(store),
        ) == stored_entries(*old(store)),
{
    match resolve_entry(store, id, decoration, area, available_ui_size) {
        Ok(resolution) => {
            let entry = resolution.entry;
            Ok(entry.shape.unwrap())
        },
        Err(e) => Err(e),
    }
}

/// An entry built or rebuilt from a texture with an extent over an area that
/// its border fits is well formed: nine regions in either set, none of them
/// inverted, and for the rebuilt one a drawable that pairs them index by
/// index.
pub proof fn lemma_rebuilt_entry_is_well_formed(
    decoration: FrameDecorationNineSlice,
    area: Rect,
    available_ui_size: Vec2,
)
    requires
        buildable(decoration.texture, area),
    ensures
        rebuilt_entry(decoration, area, available_ui_size).well_formed(),
        built_entry(decoration.texture, area, available_ui_size).well_formed(),
{
    lemma_texture_uvs_tile_unit_square(decoration.texture.size);
    lemma_half_border_collapses_centre(area, border_thickness(decoration.texture.size));
}

/// Two redraws of one widget under the same available layout size, the first
/// of which was resolved: after it the stored entry is fresh, so the second
/// is resolved too, computes no geometry, leaves the store as it is and
/// yields the entry of the first, whatever decoration and area it is given.
pub proof fn lemma_unchanged_size_rebuilds_nothing(
    entries: Map<egui::Id, NineSliceCacheView>,
    id: egui::Id,
    first: FrameDecorationNineSlice,
    first_area: Rect,
    second: FrameDecorationNineSlice,
    second_area: Rect,
    available_ui_size: Vec2,
)
    requires
        resolvable(entry_at(entries, id), first, first_area, available_ui_size),
    ensures
        ({
            let between = resolved_store(entries, id, first, first_area, available_ui_size);
            &&& resolvable(entry_at(between, id), second, second_area, available_ui_size)
            &&& rebuilds(entry_at(between, id), second, second_area, available_ui_size) == 0
            &&& resolved_store(between, id, second, second_area, available_ui_size) == between
            &&& resolved_entry(entry_at(between, id), second, second_area, available_ui_size)
                == resolved_entry(entry_at(entries, id), first, first_area, available_ui_size)
        }),
{
}

/// Two redraws of one widget under different available layout sizes, both
/// resolved: the second finds the stored entry stale and computes the
/// geometry once, for its own area and size, and stores it.  What it stores
/// is fresh, so a third redraw under the new size computes nothing and
/// yields the entry of the second: the change of size costs one build.
pub proof fn lemma_changed_size_rebuilds_once(
    entries: Map<egui::Id, NineSliceCacheView>,
    id: egui::Id,
    first: FrameDecorationNineSlice,
    first_area: Rect,
    first_size: Vec2,
    second: FrameDecorationNineSlice,
    second_area: Rect,
    second_size: Vec2,
    third: FrameDecorationNineSlice,
    third_area: Rect,
)
    requires
        first_size != second_size,
        resolvable(entry_at(entries, id), first, first_area, first_size),
        buildable(second.texture, second_area),
    ensures
        ({
            let between = resolved_store(entries, id, first, first_area, first_size);
            let after = resolved_store(between, id, second, second_area, second_size);
            &&& rebuilds(entry_at(between, id), second, second_area, second_size) == 1
            &&& resolved_entry(entry_at(between, id), second, second_area, second_size) == Some(
                rebuilt_entry(second, second_area, second_size),
            )
            &&& after == between.insert(id, rebuilt_entry(second, second_area, second_size))
            &&& rebuilds(entry_at(after, id), third, third_area, second_size) == 0
            &&& resolved_store(after, id, third, third_area, second_size) == after
            &&& resolved_entry(entry_at(after, id), third, third_area, second_size) == Some(
                rebuilt_entry(second, second_area, second_size),
            )
        }),
{
}

/// A redraw whose geometry is refused computes nothing and leaves the store
/// as it is.
pub proof fn lemma_refused_redraw_changes_nothing(
    entries: Map<egui::Id, NineSliceCacheView>,
    id: egui::Id,
    decoration: FrameDecorationNineSlice,
    area: Rect,
    available_ui_size: Vec2,
)
    requires
        !resolvable(entry_at(entries, id), decoration, area, available_ui_size),
    ensures
        resolved_store(entries, id, decoration, area, available_ui_size) == entries,
        resolved_entry(entry_at(entries, id), decoration, area, available_ui_size) is None,
        rebuilds(entry_at(entries, id), decoration, area, available_ui_size) == 0,
{
}

/// A redraw of one widget leaves the entries of every other widget as they
/// were.
pub proof fn lemma_resolution_keeps_other_widgets(
    entries: Map<egui::Id, NineSliceCacheView>,
    id: egui::Id,
    other: egui::Id,
    decoration: FrameDecorationNineSlice,
    area: Rect,
    available_ui_size: Vec2,
)
    requires
        other != id,
    ensures
        entry_at(resolved_store(entries, id, decoration, area, available_ui_size), other)
            == entry_at(entries, other),
{
}

} // verus!
