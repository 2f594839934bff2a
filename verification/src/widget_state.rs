//! Widget state kept in the host toolkit's keyed store between redraws.

use vstd::prelude::*;
use crate::nine_slice::{NineSliceCache, NineSliceCacheView};

verus! {

/// How long a widget's state lives.
#[derive(Clone, Copy, Debug, PartialEq, Eq, Structural)]
pub enum WidgetStateType {
    /// Kept for the running session only.
    Runtime,
    /// Kept for later sessions too, where the host persists its store.
    Persistent,
}

/// The host's widget identity.
#[verifier::external_type_specification]
#[verifier::external_body]
pub struct ExId(egui::Id);

/// The host's keyed store of widget state.
#[verifier::external_type_specification]
#[verifier::external_body]
pub struct ExIdTypeMap(egui::util::IdTypeMap);

/// The nine-slice entries that a store holds, by widget identity.
pub uninterp spec fn stored_entries(store: egui::util::IdTypeMap) -> Map<egui::Id, NineSliceCacheView>;

/// The entry under `id`, if there is one.
pub open spec fn entry_at(
    entries: Map<egui::Id, NineSliceCacheView>,
    id: egui::Id,
) -> Option<NineSliceCacheView> {
    if entries.contains_key(id) {
        Some(entries[id])
    } else {
        None
    }
}

/// The content of an entry that may be absent.
pub open spec fn view_of(entry: Option<NineSliceCache>) -> Option<NineSliceCacheView> {
    match entry {
        Some(entry) => Some(entry@),
        None => None,
    }
}

/// `IdTypeMap::get_temp`, read at the type of a nine-slice entry.  Trusted:
/// it returns a copy of the entry stored under `id`, or `None` where the
/// store holds no such entry.
#[verifier::external_body]
fn get_temp(store: &egui::util::IdTypeMap, id: egui::Id) -> (r: Option<NineSliceCache>)
    ensures
        view_of(r) == entry_at(stored_entries(*store), id),
{
    store.get_temp::<NineSliceCache>(id)
}

/// `IdTypeMap::get_persisted`, read at the type of a nine-slice entry.
/// Trusted: it returns a copy of the entry stored under `id`, or `None` where
/// the store holds no such entry, and leaves the stored entries as they were.
#[verifier::external_body]
fn get_persisted(store: &mut egui::util::IdTypeMap, id: egui::Id) -> (r: Option<NineSliceCache>)
    ensures
        view_of(r) == entry_at(stored_entries(*old(store)), id),
        stored_entries(*final(store)) == stored_entries(*old(store)),
{
    store.get_persisted::<NineSliceCache>(id)
}

/// `IdTypeMap::insert_temp`.  Trusted: afterwards the store holds a copy of
/// `entry` under `id`, in place of what it held there, and every other
/// nine-slice entry as before.
#[verifier::external_body]
fn insert_temp(store: &mut egui::util::IdTypeMap, id: egui::Id, entry: &NineSliceCache)
    ensures
        stored_entries(*final(store)) == stored_entries(*old(store)).insert(id, entry@),
{
    store.insert_temp::<NineSliceCache>(id, entry.clone())
}

/// `IdTypeMap::insert_persisted`.  Trusted: afterwards the store holds a copy
/// of `entry` under `id`, in place of what it held there, and every other
/// nine-slice entry as before.
#[verifier::external_body]
fn insert_persisted(store: &mut egui::util::IdTypeMap, id: egui::Id, entry: &NineSliceCache)
    ensures
        stored_entries(*final(store)) == stored_entries(*old(store)).insert(id, entry@),
{
    store.insert_persisted::<NineSliceCache>(id, entry.clone())
}

impl NineSliceCache {
    /// Reads the entry stored under `id`.  The stored entries stay as they
    /// are.
    pub fn try_load(store: &mut egui::util::IdTypeMap, id: egui::Id, state_type: WidgetStateType) -> (r:
        Option<NineSliceCache>)
        ensures
            view_of(r) == entry_at(stored_entries(*old(store)), id),
            stored_entries(*final(store)) == stored_entries(*old(store)),
    {
        match state_type {
            WidgetStateType::Runtime => get_temp(store, id),
            WidgetStateType::Persistent => get_persisted(store, id),
        }
    }

    /// Writes a copy of this entry under `id`, in place of what was stored
    /// there.
    pub fn save_state(&self, store: &mut egui::util::IdTypeMap, id: egui::Id, state_type: WidgetStateType)
        ensures
            stored_entries(*final(store)) == stored_entries(*old(store)).insert(id, self@),
            entry_at(stored_entries(*final(store)), id) == Some(self@),
    {
        match state_type {
            WidgetStateType::Runtime => insert_temp(store, id, self),
            WidgetStateType::Persistent => insert_persisted(store, id, self),
        }
    }
}

} // verus!
