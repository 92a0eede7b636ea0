//! The collections of `bevy_ecs` and `bevy_platform` that hold the renderer's state.
//!
//! Everything in this file is taken on trust: the types are opaque, three names say what a value
//! of them holds, and each wrapper says what one method does to it.

use bevy_ecs::entity::{Entity, EntityHashMap};
use bevy_platform::collections::HashSet;
use bevy_platform::hash::FixedHasher;
use vstd::prelude::*;

use crate::surface::SurfaceData;
use crate::window::ExtractedWindow;

verus! {

/// `bevy_ecs::entity::Entity`, an opaque identifier. Two entities are equal when their index and
/// their generation are.
#[verifier::external_type_specification]
#[verifier::external_body]
pub struct ExEntity(bevy_ecs::entity::Entity);

/// `bevy_ecs::entity::EntityHashMap`.
#[verifier::external_type_specification]
#[verifier::external_body]
#[verifier::reject_recursive_types(V)]
pub struct ExEntityHashMap<V>(bevy_ecs::entity::EntityHashMap<V>);

/// `bevy_platform::hash::FixedHasher`.
#[verifier::external_type_specification]
#[verifier::external_body]
pub struct ExFixedHasher(bevy_platform::hash::FixedHasher);

/// `bevy_platform::collections::HashSet`.
#[verifier::external_type_specification]
#[verifier::external_body]
#[verifier::reject_recursive_types(T)]
#[verifier::reject_recursive_types(S)]
pub struct ExHashSet<T, S>(bevy_platform::collections::HashSet<T, S>);

/// The windows that a map of windows holds, by entity.
pub uninterp spec fn window_entries(map: EntityHashMap<ExtractedWindow>) -> Map<
    Entity,
    ExtractedWindow,
>;

/// The surfaces that a map of surfaces holds, by entity.
pub uninterp spec fn surface_entries(map: EntityHashMap<SurfaceData>) -> Map<Entity, SurfaceData>;

/// The entities that a set of entities holds.
pub uninterp spec fn entity_members(set: HashSet<Entity>) -> Set<Entity>;

/// `Entity::eq`: compares index and generation, so it tells exactly equal entities.
#[verifier::external_body]
pub(crate) fn same_entity(a: Entity, b: Entity) -> (same: bool)
    ensures
        same == (a == b),
{
    a == b
}

/// `EntityHashMap::new`: an empty map.
#[verifier::external_body]
pub(crate) fn new_window_map() -> (map: EntityHashMap<ExtractedWindow>)
    ensures
        window_entries(map).dom() == Set::<Entity>::empty(),
{
    EntityHashMap::new()
}

/// `EntityHashMap::keys`: every key once. The order in which they come is left open.
#[verifier::external_body]
pub(crate) fn window_keys(map: &EntityHashMap<ExtractedWindow>) -> (keys: Vec<Entity>)
    ensures
        keys@.no_duplicates(),
        keys@.to_set() == window_entries(*map).dom(),
{
    map.keys().copied().collect()
}

/// `HashMap::get` on the map: the window under the key, if there is one.
#[verifier::external_body]
pub(crate) fn window_get(map: &EntityHashMap<ExtractedWindow>, key: Entity) -> (window: Option<
    &ExtractedWindow,
>)
    ensures
        window is Some <==> window_entries(*map).dom().contains(key),
        window matches Some(w) ==> *w == window_entries(*map)[key],
{
    map.get(&key)
}

/// `HashMap::get_mut` on the map: the window under the key, if there is one, to be changed in
/// place. Every other entry stays as it is.
#[verifier::external_body]
pub(crate) fn window_get_mut(
    map: &mut EntityHashMap<ExtractedWindow>,
    key: Entity,
) -> (window: Option<&mut ExtractedWindow>)
    ensures
        window is Some <==> window_entries(*old(map)).dom().contains(key),
        window matches Some(w) ==> {
            &&& *w == window_entries(*old(map))[key]
            &&& window_entries(*final(map)) == window_entries(*old(map)).insert(key, *final(w))
        },
        window is None ==> window_entries(*final(map)) == window_entries(*old(map)),
{
    map.get_mut(&key)
}

/// `HashMap::entry` with `Entry::or_insert`: the window under the key, which is `default` where
/// the key was vacant, to be changed in place. Every other entry stays as it is.
#[verifier::external_body]
pub(crate) fn window_or_insert(
    map: &mut EntityHashMap<ExtractedWindow>,
    key: Entity,
    default: ExtractedWindow,
) -> (window: &mut ExtractedWindow)
    ensures
        *window == (if window_entries(*old(map)).dom().contains(key) {
            window_entries(*old(map))[key]
        } else {
            default
        }),
        window_entries(*final(map)) == window_entries(*old(map)).insert(key, *final(window)),
{
    map.entry(key).or_insert(default)
}

/// `HashMap::remove` on the map: drops the entry under the key, if there is one.
#[verifier::external_body]
pub(crate) fn window_remove(map: &mut EntityHashMap<ExtractedWindow>, key: Entity)
    ensures
        window_entries(*final(map)) == window_entries(*old(map)).remove(key),
{
    map.remove(&key);
}

/// `EntityHashMap::new`: an empty map.
#[verifier::external_body]
pub(crate) fn new_surface_map() -> (map: EntityHashMap<SurfaceData>)
    ensures
        surface_entries(map).dom() == Set::<Entity>::empty(),
{
    EntityHashMap::new()
}

/// `HashMap::get` on the map: the surface under the key, if there is one.
#[verifier::external_body]
pub(crate) fn surface_get(map: &EntityHashMap<SurfaceData>, key: Entity) -> (surface: Option<
    &SurfaceData,
>)
    ensures
        surface is Some <==> surface_entries(*map).dom().contains(key),
        surface matches Some(s) ==> *s == surface_entries(*map)[key],
{
    map.get(&key)
}

/// `HashMap::insert` on the map: puts the surface under the key, in place of any other there.
#[verifier::external_body]
pub(crate) fn surface_insert(map: &mut EntityHashMap<SurfaceData>, key: Entity, surface: SurfaceData)
    ensures
        surface_entries(*final(map)) == surface_entries(*old(map)).insert(key, surface),
{
    map.insert(key, surface);
}

/// `HashMap::remove` on the map: drops the entry under the key, if there is one.
#[verifier::external_body]
pub(crate) fn surface_remove(map: &mut EntityHashMap<SurfaceData>, key: Entity)
    ensures
        surface_entries(*final(map)) == surface_entries(*old(map)).remove(key),
{
    map.remove(&key);
}

/// `HashSet::with_hasher` with a `FixedHasher`: an empty set.
#[verifier::external_body]
pub(crate) fn new_entity_set() -> (set: HashSet<Entity>)
    ensures
        entity_members(set) == Set::<Entity>::empty(),
{
    HashSet::with_hasher(FixedHasher)
}

/// `HashSet::contains`: whether the entity is a member.
#[verifier::external_body]
pub(crate) fn entity_set_contains(set: &HashSet<Entity>, entity: Entity) -> (member: bool)
    ensures
        member == entity_members(*set).contains(entity),
{
    set.contains(&entity)
}

/// `HashSet::insert`: makes the entity a member.
#[verifier::external_body]
pub(crate) fn entity_set_insert(set: &mut HashSet<Entity>, entity: Entity)
    ensures
        entity_members(*final(set)) == entity_members(*old(set)).insert(entity),
{
    set.insert(entity);
}

/// `HashSet::remove`: makes the entity no member.
#[verifier::external_body]
pub(crate) fn entity_set_remove(set: &mut HashSet<Entity>, entity: Entity)
    ensures
        entity_members(*final(set)) == entity_members(*old(set)).remove(entity),
{
    set.remove(&entity);
}

} // verus!
