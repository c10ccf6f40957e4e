//! Trusted boundary around the `recs` entity-component store.
//!
//! The store itself is opaque to the verifier. Its observable contents are
//! named by uninterpreted functions — the set of live entity ids and one map
//! per component type the game attaches — and every store operation the game
//! performs goes through a wrapper here whose contract states, over those
//! names, what the operation does according to the `recs` sources.

use vstd::prelude::*;

use crate::ecs::{Direction, Dot, Player, Point, Wall};
use std::collections::VecDeque;

verus! {

#[verifier::external_type_specification]
#[verifier::external_body]
pub struct ExEcs(recs::Ecs);

#[verifier::external_type_specification]
#[verifier::external_body]
pub struct ExEntityId(recs::EntityId);

/// The number inside a `recs::EntityId` (`recs` wraps a plain `u64`).
pub uninterp spec fn id_of(id: recs::EntityId) -> u64;

/// The ids of the entities currently alive in the store.
pub uninterp spec fn ecs_entities(e: recs::Ecs) -> Set<u64>;

/// The `Point` component attached to each entity that has one.
pub uninterp spec fn ecs_positions(e: recs::Ecs) -> Map<u64, Point>;

/// The `Direction` component attached to each entity that has one.
pub uninterp spec fn ecs_directions(e: recs::Ecs) -> Map<u64, Direction>;

/// The tail-path component attached to each entity that has one.
pub uninterp spec fn ecs_tails(e: recs::Ecs) -> Map<u64, Seq<Point>>;

/// The `Wall` component attached to each entity that has one.
pub uninterp spec fn ecs_walls(e: recs::Ecs) -> Map<u64, Wall>;

/// Relies on `recs::Ecs::new`: a fresh store holds no entities, hence no
/// components of any type.
#[verifier::external_body]
pub(crate) fn ecs_new() -> (r: recs::Ecs)
    ensures
        ecs_entities(r) == Set::<u64>::empty(),
        ecs_positions(r).dom() == Set::<u64>::empty(),
        ecs_directions(r).dom() == Set::<u64>::empty(),
        ecs_tails(r).dom() == Set::<u64>::empty(),
        ecs_walls(r).dom() == Set::<u64>::empty(),
{
    recs::Ecs::new()
}

/// Relies on `recs::Ecs::create_entity`: ids are drawn from a monotonically
/// increasing `u64` counter, so the returned id never names a live entity,
/// and the new entity starts with no components.
#[verifier::external_body]
pub(crate) fn ecs_create_entity(e: &mut recs::Ecs) -> (id: recs::EntityId)
    ensures
        !ecs_entities(*old(e)).contains(id_of(id)),
        ecs_entities(*final(e)) == ecs_entities(*old(e)).insert(id_of(id)),
        ecs_positions(*final(e)) == ecs_positions(*old(e)),
        ecs_directions(*final(e)) == ecs_directions(*old(e)),
        ecs_tails(*final(e)) == ecs_tails(*old(e)),
        ecs_walls(*final(e)) == ecs_walls(*old(e)),
{
    e.create_entity()
}

/// Relies on `recs::Ecs::destroy_entity`: removing a live entity drops it and
/// every component attached to it, and touches no other entity.
#[verifier::external_body]
pub(crate) fn ecs_destroy_entity(e: &mut recs::Ecs, id: recs::EntityId)
    requires
        ecs_entities(*old(e)).contains(id_of(id)),
    ensures
        ecs_entities(*final(e)) == ecs_entities(*old(e)).remove(id_of(id)),
        ecs_positions(*final(e)) == ecs_positions(*old(e)).remove(id_of(id)),
        ecs_directions(*final(e)) == ecs_directions(*old(e)).remove(id_of(id)),
        ecs_tails(*final(e)) == ecs_tails(*old(e)).remove(id_of(id)),
        ecs_walls(*final(e)) == ecs_walls(*old(e)).remove(id_of(id)),
{
    let _ = e.destroy_entity(id);
}

/// Relies on `recs::Ecs::set::<Point>`: on a live entity it stores or replaces
/// that entity's `Point` component and touches nothing else.
#[verifier::external_body]
pub(crate) fn ecs_set_position(e: &mut recs::Ecs, id: recs::EntityId, p: Point)
    requires
        ecs_entities(*old(e)).contains(id_of(id)),
    ensures
        ecs_positions(*final(e)) == ecs_positions(*old(e)).insert(id_of(id), p),
        ecs_entities(*final(e)) == ecs_entities(*old(e)),
        ecs_directions(*final(e)) == ecs_directions(*old(e)),
        ecs_tails(*final(e)) == ecs_tails(*old(e)),
        ecs_walls(*final(e)) == ecs_walls(*old(e)),
{
    let _ = e.set(id, p);
}

/// Relies on `recs::Ecs::get::<Point>`: returns a clone of the entity's
/// `Point` component exactly when the entity is alive and has one.
#[verifier::external_body]
pub(crate) fn ecs_get_position(e: &recs::Ecs, id: recs::EntityId) -> (r: Option<Point>)
    ensures
        match r {
            Some(p) => ecs_positions(*e).dom().contains(id_of(id)) && p == ecs_positions(
                *e,
            )[id_of(id)],
            None => !ecs_positions(*e).dom().contains(id_of(id)),
        },
{
    e.get::<Point>(id).ok()
}

/// Relies on `recs::Ecs::set::<Direction>`: on a live entity it stores or
/// replaces that entity's `Direction` component and touches nothing else.
#[verifier::external_body]
pub(crate) fn ecs_set_direction(e: &mut recs::Ecs, id: recs::EntityId, d: Direction)
    requires
        ecs_entities(*old(e)).contains(id_of(id)),
    ensures
        ecs_directions(*final(e)) == ecs_directions(*old(e)).insert(id_of(id), d),
        ecs_entities(*final(e)) == ecs_entities(*old(e)),
        ecs_positions(*final(e)) == ecs_positions(*old(e)),
        ecs_tails(*final(e)) == ecs_tails(*old(e)),
        ecs_walls(*final(e)) == ecs_walls(*old(e)),
{
    let _ = e.set(id, d);
}

/// Relies on `recs::Ecs::get::<Direction>`: returns a clone of the entity's
/// `Direction` component exactly when the entity is alive and has one.
#[verifier::external_body]
pub(crate) fn ecs_get_direction(e: &recs::Ecs, id: recs::EntityId) -> (r: Option<Direction>)
    ensures
        match r {
            Some(d) => ecs_directions(*e).dom().contains(id_of(id)) && d == ecs_directions(
                *e,
            )[id_of(id)],
            None => !ecs_directions(*e).dom().contains(id_of(id)),
        },
{
    e.get::<Direction>(id).ok()
}

/// Relies on `recs::Ecs::set::<VecDeque<Point>>`: on a live entity it stores
/// or replaces that entity's tail-path component and touches nothing else.
#[verifier::external_body]
pub(crate) fn ecs_set_tail(e: &mut recs::Ecs, id: recs::EntityId, t: &VecDeque<Point>)
    requires
        ecs_entities(*old(e)).contains(id_of(id)),
    ensures
        ecs_tails(*final(e)) == ecs_tails(*old(e)).insert(id_of(id), t@),
        ecs_entities(*final(e)) == ecs_entities(*old(e)),
        ecs_positions(*final(e)) == ecs_positions(*old(e)),
        ecs_directions(*final(e)) == ecs_directions(*old(e)),
        ecs_walls(*final(e)) == ecs_walls(*old(e)),
{
    let _ = e.set(id, t.clone());
}

/// Relies on `recs::Ecs::get::<VecDeque<Point>>`: returns a clone of the
/// entity's tail-path component exactly when the entity is alive and has one.
#[verifier::external_body]
pub(crate) fn ecs_get_tail(e: &recs::Ecs, id: recs::EntityId) -> (r: Option<VecDeque<Point>>)
    ensures
        match r {
            Some(t) => ecs_tails(*e).dom().contains(id_of(id)) && t@ == ecs_tails(*e)[id_of(id)],
            None => !ecs_tails(*e).dom().contains(id_of(id)),
        },
{
    e.get::<VecDeque<Point>>(id).ok()
}

/// Relies on `recs::Ecs::set::<Wall>`: on a live entity it stores or replaces
/// that entity's `Wall` component and touches nothing else.
#[verifier::external_body]
pub(crate) fn ecs_set_wall(e: &mut recs::Ecs, id: recs::EntityId, w: Wall)
    requires
        ecs_entities(*old(e)).contains(id_of(id)),
    ensures
        ecs_walls(*final(e)) == ecs_walls(*old(e)).insert(id_of(id), w),
        ecs_entities(*final(e)) == ecs_entities(*old(e)),
        ecs_positions(*final(e)) == ecs_positions(*old(e)),
        ecs_directions(*final(e)) == ecs_directions(*old(e)),
        ecs_tails(*final(e)) == ecs_tails(*old(e)),
{
    let _ = e.set(id, w);
}

/// Relies on `recs::Ecs::get::<Wall>`: returns a clone of the entity's `Wall`
/// component exactly when the entity is alive and has one.
#[verifier::external_body]
pub(crate) fn ecs_get_wall(e: &recs::Ecs, id: recs::EntityId) -> (r: Option<Wall>)
    ensures
        match r {
            Some(w) => ecs_walls(*e).dom().contains(id_of(id)) && w == ecs_walls(*e)[id_of(id)],
            None => !ecs_walls(*e).dom().contains(id_of(id)),
        },
{
    e.get::<Wall>(id).ok()
}

/// Relies on `recs::Ecs::collect_with` (with a `recs::ComponentFilter` built
/// from the `Wall` type id): the vector is filled with exactly the ids of the
/// live entities that carry a `Wall` component.
#[verifier::external_body]
pub(crate) fn ecs_collect_wall_ids(e: &recs::Ecs) -> (ids: Vec<recs::EntityId>)
    ensures
        forall|i: int|
            0 <= i < ids@.len() ==> ecs_walls(*e).dom().contains(id_of(#[trigger] ids@[i])),
        forall|k: u64|
            ecs_walls(*e).dom().contains(k) ==> exists|i: int|
                0 <= i < ids@.len() && id_of(#[trigger] ids@[i]) == k,
{
    let filter = recs::ComponentFilter::from_slice(&[std::any::TypeId::of::<Wall>()]);
    let mut ids: Vec<recs::EntityId> = Vec::new();
    e.collect_with(&filter, &mut ids);
    ids
}

/// Relies on `recs::Ecs::set::<Player>`: attaching the zero-sized `Player`
/// marker to a live entity leaves the entities and every component map
/// tracked here unchanged.
#[verifier::external_body]
pub(crate) fn ecs_mark_player(e: &mut recs::Ecs, id: recs::EntityId)
    requires
        ecs_entities(*old(e)).contains(id_of(id)),
    ensures
        ecs_entities(*final(e)) == ecs_entities(*old(e)),
        ecs_positions(*final(e)) == ecs_positions(*old(e)),
        ecs_directions(*final(e)) == ecs_directions(*old(e)),
        ecs_tails(*final(e)) == ecs_tails(*old(e)),
        ecs_walls(*final(e)) == ecs_walls(*old(e)),
{
    let _ = e.set(id, Player);
}

/// Relies on `recs::Ecs::set::<Dot>`: attaching the zero-sized `Dot` marker
/// to a live entity leaves the entities and every component map tracked here
/// unchanged.
#[verifier::external_body]
pub(crate) fn ecs_mark_dot(e: &mut recs::Ecs, id: recs::EntityId)
    requires
        ecs_entities(*old(e)).contains(id_of(id)),
    ensures
        ecs_entities(*final(e)) == ecs_entities(*old(e)),
        ecs_positions(*final(e)) == ecs_positions(*old(e)),
        ecs_directions(*final(e)) == ecs_directions(*old(e)),
        ecs_tails(*final(e)) == ecs_tails(*old(e)),
        ecs_walls(*final(e)) == ecs_walls(*old(e)),
{
    let _ = e.set(id, Dot);
}

} // verus!
