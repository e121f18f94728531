//! The lights of a scene, packed for the GPU.

use crate::light::{DirectionalLightPod, Light, PointLightPod};
use crate::scene::{EntityView, Scene};
use crate::shaded::layout::{MAX_DIRECTIONAL_LIGHTS, MAX_POINT_LIGHTS};
use vstd::prelude::*;

verus! {

/// A sequence cut to a capacity: the sequence itself where it fits, else its
/// first `capacity` items.
pub open spec fn capped<T>(s: Seq<T>, capacity: nat) -> Seq<T> {
    if s.len() <= capacity {
        s
    } else {
        s.take(capacity as int)
    }
}

/// Adding an item to a sequence adds it to the capped sequence while there is
/// room, and leaves the capped sequence as it is once it is full.
pub proof fn lemma_capped_push<T>(s: Seq<T>, item: T, capacity: nat)
    ensures
        capped(s.push(item), capacity) == if s.len() < capacity {
            capped(s, capacity).push(item)
        } else {
            capped(s, capacity)
        },
{
    if s.len() >= capacity {
        assert(s.push(item).take(capacity as int) =~= s.take(capacity as int));
        assert(s.len() == capacity ==> s.take(capacity as int) =~= s);
    }
}

/// The records of the point lights among the entities, in the order of the
/// entities.
pub open spec fn point_lights(entities: Seq<EntityView>) -> Seq<PointLightPod>
    decreases entities.len(),
{
    if entities.len() == 0 {
        Seq::empty()
    } else {
        let before = point_lights(entities.drop_last());
        match entities.last().light {
            Some(Light::Point(light)) => before.push(light.spec_pod()),
            _ => before,
        }
    }
}

/// The records of the directional lights among the entities, in the order of
/// the entities.
pub open spec fn directional_lights(entities: Seq<EntityView>) -> Seq<DirectionalLightPod>
    decreases entities.len(),
{
    if entities.len() == 0 {
        Seq::empty()
    } else {
        let before = directional_lights(entities.drop_last());
        match entities.last().light {
            Some(Light::Directional(light)) => before.push(light.spec_pod()),
            _ => before,
        }
    }
}

/// The lights of a scene as they are uploaded.
pub struct PackedLights {
    pub point: Vec<PointLightPod>,
    pub directional: Vec<DirectionalLightPod>,
}

/// Packs the lights of the scene: the point lights and the directional lights,
/// each kind in the order of the entities and cut to what the shader has room
/// for. Lights of other kinds are passed over.
pub fn pack_lights(scene: &Scene) -> (packed: PackedLights)
    ensures
        packed.point@ == capped(point_lights(scene@.entities), MAX_POINT_LIGHTS as nat),
        packed.directional@ == capped(
            directional_lights(scene@.entities),
            MAX_DIRECTIONAL_LIGHTS as nat,
        ),
{
    let ghost entities = scene@.entities;
    let mut point: Vec<PointLightPod> = Vec::new();
    let mut directional: Vec<DirectionalLightPod> = Vec::new();
    let mut e: usize = 0;
    assert(entities.take(0) =~= Seq::empty());
    while e < scene.entities.len()
        invariant
            e <= scene.entities.len(),
            entities == scene@.entities,
            point@ == capped(point_lights(entities.take(e as int)), MAX_POINT_LIGHTS as nat),
            directional@ == capped(
                directional_lights(entities.take(e as int)),
                MAX_DIRECTIONAL_LIGHTS as nat,
            ),
        decreases scene.entities.len() - e,
    {
        proof {
            assert(entities.take(e + 1).drop_last() =~= entities.take(e as int));
            assert(entities.take(e + 1).last() == scene.entities@[e as int]@);
        }
        match scene.entities[e].light {
            Some(Light::Point(light)) => {
                proof {
                    lemma_capped_push(
                        point_lights(entities.take(e as int)),
                        light.spec_pod(),
                        MAX_POINT_LIGHTS as nat,
                    );
                }
                if point.len() < MAX_POINT_LIGHTS {
                    point.push(light.pod());
                }
            },
            Some(Light::Directional(light)) => {
                proof {
                    lemma_capped_push(
                        directional_lights(entities.take(e as int)),
                        light.spec_pod(),
                        MAX_DIRECTIONAL_LIGHTS as nat,
                    );
                }
                if directional.len() < MAX_DIRECTIONAL_LIGHTS {
                    directional.push(light.pod());
                }
            },
            _ => {},
        }
        e += 1;
    }
    assert(entities.take(e as int) =~= entities);
    PackedLights { point, directional }
}

} // verus!
