//! Entity attributes and the per-frame rules that read them.

use vstd::prelude::*;

verus! {

/// The attribute records of one entity, as far as the per-frame rules read
/// them. Each field says whether the entity carries that record.
#[derive(Clone, Copy, Debug, PartialEq, Eq, Structural)]
pub struct Marks {
    /// The entity has a linear velocity: gravity accumulates on it and the
    /// position advances by it.
    pub velocity: bool,
    /// The entity has an angular velocity, so its orientation is integrated.
    pub angular_velocity: bool,
    /// The level-triggered despawn may remove the entity.
    pub despawnable: bool,
    /// The entity is the intact box that an explosion replaces.
    pub placeholder: bool,
}

impl Marks {
    pub open spec fn spec_placeholder() -> Marks {
        Marks {
            velocity: false,
            angular_velocity: false,
            despawnable: false,
            placeholder: true,
        }
    }

    pub open spec fn spec_planar_debris() -> Marks {
        Marks {
            velocity: true,
            angular_velocity: false,
            despawnable: true,
            placeholder: false,
        }
    }

    pub open spec fn spec_spatial_debris() -> Marks {
        Marks {
            velocity: true,
            angular_velocity: true,
            despawnable: false,
            placeholder: false,
        }
    }

    /// The intact box: it stands still and only an explosion removes it.
    pub fn placeholder() -> (m: Marks)
        ensures
            m == Marks::spec_placeholder(),
    {
        Marks {
            velocity: false,
            angular_velocity: false,
            despawnable: false,
            placeholder: true,
        }
    }

    /// A cube of the planar scene: it moves and falls, and can be despawned.
    pub fn planar_debris() -> (m: Marks)
        ensures
            m == Marks::spec_planar_debris(),
    {
        Marks {
            velocity: true,
            angular_velocity: false,
            despawnable: true,
            placeholder: false,
        }
    }

    /// A cube of an explosion: it moves, spins and falls, and stays for good.
    pub fn spatial_debris() -> (m: Marks)
        ensures
            m == Marks::spec_spatial_debris(),
    {
        Marks {
            velocity: true,
            angular_velocity: true,
            despawnable: false,
            placeholder: false,
        }
    }
}

/// A per-frame rule. Each rule visits the live entities it acts on.
#[derive(Clone, Copy, Debug, PartialEq, Eq, Structural)]
pub enum System {
    /// Adds the gravity step to the vertical velocity.
    Gravity,
    /// Advances the position by the velocity.
    Velocity,
    /// Advances the orientation by the angular velocity.
    Rotation,
    /// Removes the despawnable entities while the key is held.
    Despawn,
    /// Replaces the placeholder by debris on a key-press edge.
    Explode,
}

impl System {
    /// Whether the rule acts on an entity with the given marks.
    pub open spec fn spec_acts_on(self, m: Marks) -> bool {
        match self {
            System::Gravity => m.velocity,
            System::Velocity => m.velocity,
            System::Rotation => m.angular_velocity,
            System::Despawn => m.despawnable,
            System::Explode => m.placeholder,
        }
    }

    pub fn acts_on(self, m: Marks) -> (b: bool)
        ensures
            b == self.spec_acts_on(m),
    {
        match self {
            System::Gravity => m.velocity,
            System::Velocity => m.velocity,
            System::Rotation => m.angular_velocity,
            System::Despawn => m.despawnable,
            System::Explode => m.placeholder,
        }
    }
}

} // verus!
