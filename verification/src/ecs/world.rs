//! World: the storage of the components of all entities.

use vstd::prelude::*;
use glam::Vec3;
use crate::ecs::entity::Entity;

verus! {

/// Base (rest) position in world space.
#[derive(Clone, Copy, Debug)]
pub struct BasePosition(pub Vec3);

/// Back-and-forth motion along an axis. Phase, amplitude and speed are the
/// bits of single-precision numbers.
#[derive(Clone, Copy, Debug)]
pub struct OscillateMotion {
    pub axis: Vec3,
    pub phase: u32,
    pub amplitude: u32,
    pub speed: u32,
}

/// Renders as a half-cube of the given scale, as bits.
#[derive(Clone, Copy, Debug)]
pub struct HalfCube {
    pub scale: u32,
}

/// What one moving half-cube consists of.
#[derive(Clone, Copy, Debug)]
pub struct MovingCube {
    pub base_position: Vec3,
    pub motion_axis: Vec3,
    pub motion_phase: u32,
    pub motion_amplitude: u32,
    pub motion_speed: u32,
    pub scale: u32,
}

/// Storage for the entities that have a base position, a motion and a
/// half-cube: one column per component, one row per entity.
#[derive(Debug)]
pub struct MovingCubeArchetype {
    pub base_positions: Vec<Vec3>,
    pub motion_axes: Vec<Vec3>,
    pub motion_phases: Vec<u32>,
    pub motion_amplitudes: Vec<u32>,
    pub motion_speeds: Vec<u32>,
    pub scales: Vec<u32>,
}

impl MovingCubeArchetype {
    /// Whether every column has a row for every entity.
    pub open spec fn well_formed(self) -> bool {
        &&& self.motion_axes@.len() == self.base_positions@.len()
        &&& self.motion_phases@.len() == self.base_positions@.len()
        &&& self.motion_amplitudes@.len() == self.base_positions@.len()
        &&& self.motion_speeds@.len() == self.base_positions@.len()
        &&& self.scales@.len() == self.base_positions@.len()
    }

    /// The entity in row `i`.
    pub open spec fn row(self, i: int) -> MovingCube {
        MovingCube {
            base_position: self.base_positions@[i],
            motion_axis: self.motion_axes@[i],
            motion_phase: self.motion_phases@[i],
            motion_amplitude: self.motion_amplitudes@[i],
            motion_speed: self.motion_speeds@[i],
            scale: self.scales@[i],
        }
    }

    /// All entities, in the order in which they were spawned.
    pub open spec fn rows(self) -> Seq<MovingCube> {
        Seq::new(self.base_positions@.len(), |i: int| self.row(i))
    }

    /// Storage without entities.
    pub fn new() -> (archetype: Self)
        ensures
            archetype.well_formed(),
            archetype.rows() == Seq::<MovingCube>::empty(),
    {
        let archetype = MovingCubeArchetype {
            base_positions: Vec::new(),
            motion_axes: Vec::new(),
            motion_phases: Vec::new(),
            motion_amplitudes: Vec::new(),
            motion_speeds: Vec::new(),
            scales: Vec::new(),
        };
        assert(archetype.rows() =~= Seq::<MovingCube>::empty());
        archetype
    }

    /// Whether every column has a row for every entity.
    pub fn is_well_formed(&self) -> (ok: bool)
        ensures
            ok == self.well_formed(),
    {
        let n = self.base_positions.len();
        self.motion_axes.len() == n && self.motion_phases.len() == n
            && self.motion_amplitudes.len() == n && self.motion_speeds.len() == n
            && self.scales.len() == n
    }

    /// Number of entities.
    pub fn len(&self) -> (n: usize)
        ensures
            n == self.rows().len(),
    {
        self.base_positions.len()
    }

    /// Whether there is no entity.
    pub fn is_empty(&self) -> (empty: bool)
        ensures
            empty == (self.rows().len() == 0),
    {
        self.base_positions.len() == 0
    }

    /// Spawns one moving half-cube and returns its handle: the entity gets
    /// the next row, and its index is the number of that row.
    pub fn spawn(
        &mut self,
        base_position: BasePosition,
        motion: OscillateMotion,
        half_cube: HalfCube,
    ) -> (entity: Entity)
        requires
            old(self).well_formed(),
            old(self).rows().len() < u32::MAX,
        ensures
            final(self).well_formed(),
            entity.index() == old(self).rows().len(),
            final(self).rows() == old(self).rows().push(
                MovingCube {
                    base_position: base_position.0,
                    motion_axis: motion.axis,
                    motion_phase: motion.phase,
                    motion_amplitude: motion.amplitude,
                    motion_speed: motion.speed,
                    scale: half_cube.scale,
                },
            ),
    {
        let index: u32 = self.base_positions.len() as u32;
        self.base_positions.push(base_position.0);
        self.motion_axes.push(motion.axis);
        self.motion_phases.push(motion.phase);
        self.motion_amplitudes.push(motion.amplitude);
        self.motion_speeds.push(motion.speed);
        self.scales.push(half_cube.scale);
        assert(self.rows() =~= old(self).rows().push(
            MovingCube {
                base_position: base_position.0,
                motion_axis: motion.axis,
                motion_phase: motion.phase,
                motion_amplitude: motion.amplitude,
                motion_speed: motion.speed,
                scale: half_cube.scale,
            },
        ));
        Entity::from_index(index)
    }

    /// The components of the entity with the given handle, where it is stored here.
    pub fn get(&self, entity: Entity) -> (cube: Option<MovingCube>)
        requires
            self.well_formed(),
        ensures
            cube == if entity.index() < self.rows().len() {
                Some(self.rows()[entity.index()])
            } else {
                None
            },
    {
        let i = entity.to_index() as usize;
        if i < self.base_positions.len() {
            Some(
                MovingCube {
                    base_position: self.base_positions[i],
                    motion_axis: self.motion_axes[i],
                    motion_phase: self.motion_phases[i],
                    motion_amplitude: self.motion_amplitudes[i],
                    motion_speed: self.motion_speeds[i],
                    scale: self.scales[i],
                },
            )
        } else {
            None
        }
    }

    /// The components of all entities, in the order in which they were spawned.
    pub fn iter(&self) -> (cubes: Vec<MovingCube>)
        requires
            self.well_formed(),
        ensures
            cubes@ == self.rows(),
    {
        let mut cubes: Vec<MovingCube> = Vec::new();
        let mut i: usize = 0;
        while i < self.base_positions.len()
            invariant
                self.well_formed(),
                i <= self.base_positions@.len(),
                cubes@ == self.rows().subrange(0, i as int),
            decreases self.base_positions@.len() - i,
        {
            cubes.push(
                MovingCube {
                    base_position: self.base_positions[i],
                    motion_axis: self.motion_axes[i],
                    motion_phase: self.motion_phases[i],
                    motion_amplitude: self.motion_amplitudes[i],
                    motion_speed: self.motion_speeds[i],
                    scale: self.scales[i],
                },
            );
            assert(cubes@ =~= self.rows().subrange(0, i + 1));
            i = i + 1;
        }
        assert(cubes@ =~= self.rows());
        cubes
    }
}

/// World holds all component storages; so far there is one.
#[derive(Debug)]
pub struct World {
    pub moving_cubes: MovingCubeArchetype,
}

impl World {
    /// A world without entities.
    pub fn new() -> (world: Self)
        ensures
            world.moving_cubes.well_formed(),
            world.moving_cubes.rows() == Seq::<MovingCube>::empty(),
    {
        World { moving_cubes: MovingCubeArchetype::new() }
    }

    /// Spawns a moving half-cube and returns its handle.
    pub fn spawn_moving_half_cube(
        &mut self,
        base_position: BasePosition,
        motion: OscillateMotion,
        half_cube: HalfCube,
    ) -> (entity: Entity)
        requires
            old(self).moving_cubes.well_formed(),
            old(self).moving_cubes.rows().len() < u32::MAX,
        ensures
            final(self).moving_cubes.well_formed(),
            entity.index() == old(self).moving_cubes.rows().len(),
            final(self).moving_cubes.rows() == old(self).moving_cubes.rows().push(
                MovingCube {
                    base_position: base_position.0,
                    motion_axis: motion.axis,
                    motion_phase: motion.phase,
                    motion_amplitude: motion.amplitude,
                    motion_speed: motion.speed,
                    scale: half_cube.scale,
                },
            ),
    {
        self.moving_cubes.spawn(base_position, motion, half_cube)
    }

    /// Number of moving half-cubes, which is the number of instances to draw.
    pub fn moving_half_cube_count(&self) -> (n: usize)
        ensures
            n == self.moving_cubes.rows().len(),
    {
        self.moving_cubes.len()
    }
}

} // verus!
