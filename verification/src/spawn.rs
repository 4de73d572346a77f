//! Placing new actors in the world: single hostiles, nests, towers, and
//! the initial nests of a fresh map.
//!
//! Positions come in whole tiles; the arena stores thousandths of a
//! tile.  Where the original placement draws randomness, the decision
//! takes the drawn rolls as plain numbers, so every placement rule is a
//! pure function of its inputs.

use vstd::prelude::*;
use crate::defense::spec_tower_stats;
use crate::defense::DefenseTower;
use crate::defense::DefenseTowerType;
use crate::enemy::spec_ai_behavior;
use crate::enemy::spec_base_stats;
use crate::enemy::spec_scaled;
use crate::enemy::Enemy;
use crate::enemy::EnemyBase;
use crate::enemy::EnemyType;
use crate::world::spec_enemy_damage_type;
use crate::world::ActorId;
use crate::world::World;
use crate::world::WorldActor;
use crate::combat::AttackAttributes;
use crate::combat::DefenseAttributes;

verus! {

/// Largest tile coordinate a spawn may use; keeps positions inside the
/// arena's coordinate range.
pub const MAX_SPAWN_TILE: u32 = 1_000_000;

/// Bound on arena growth per spawn call, far beyond any real map.
pub const MAX_ARENA_SLOTS: usize = 1_000_000_000;

/// Spawns a level-one hostile of the given archetype on a tile and hands
/// back its handle; the new actor carries the archetype's scaled stats,
/// starts idle and at full health.
pub fn spawn_enemy_at(world: &mut World, enemy_type: EnemyType, tile_x: u32, tile_y: u32) -> (id:
    ActorId)
    requires
        old(world).wf(),
        tile_x <= MAX_SPAWN_TILE,
        tile_y <= MAX_SPAWN_TILE,
        old(world).slots@.len() < MAX_ARENA_SLOTS,
    ensures
        final(world).wf(),
        final(world).spec_valid_id(id),
        ({
            let a = final(world).spec_actor(id);
            &&& a.enemy_type == Some(enemy_type)
            &&& a.behavior == Some(spec_ai_behavior(enemy_type))
            &&& a.max_health == spec_scaled(spec_base_stats(enemy_type).health as int, 1)
            &&& a.health == a.max_health
            &&& a.attack.damage == spec_scaled(spec_base_stats(enemy_type).damage as int, 1)
            &&& a.attack.damage_type == spec_enemy_damage_type(enemy_type)
            &&& a.flat_defense == spec_scaled(spec_base_stats(enemy_type).defense as int, 1)
            &&& a.x == tile_x * 1000
            &&& a.y == tile_y * 1000
        }),
        forall|other: ActorId|
            #[trigger] old(world).spec_valid_id(other) ==> final(world).spec_valid_id(other)
                && final(world).spec_actor(other) == old(world).spec_actor(other),
        old(world).all_alive() ==> final(world).all_alive(),
        final(world).player == old(world).player,
        final(world).pending_damage == old(world).pending_damage,
        final(world).pending_heals == old(world).pending_heals,
        final(world).slots@.len() <= old(world).slots@.len() + 1,
{
    let enemy = Enemy::new(enemy_type, 1);
    let actor = WorldActor::from_enemy(
        &enemy,
        (tile_x as i64) * 1000,
        (tile_y as i64) * 1000,
    );
    proof {
        assert(actor.health > 0);
    }
    world.spawn(actor)
}

/// Spawns a nest: the nest archetype stands in the arena as a hostile
/// actor, and the returned record drives its periodic spawning.
pub fn spawn_base_at(world: &mut World, base_type: EnemyType, tile_x: u32, tile_y: u32) -> (r: (
    ActorId,
    EnemyBase,
))
    requires
        old(world).wf(),
        tile_x <= MAX_SPAWN_TILE,
        tile_y <= MAX_SPAWN_TILE,
        old(world).slots@.len() < MAX_ARENA_SLOTS,
    ensures
        final(world).wf(),
        final(world).spec_valid_id(r.0),
        final(world).spec_actor(r.0).enemy_type == Some(base_type),
        final(world).spec_actor(r.0).x == tile_x * 1000,
        final(world).spec_actor(r.0).y == tile_y * 1000,
        r.1.base_type == base_type,
        r.1.spawn_timer == 0u64,
        r.1.current_spawn_count == 0u32,
        r.1.active,
        forall|other: ActorId|
            #[trigger] old(world).spec_valid_id(other) ==> final(world).spec_valid_id(other)
                && final(world).spec_actor(other) == old(world).spec_actor(other),
        old(world).all_alive() ==> final(world).all_alive(),
        final(world).player == old(world).player,
        final(world).pending_damage == old(world).pending_damage,
        final(world).pending_heals == old(world).pending_heals,
        final(world).slots@.len() <= old(world).slots@.len() + 1,
{
    let id = spawn_enemy_at(world, base_type, tile_x, tile_y);
    let base = EnemyBase::new(base_type);
    (id, base)
}

/// Builds the arena actor for a tower and places it: the tower's damage,
/// range and speed become its attack profile, it never rolls critical
/// hits, and its damage type follows the tower dispatch table.  The
/// tower is externally driven: it has no behavior policy.
pub fn create_defense_tower(world: &mut World, tower_type: DefenseTowerType, x: i64, y: i64) -> (
    id: ActorId)
    requires
        old(world).wf(),
        -crate::world::COORD_LIMIT <= x <= crate::world::COORD_LIMIT,
        -crate::world::COORD_LIMIT <= y <= crate::world::COORD_LIMIT,
        old(world).slots@.len() < MAX_ARENA_SLOTS,
    ensures
        final(world).wf(),
        final(world).spec_valid_id(id),
        ({
            let a = final(world).spec_actor(id);
            let stats = spec_tower_stats(tower_type);
            &&& a.attack.damage == stats.damage
            &&& a.attack.attack_range == stats.range
            &&& a.attack.attack_speed == stats.attack_speed
            &&& a.attack.critical_chance == 0u32
            &&& a.behavior is None
            &&& a.enemy_type is None
            &&& a.x == x
            &&& a.y == y
        }),
        forall|other: ActorId|
            #[trigger] old(world).spec_valid_id(other) ==> final(world).spec_valid_id(other)
                && final(world).spec_actor(other) == old(world).spec_actor(other),
        old(world).all_alive() ==> final(world).all_alive(),
        final(world).player == old(world).player,
        final(world).pending_damage == old(world).pending_damage,
        final(world).pending_heals == old(world).pending_heals,
{
    let tower = DefenseTower::new(tower_type);
    let shot = crate::defense::perform_tower_attack(&tower);
    let attack = AttackAttributes {
        damage: tower.stats.damage,
        damage_type: shot.damage_type,
        attack_range: tower.stats.range,
        attack_speed: tower.stats.attack_speed,
        critical_chance: 0,
        critical_multiplier: 1000,
        penetration: 0,
    };
    let actor = WorldActor::player(attack, DefenseAttributes::default(), 1_000_000, x, y);
    world.spawn(actor)
}

/// The tile on a map's edge that a pair of rolls picks: the first roll
/// chooses the edge (top, bottom, left, right in that order), the second
/// the position along it.
pub open spec fn spec_edge_spawn_tile(map_width: u32, map_height: u32, edge_roll: u32, coord_roll: u32) -> (
    u32,
    u32,
) {
    let edge = edge_roll % 4;
    if edge == 0 {
        ((coord_roll % map_width) as u32, 0u32)
    } else if edge == 1 {
        ((coord_roll % map_width) as u32, (map_height - 1) as u32)
    } else if edge == 2 {
        (0u32, (coord_roll % map_height) as u32)
    } else {
        ((map_width - 1) as u32, (coord_roll % map_height) as u32)
    }
}

/// Picks a tile on the map's edge from two rolls.
pub fn edge_spawn_tile(map_width: u32, map_height: u32, edge_roll: u32, coord_roll: u32) -> (r: (
    u32,
    u32,
))
    requires
        0 < map_width,
        0 < map_height,
    ensures
        r == spec_edge_spawn_tile(map_width, map_height, edge_roll, coord_roll),
        r.0 < map_width,
        r.1 < map_height,
{
    let edge = edge_roll % 4;
    if edge == 0 {
        (coord_roll % map_width, 0)
    } else if edge == 1 {
        (coord_roll % map_width, map_height - 1)
    } else if edge == 2 {
        (0, coord_roll % map_height)
    } else {
        (map_width - 1, coord_roll % map_height)
    }
}

/// Whether a periodic roll places a new edge nest, and of which kind:
/// a tenth of the draws spawn one, and of those, three in ten are a
/// mother base, the rest a robot fortress.
pub open spec fn spec_base_spawn_decision(spawn_roll: u32, kind_roll: u32) -> Option<EnemyType> {
    if spawn_roll % 1000 < 100 {
        Some(
            if kind_roll % 1000 < 300 {
                EnemyType::AIMotherBase
            } else {
                EnemyType::RobotFortress
            },
        )
    } else {
        None::<EnemyType>
    }
}

/// Decides whether this period's rolls place a new edge nest.
pub fn base_spawn_decision(spawn_roll: u32, kind_roll: u32) -> (r: Option<EnemyType>)
    ensures
        r == spec_base_spawn_decision(spawn_roll, kind_roll),
{
    if spawn_roll % 1000 < 100 {
        Some(
            if kind_roll % 1000 < 300 {
                EnemyType::AIMotherBase
            } else {
                EnemyType::RobotFortress
            },
        )
    } else {
        None
    }
}

/// The tile the mother base settles on: five to nine tiles from the
/// map's center, the offset and its direction picked by the rolls,
/// clamped to the map.
pub open spec fn spec_mother_base_tile(
    map_width: u32,
    map_height: u32,
    offset_roll: u32,
    x_roll: u32,
    y_roll: u32,
) -> (u32, u32) {
    let center_x = map_width / 2;
    let center_y = map_height / 2;
    let offset = (5 + offset_roll % 5) as u32;
    let raw_x = if x_roll % 2 == 0 {
        (center_x + offset) as u32
    } else if center_x >= offset {
        (center_x - offset) as u32
    } else {
        0u32
    };
    let raw_y = if y_roll % 2 == 0 {
        (center_y + offset) as u32
    } else if center_y >= offset {
        (center_y - offset) as u32
    } else {
        0u32
    };
    let x = if raw_x > map_width - 1 {
        (map_width - 1) as u32
    } else {
        raw_x
    };
    let y = if raw_y > map_height - 1 {
        (map_height - 1) as u32
    } else {
        raw_y
    };
    (x, y)
}

/// Sets up a fresh map's nests: two robot fortresses on the map's edges,
/// placed by the first two pairs of rolls, and one mother base near the
/// center, offset by five to nine tiles in the direction the last rolls
/// pick.  Returns the nests' driving records paired with their handles.
pub fn initialize_enemy_bases(
    world: &mut World,
    map_width: u32,
    map_height: u32,
    rolls: &Vec<u32>,
) -> (bases: Vec<(ActorId, EnemyBase)>)
    requires
        old(world).wf(),
        0 < map_width <= MAX_SPAWN_TILE,
        0 < map_height <= MAX_SPAWN_TILE,
        rolls@.len() >= 7,
        old(world).slots@.len() < MAX_ARENA_SLOTS - 3,
    ensures
        final(world).wf(),
        old(world).all_alive() ==> final(world).all_alive(),
        bases@.len() == 3,
        forall|k: int|
            0 <= k < bases@.len() ==> final(world).spec_valid_id((#[trigger] bases@[k]).0),
        bases@[0].1.base_type == EnemyType::RobotFortress,
        bases@[1].1.base_type == EnemyType::RobotFortress,
        bases@[2].1.base_type == EnemyType::AIMotherBase,
        ({
            let t0 = spec_edge_spawn_tile(map_width, map_height, rolls@[0], rolls@[1]);
            let t1 = spec_edge_spawn_tile(map_width, map_height, rolls@[2], rolls@[3]);
            let t2 = spec_mother_base_tile(map_width, map_height, rolls@[4], rolls@[5], rolls@[6]);
            &&& final(world).spec_actor(bases@[0].0).x == t0.0 * 1000
            &&& final(world).spec_actor(bases@[0].0).y == t0.1 * 1000
            &&& final(world).spec_actor(bases@[1].0).x == t1.0 * 1000
            &&& final(world).spec_actor(bases@[1].0).y == t1.1 * 1000
            &&& final(world).spec_actor(bases@[2].0).x == t2.0 * 1000
            &&& final(world).spec_actor(bases@[2].0).y == t2.1 * 1000
        }),
        final(world).player == old(world).player,
        final(world).pending_damage == old(world).pending_damage,
        final(world).pending_heals == old(world).pending_heals,
{
    let mut bases: Vec<(ActorId, EnemyBase)> = Vec::new();
    let (fx0, fy0) = edge_spawn_tile(map_width, map_height, rolls[0], rolls[1]);
    let first = spawn_base_at(world, EnemyType::RobotFortress, fx0, fy0);
    bases.push(first);
    let (fx1, fy1) = edge_spawn_tile(map_width, map_height, rolls[2], rolls[3]);
    let second = spawn_base_at(world, EnemyType::RobotFortress, fx1, fy1);
    bases.push(second);
    let center_x = map_width / 2;
    let center_y = map_height / 2;
    let offset = 5 + rolls[4] % 5;
    let mother_x = if rolls[5] % 2 == 0 {
        center_x + offset
    } else {
        if center_x >= offset {
            center_x - offset
        } else {
            0
        }
    };
    let mother_y = if rolls[6] % 2 == 0 {
        center_y + offset
    } else {
        if center_y >= offset {
            center_y - offset
        } else {
            0
        }
    };
    let mx = if mother_x > map_width - 1 {
        map_width - 1
    } else {
        mother_x
    };
    let my = if mother_y > map_height - 1 {
        map_height - 1
    } else {
        mother_y
    };
    let third = spawn_base_at(world, EnemyType::AIMotherBase, mx, my);
    bases.push(third);
    proof {
        assert(bases@.len() == 3);
        assert(bases@[0] == first);
        assert(bases@[1] == second);
        assert(bases@[2] == third);
        assert((mx, my) == spec_mother_base_tile(
            map_width,
            map_height,
            rolls@[4],
            rolls@[5],
            rolls@[6],
        ));
        assert((fx0, fy0) == spec_edge_spawn_tile(map_width, map_height, rolls@[0], rolls@[1]));
        assert((fx1, fy1) == spec_edge_spawn_tile(map_width, map_height, rolls@[2], rolls@[3]));
    }
    bases
}

} // verus!
