//! Deterministic core of a single-ship arena simulation: a fixed-capacity
//! entity pool, the ship's movement-mode rules, the discrete part of command
//! handling and the lock-on logic of homing projectiles.

pub mod controls;
pub mod gun;
pub mod movement;
pub mod object_pool;
pub mod projectile;
pub mod star;
