//! Core of a turn-based adventure game: attribute aggregation, equipment and
//! inventory mutation, quest fulfillment, round-based combat, kill bookkeeping
//! and zone navigation. Every operation is a pure in-memory state transition;
//! loading catalogs from disk, saving characters and console rendering live in
//! the surrounding application.

pub mod attributes;
pub mod game;
pub mod item;
pub mod monster;
pub mod npc;
pub mod player;
pub mod numfmt;
pub mod quest;
pub mod rng;
pub mod zone;
