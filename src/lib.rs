//! Item kinds, inventories and the decisions of a small tower-defense
//! prototype, kept apart from the game engine that runs them.
pub mod building;
pub mod inventory;
pub mod items;
pub mod selection;
