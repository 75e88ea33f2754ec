//! Copper builds Minecraft datapacks as plain values: commands, entity
//! selectors, coordinates, number providers, item modifiers and predicates.
//! Every value has exactly one rendering — a command line of text or a
//! tagged JSON document — and the encoders here are verified to produce it.

pub mod command;
pub mod coord;
pub mod datapack;
pub mod decimal;
pub mod encode;
pub mod ident;
pub mod item_modifier;
pub mod json;
pub mod minecraft;
pub mod predicate;
pub mod prelude;
pub mod provider;
pub mod score;
pub mod selector;
pub mod text;
