//! Declarative widget construction for a retained-mode UI tree.
//!
//! Callers describe a subtree with builder values (rows, columns, labels,
//! buttons, text inputs, check boxes) and realise it into a [`scene::Scene`],
//! the record of nodes that the host engine then spawns. Theme resolution,
//! paint modes and the ownership index are all checked against their
//! contracts.
pub mod colour;
pub mod hierarchy;
pub mod interaction;
pub mod layout;
pub mod scene;
pub mod style;
pub mod theme;
pub mod widgets;
