//! Status-effect (buff/debuff) engine for a real-time game character system.
//!
//! A character owns a fixed-capacity [`statuses::Statuses`] slot array holding
//! active effects. The first slots are reserved for the "main" effect kinds
//! (one slot per kind, at most one instance each); the remaining slots hold
//! "secondary" effects in append order behind a high-water mark. Aggregation
//! queries fold over the active effects to produce combined attribute
//! modifiers, render tint, sprite override, push/damage filtering and
//! remaining-time information. Other systems mutate a set only through the
//! message types in [`messages`].

pub mod char_attr;
pub mod laws;
pub mod messages;
pub mod status;
pub mod statuses;
pub mod time;
