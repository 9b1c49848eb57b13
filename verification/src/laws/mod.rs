//! What holds of a generated bridge as a whole.

pub mod capabilities;
pub mod clashes;
pub mod entries;
pub mod fixed_text;
pub mod functions;
pub mod indexes;
pub mod layouts;
pub mod listings;
pub mod naming;
pub mod objects;
pub mod package;
pub mod reading;
pub mod records;
pub mod registrations;
pub mod surface;
pub mod types;
