//! Quick journaling: routes an entry through tag rules, formats it for a
//! daily note or the working-memory file, and works out where it goes.
pub mod clock;
pub mod entry;
pub mod laws;
pub mod paths;
pub mod settings;
pub mod shards;
pub mod tags;
pub mod text;
