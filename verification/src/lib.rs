//! Verified core of a Minecraft launcher: library and argument processing,
//! mod version selection, manifest lookups and the launcher's small state.
pub mod text;
pub mod template;
pub mod paths;
pub mod rules;
pub mod library;
pub mod launcher;
pub mod bindings;
pub mod version;
pub mod collection;
pub mod mods;
pub mod native;
pub mod native_library;
pub mod settings;
pub mod download;
pub mod logger;
pub mod modloader;
pub mod mod_manager;
pub mod mod_order;
pub mod assets;
pub mod account;
pub mod vanilla;
pub mod storage;
pub mod native_collection;
