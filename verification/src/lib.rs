//! Asynchronous resource loading and caching.
//!
//! The crate verifies the sequential core of the engine's resource subsystem:
//! a [`keys::KeyIssuer`] that hands out unique, strictly increasing handles, a
//! [`store::ResourceStore`] that maps handles to load states, and a
//! [`manager::ResourceManager`] façade whose `request`/`get` protocol drives a
//! descriptor from `Loading` to a terminal `Loaded` or `Error` state exactly
//! once. Background workers and filesystem reads live outside the crate; they
//! feed their outcomes back through [`manager::ResourceManager::complete`].

pub mod graphics;
pub mod keys;
pub mod manager;
pub mod resource;
pub mod store;
pub mod system;

pub use graphics::TextureFilterMode;
pub use graphics::UniformType;
pub use keys::KeyIssuer;
pub use keys::ResourceKey;
pub use manager::ResourceManager;
pub use resource::Error;
pub use resource::Resource;
pub use resource::ResourceState;
pub use store::ResourceStore;
pub use system::bind_mesh;
pub use system::request_resource;
pub use system::system;
