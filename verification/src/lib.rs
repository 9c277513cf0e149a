//! Layer caching decisions and scoped environment composition for a Ruby
//! buildpack.
//!
//! A build runs a sequence of named layers. For each layer the
//! [`manager::LayerManager`] decides whether cached output can be reused, and
//! folds the environment changes that the layer reports into the environment
//! that later layers and the launched process see.

pub mod composition;
pub mod buildpack;
pub mod env;
pub mod gem_list;
pub mod gem_version;
pub mod layer;
pub mod layer_env;
pub mod layer_name;
pub mod layers;
pub mod manager;
pub mod store;
pub mod string_map;
