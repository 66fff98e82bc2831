//! Host-side plugin loader for a pluggable hashing engine.
//!
//! The host owns an accumulating command-line schema; each loaded module
//! extends that schema and contributes a plugin capability from which worker
//! factories and workers are obtained.  The modules here state and verify the
//! boundary protocol: schema ownership passes linearly through each module,
//! loading is sequential and fail-fast, option dispatch stops at the first
//! failing plugin, and worker factories expose only the most recently loaded
//! plugin's specs.

pub mod args;
pub mod capability;
pub mod errors;
pub mod manager;
pub mod memory;
pub mod registration;
pub mod schema;

pub use args::ParsedArgs;
pub use capability::Plugin;
pub use capability::Worker;
pub use capability::WorkerSpec;
pub use errors::HostError;
pub use manager::LoadFailure;
pub use manager::PluginManager;
pub use manager::load_plugins;
pub use memory::MemModule;
pub use memory::MemPlugin;
pub use memory::MemSpec;
pub use memory::MemWorker;
pub use registration::ModuleHandle;
pub use registration::register_plugin;
pub use schema::Schema;
