//! The build pipeline of a module bundler: requests are resolved to
//! resources, resources are passed through chains of loaders, here or in
//! another runtime, and modules are built, hashed and generated from what
//! the loaders produce. The library decides; reading files, asking the
//! resolution engine and calling the other runtime is left to its caller.

pub mod build_info;
pub mod common_js_export_scanner;
pub mod contextify;
pub mod copy_config;
pub mod diagnostic;
pub mod hash;
pub mod identifier;
pub mod import_dependency;
pub mod js_loader;
pub mod loader;
pub mod loader_context;
pub mod loader_plugin;
pub mod loader_runner;
pub mod module_graph;
pub mod module_type;
pub mod normal_module;
pub mod options;
pub mod path;
pub mod resolve;
pub mod resolver;
pub mod resource;
pub mod size_cache;
pub mod source;
pub mod text;
