//! Provisioning of a self-contained federated wiki install: branch specs resolved to
//! archive URLs, skip-if-exists downloads, archive extraction plans, the dependency
//! linker's calls, and the create sequence as a state machine that a driver runs by
//! performing each action it hands out. Also the sitemap and page shapes of wiki sites.

pub mod archive;
pub mod branch;
pub mod config;
pub mod error;
pub mod fetch;
pub mod lifecycle;
pub mod roster;
pub mod runtime;
pub mod sitemap;
pub mod strings;
pub mod urls;
