//! A small package-build engine: manifest declarations are decoded into typed
//! records, files are gathered into reproducible archives, built packages are
//! kept in a name-keyed registry, and repository clones are driven by an
//! explicit state machine.
pub mod archive;
pub mod device;
pub mod fetch;
pub mod manifest;
pub mod registry;
pub mod source;
