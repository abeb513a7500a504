//! An attestation-gated secret and policy-decision service core: a command
//! dispatcher over an attested channel, a credential store, a resource
//! store with crash-safe overwrite semantics, and an authenticated
//! encryption engine. Durable state is modeled as verified in-memory maps;
//! the surrounding program mirrors them onto the filesystem and carries
//! requests and responses over the wire.
pub mod annotation;
pub mod crypto;
pub mod decision;
pub mod encoding;
pub mod file;
pub mod fsmap;
pub mod gpg;
pub mod image;
pub mod keys;
pub mod messages;
pub mod opa;
pub mod protocol;
pub mod resource;
pub mod text;
