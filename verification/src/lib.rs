//! Verified core of a chroot-based Linux rootfs installer.
//!
//! The library covers the provisioning pipeline: deriving the install
//! target from a distribution record, sniffing and decoding compressed
//! rootfs archives, normalizing unpacked trees (OCI layer selection,
//! nested-directory flattening, security-attribute stripping plans),
//! generating the bootstrap shell scripts, and the orchestrator state
//! machine that sequences these steps and reports progress.

pub mod archive;
pub mod config;
pub mod device;
pub mod distro;
pub mod error;
pub mod normalize;
pub mod pipeline;
pub mod progress;
pub mod resolver;
pub mod screen;
pub mod script;
pub mod target;
pub mod text;
