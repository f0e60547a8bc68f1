//! Static analysis of package-manifest lifecycle scripts.
//!
//! The crate scans the raw text of `preinstall` / `install` / `postinstall`
//! scripts against a catalog of behavioral signatures (network access, data
//! exfiltration, process execution, filesystem tampering, obfuscation),
//! aggregates the matches into a bounded, confidence-weighted risk score, and
//! offers a separate coarse token-count heuristic over the same scripts.

pub mod analyser;
pub mod parser;
pub mod text;
