//! Signer-source resolution, mnemonic recovery, tree capacity lookup and
//! transaction submission sequencing for a Merkle-tree management tool.

pub mod capacity;
pub mod keys;
pub mod layout;
pub mod recovery;
pub mod resolve;
pub mod source;
pub mod submit;
pub mod text;
pub mod token;
