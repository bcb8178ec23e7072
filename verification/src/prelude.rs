//! The items that most users of this crate need, for import in one line.

pub use crate::block::{Block, BlockData, Ownership};
pub use crate::chain::Chain;
pub use crate::error::{Error, SignerError, VerifierError};
pub use crate::key::{KeyPair, PublicKey};
pub use crate::{error, hash};
