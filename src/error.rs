use vstd::prelude::*;

verus! {

/// Why a set of hyperparameters read from a header is refused.
#[derive(Debug, Clone, Copy, PartialEq, Eq, Structural)]
pub enum ConfigFault {
    /// One of `dim`, `hidden_dim`, `n_layers`, `n_heads`, `n_kv_heads`,
    /// `seq_len` is zero or negative.
    NotPositive,
    /// `vocab_size` is zero.
    EmptyVocabulary,
    /// More key/value heads than query heads.
    KvHeadsExceedHeads,
    /// `n_heads` is not a multiple of `n_kv_heads`.
    HeadsNotGrouped,
    /// `dim` is not a multiple of `n_heads`.
    DimNotDivisible,
    /// The per-head width is odd, so rotary pairs would straddle heads.
    OddHeadDim,
}

/// Failure to load a checkpoint.
#[derive(Debug, Clone, Copy, PartialEq, Eq, Structural)]
pub enum LoadError {
    /// The file could not be opened, read or mapped.
    Unreadable,
    /// Fewer bytes than a header holds.
    HeaderTruncated { len: usize },
    /// The header holds hyperparameters that no model can have.
    InvalidConfig(ConfigFault),
    /// The bytes after the header are not exactly the tensors the header describes.
    SizeMismatch { expected: u128, actual: u64 },
    /// The scratch buffers or the cache would not fit in the address space.
    StateTooLarge,
}

/// A step asked for outside the model's bounds.
#[derive(Debug, Clone, Copy, PartialEq, Eq, Structural)]
pub enum RangeError {
    /// `position` is not below `seq_len`: the cache has no slot for it.
    Position { position: usize, seq_len: usize },
    /// `token` is not below `vocab_size`.
    Token { token: usize, vocab_size: usize },
    /// `layer` is not below `n_layers`.
    Layer { layer: usize, n_layers: usize },
}

} // verus!
