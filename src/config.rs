use vstd::prelude::*;

use crate::error::{ConfigFault, LoadError};

verus! {

/// Number of bytes in a checkpoint header: seven 32-bit little-endian integers.
pub const HEADER_BYTES: usize = 28;

/// The signed 32-bit integer stored little-endian in `b[at..at + 4]`.
pub open spec fn le_i32(b: Seq<u8>, at: int) -> int {
    let u = b[at] as int + 256 * b[at + 1] as int + 65536 * b[at + 2] as int + 16777216
        * b[at + 3] as int;
    if u < 0x8000_0000 {
        u
    } else {
        u - 0x1_0000_0000
    }
}

/// The header fields exactly as stored on disk, in their on-disk order.
#[derive(Debug, Clone, Copy, PartialEq, Eq, Structural)]
pub struct RawHeader {
    pub dim: i32,
    pub hidden_dim: i32,
    pub n_layers: i32,
    pub n_heads: i32,
    pub n_kv_heads: i32,
    /// Negative when the classifier has weights of its own.
    pub vocab_size: i32,
    pub seq_len: i32,
}

/// Model hyperparameters, validated.
#[derive(Debug, Clone, Copy, PartialEq, Eq, Structural)]
pub struct Config {
    pub dim: usize,
    pub hidden_dim: usize,
    pub n_layers: usize,
    pub n_heads: usize,
    pub n_kv_heads: usize,
    pub vocab_size: usize,
    pub seq_len: usize,
    /// The classifier reuses the token embedding table.
    pub shared_classifier: bool,
}

/// Reads the signed 32-bit little-endian integer at `bytes[at..at + 4]`.
pub fn read_i32_le(bytes: &[u8], at: usize) -> (r: i32)
    requires
        at + 4 <= bytes@.len(),
    ensures
        r as int == le_i32(bytes@, at as int),
{
    let b0 = bytes[at] as u32;
    let b1 = bytes[at + 1] as u32;
    let b2 = bytes[at + 2] as u32;
    let b3 = bytes[at + 3] as u32;
    assert(b0 + 256 * b1 + 65536 * b2 + 16777216 * b3 <= 0xffff_ffff) by (nonlinear_arith)
        requires
            b0 <= 255,
            b1 <= 255,
            b2 <= 255,
            b3 <= 255,
    ;
    let u: u32 = b0 + 256 * b1 + 65536 * b2 + 16777216 * b3;
    if u < 0x8000_0000 {
        u as i32
    } else {
        let low: u32 = u - 0x8000_0000;
        (low as i32) - 0x7fff_ffff - 1
    }
}

/// The header held by the first bytes of `b`.
pub open spec fn header_of(b: Seq<u8>) -> RawHeader {
    RawHeader {
        dim: le_i32(b, 0) as i32,
        hidden_dim: le_i32(b, 4) as i32,
        n_layers: le_i32(b, 8) as i32,
        n_heads: le_i32(b, 12) as i32,
        n_kv_heads: le_i32(b, 16) as i32,
        vocab_size: le_i32(b, 20) as i32,
        seq_len: le_i32(b, 24) as i32,
    }
}

impl RawHeader {

    /// Decodes the fixed-layout header at the start of `bytes`.
    pub fn decode(bytes: &[u8]) -> (r: Result<RawHeader, LoadError>)
        ensures
            bytes@.len() < HEADER_BYTES ==> r == Err::<RawHeader, LoadError>(
                LoadError::HeaderTruncated { len: bytes@.len() as usize },
            ),
            bytes@.len() >= HEADER_BYTES ==> r == Ok::<RawHeader, LoadError>(header_of(bytes@)),
    {
        if bytes.len() < HEADER_BYTES {
            return Err(LoadError::HeaderTruncated { len: bytes.len() });
        }
        Ok(
            RawHeader {
                dim: read_i32_le(bytes, 0),
                hidden_dim: read_i32_le(bytes, 4),
                n_layers: read_i32_le(bytes, 8),
                n_heads: read_i32_le(bytes, 12),
                n_kv_heads: read_i32_le(bytes, 16),
                vocab_size: read_i32_le(bytes, 20),
                seq_len: read_i32_le(bytes, 24),
            },
        )
    }

    /// The first rule that these hyperparameters break, if any.
    pub open spec fn fault(self) -> Option<ConfigFault> {
        if self.dim <= 0 || self.hidden_dim <= 0 || self.n_layers <= 0 || self.n_heads <= 0
            || self.n_kv_heads <= 0 || self.seq_len <= 0 {
            Some(ConfigFault::NotPositive)
        } else if self.vocab_size == 0 {
            Some(ConfigFault::EmptyVocabulary)
        } else if self.n_kv_heads > self.n_heads {
            Some(ConfigFault::KvHeadsExceedHeads)
        } else if self.n_heads % self.n_kv_heads != 0 {
            Some(ConfigFault::HeadsNotGrouped)
        } else if self.dim % self.n_heads != 0 {
            Some(ConfigFault::DimNotDivisible)
        } else if (self.dim / self.n_heads) % 2 != 0 {
            Some(ConfigFault::OddHeadDim)
        } else {
            None
        }
    }

    /// |vocab_size|, the number of rows of the embedding table.
    pub open spec fn vocab_abs(self) -> int {
        if self.vocab_size < 0 {
            -(self.vocab_size as int)
        } else {
            self.vocab_size as int
        }
    }

    /// The configuration these hyperparameters stand for.
    pub open spec fn to_config(self) -> Config {
        Config {
            dim: self.dim as usize,
            hidden_dim: self.hidden_dim as usize,
            n_layers: self.n_layers as usize,
            n_heads: self.n_heads as usize,
            n_kv_heads: self.n_kv_heads as usize,
            vocab_size: self.vocab_abs() as usize,
            seq_len: self.seq_len as usize,
            shared_classifier: self.vocab_size > 0,
        }
    }
}

impl Config {
    /// Hyperparameters that a model can have; every field fits a 32-bit header.
    pub open spec fn wf(self) -> bool {
        &&& 0 < self.dim <= i32::MAX
        &&& 0 < self.hidden_dim <= i32::MAX
        &&& 0 < self.n_layers <= i32::MAX
        &&& 0 < self.n_kv_heads <= self.n_heads <= i32::MAX
        &&& 0 < self.vocab_size <= 0x8000_0000
        &&& 0 < self.seq_len <= i32::MAX
        &&& self.n_heads % self.n_kv_heads == 0
        &&& self.dim % self.n_heads == 0
        &&& (self.dim / self.n_heads) % 2 == 0
    }

    /// Width of one attention head.
    pub open spec fn head_dim_spec(self) -> int {
        self.dim as int / self.n_heads as int
    }

    /// Width of the key and value vectors: dim * n_kv_heads / n_heads.
    pub open spec fn kv_dim_spec(self) -> int {
        (self.dim * self.n_kv_heads) as int / self.n_heads as int
    }

    /// Number of query heads that share one key/value head.
    pub open spec fn group_spec(self) -> int {
        self.n_heads as int / self.n_kv_heads as int
    }

    /// Validates raw header fields and turns them into a configuration.
    pub fn from_header(h: RawHeader) -> (r: Result<Config, LoadError>)
        ensures
            h.fault() is None ==> r == Ok::<Config, LoadError>(h.to_config()) && h.to_config().wf(),
            h.fault() is Some ==> r == Err::<Config, LoadError>(
                LoadError::InvalidConfig(h.fault()->Some_0),
            ),
    {
        if h.dim <= 0 || h.hidden_dim <= 0 || h.n_layers <= 0 || h.n_heads <= 0 || h.n_kv_heads
            <= 0 || h.seq_len <= 0 {
            return Err(LoadError::InvalidConfig(ConfigFault::NotPositive));
        }
        if h.vocab_size == 0 {
            return Err(LoadError::InvalidConfig(ConfigFault::EmptyVocabulary));
        }
        if h.n_kv_heads > h.n_heads {
            return Err(LoadError::InvalidConfig(ConfigFault::KvHeadsExceedHeads));
        }
        if h.n_heads % h.n_kv_heads != 0 {
            return Err(LoadError::InvalidConfig(ConfigFault::HeadsNotGrouped));
        }
        if h.dim % h.n_heads != 0 {
            return Err(LoadError::InvalidConfig(ConfigFault::DimNotDivisible));
        }
        if (h.dim / h.n_heads) % 2 != 0 {
            return Err(LoadError::InvalidConfig(ConfigFault::OddHeadDim));
        }
        let vocab_size: usize = if h.vocab_size < 0 {
            let wide: i64 = h.vocab_size as i64;
            (-wide) as usize
        } else {
            h.vocab_size as usize
        };
        Ok(
            Config {
                dim: h.dim as usize,
                hidden_dim: h.hidden_dim as usize,
                n_layers: h.n_layers as usize,
                n_heads: h.n_heads as usize,
                n_kv_heads: h.n_kv_heads as usize,
                vocab_size,
                seq_len: h.seq_len as usize,
                shared_classifier: h.vocab_size > 0,
            },
        )
    }

    /// Width of one attention head.
    pub fn head_dim(&self) -> (r: usize)
        requires
            self.wf(),
        ensures
            r as int == self.head_dim_spec(),
            r > 0,
    {
        proof {
            lemma_kv_dim(self.dim as int, self.n_heads as int, self.n_kv_heads as int);
        }
        self.dim / self.n_heads
    }

    /// Width of the key and value vectors.
    pub fn kv_dim(&self) -> (r: usize)
        requires
            self.wf(),
        ensures
            r as int == self.kv_dim_spec(),
            0 < r <= self.dim,
            r as int == self.head_dim_spec() * self.n_kv_heads,
    {
        let hd = self.dim / self.n_heads;
        proof {
            lemma_kv_dim(self.dim as int, self.n_heads as int, self.n_kv_heads as int);
        }
        hd * self.n_kv_heads
    }

    /// Number of query heads that share one key/value head.
    pub fn group(&self) -> (r: usize)
        requires
            self.wf(),
        ensures
            r as int == self.group_spec(),
            r > 0,
            r * self.n_kv_heads == self.n_heads,
    {
        let g = self.n_heads / self.n_kv_heads;
        proof {
            let n = self.n_heads as int;
            let k = self.n_kv_heads as int;
            vstd::arithmetic::div_mod::lemma_fundamental_div_mod(n, k);
            assert(g * k == n && g > 0) by (nonlinear_arith)
                requires
                    n == k * (n / k) + n % k,
                    n % k == 0,
                    g == n / k,
                    n > 0,
                    k > 0,
            ;
        }
        g
    }
}

/// With dim = head_dim * n_heads, dim * n_kv_heads / n_heads = head_dim * n_kv_heads,
/// which lies between 1 and dim.
pub proof fn lemma_kv_dim(dim: int, n_heads: int, n_kv_heads: int)
    requires
        0 < dim,
        0 < n_kv_heads <= n_heads,
        dim % n_heads == 0,
    ensures
        (dim * n_kv_heads) / n_heads == (dim / n_heads) * n_kv_heads,
        0 < (dim / n_heads) * n_kv_heads <= dim,
        dim / n_heads > 0,
{
    let hd = dim / n_heads;
    vstd::arithmetic::div_mod::lemma_fundamental_div_mod(dim, n_heads);
    assert(dim == hd * n_heads);
    assert(dim * n_kv_heads == (hd * n_kv_heads) * n_heads) by (nonlinear_arith)
        requires
            dim == hd * n_heads,
    ;
    vstd::arithmetic::div_mod::lemma_div_multiples_vanish(hd * n_kv_heads, n_heads);
    assert(hd > 0) by (nonlinear_arith)
        requires
            dim == hd * n_heads,
            dim > 0,
            n_heads > 0,
    ;
    assert(0 < hd * n_kv_heads <= dim) by (nonlinear_arith)
        requires
            dim == hd * n_heads,
            hd > 0,
            0 < n_kv_heads <= n_heads,
    ;
}

} // verus!
