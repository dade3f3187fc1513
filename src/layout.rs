use vstd::prelude::*;

use crate::config::Config;

verus! {

/// A run of 32-bit floats in the weight region, counted in elements from its start.
#[derive(Debug, Clone, Copy, PartialEq, Eq, Structural)]
pub struct TensorRange {
    pub start: u64,
    pub len: u64,
}

impl TensorRange {
    /// One past the last element.
    pub open spec fn end(self) -> int {
        self.start + self.len
    }

    /// The run of `len` elements that starts at `start`.
    pub open spec fn at(self, start: int, len: int) -> bool {
        self.start == start && self.len == len
    }
}

/// Where the classifier weights live.
#[derive(Debug, Clone, Copy, PartialEq, Eq, Structural)]
pub enum Classifier {
    /// A tensor of its own after the final norm weight.
    Owned(TensorRange),
    /// The same elements as the token embedding table.
    SharedWithEmbedding,
}

/// The position of every tensor of a checkpoint's weight region.
#[derive(Debug, Clone, Copy, PartialEq, Eq, Structural)]
pub struct WeightLayout {
    pub token_embedding_table: TensorRange,
    pub rms_att_weight: TensorRange,
    pub rms_ffn_weight: TensorRange,
    pub wq: TensorRange,
    pub wk: TensorRange,
    pub wv: TensorRange,
    pub wo: TensorRange,
    pub w1: TensorRange,
    pub w2: TensorRange,
    pub w3: TensorRange,
    pub rms_final_weight: TensorRange,
    pub classifier: Classifier,
}

/// Elements of the token embedding table: vocab_size x dim.
pub open spec fn embedding_elems(c: Config) -> int {
    c.vocab_size * c.dim
}

/// Elements of a per-layer norm weight: n_layers x dim.
pub open spec fn layer_norm_elems(c: Config) -> int {
    c.n_layers * c.dim
}

/// Elements of the query or output projection: n_layers x dim x dim.
pub open spec fn square_proj_elems(c: Config) -> int {
    c.n_layers * c.dim * c.dim
}

/// Elements of the key or value projection: n_layers x dim x kv_dim.
pub open spec fn kv_proj_elems(c: Config) -> int {
    c.n_layers * c.dim * c.kv_dim_spec()
}

/// Elements of one feed-forward matrix: n_layers x dim x hidden_dim.
pub open spec fn ffn_elems(c: Config) -> int {
    c.n_layers * c.dim * c.hidden_dim
}

/// Elements of the classifier when it has weights of its own.
pub open spec fn classifier_elems(c: Config) -> int {
    if c.shared_classifier {
        0
    } else {
        c.vocab_size * c.dim
    }
}

/// Number of 32-bit floats that follow the header.
pub open spec fn body_elems(c: Config) -> int {
    embedding_elems(c) + 2 * layer_norm_elems(c) + 2 * square_proj_elems(c) + 2 * kv_proj_elems(c)
        + 3 * ffn_elems(c) + c.dim + classifier_elems(c)
}

impl WeightLayout {
    /// The tensors lie back to back in their fixed order, sized from `c`.
    pub open spec fn matches(self, c: Config) -> bool {
        &&& self.token_embedding_table.at(0, embedding_elems(c))
        &&& self.rms_att_weight.at(self.token_embedding_table.end(), layer_norm_elems(c))
        &&& self.rms_ffn_weight.at(self.rms_att_weight.end(), layer_norm_elems(c))
        &&& self.wq.at(self.rms_ffn_weight.end(), square_proj_elems(c))
        &&& self.wk.at(self.wq.end(), kv_proj_elems(c))
        &&& self.wv.at(self.wk.end(), kv_proj_elems(c))
        &&& self.wo.at(self.wv.end(), square_proj_elems(c))
        &&& self.w1.at(self.wo.end(), ffn_elems(c))
        &&& self.w2.at(self.w1.end(), ffn_elems(c))
        &&& self.w3.at(self.w2.end(), ffn_elems(c))
        &&& self.rms_final_weight.at(self.w3.end(), c.dim as int)
        &&& if c.shared_classifier {
            self.classifier == Classifier::SharedWithEmbedding
        } else {
            self.classifier matches Classifier::Owned(r) && r.at(
                self.rms_final_weight.end(),
                classifier_elems(c),
            )
        }
    }

    /// The run of elements that the classifier reads.
    pub open spec fn classifier_spec(self) -> TensorRange {
        match self.classifier {
            Classifier::Owned(r) => r,
            Classifier::SharedWithEmbedding => self.token_embedding_table,
        }
    }

    /// Lays out the tensors of a model with configuration `c`.
    pub fn new(c: &Config) -> (r: WeightLayout)
        requires
            c.wf(),
            body_elems(*c) <= u64::MAX,
        ensures
            r.matches(*c),
    {
        let ghost g = *c;
        let kv_dim = c.kv_dim();
        let emb = mul2(c.vocab_size as u64, c.dim as u64);
        let norm = mul2(c.n_layers as u64, c.dim as u64);
        let sq = mul3(c.n_layers as u64, c.dim as u64, c.dim as u64);
        let kv = mul3(c.n_layers as u64, c.dim as u64, kv_dim as u64);
        let ffn = mul3(c.n_layers as u64, c.dim as u64, c.hidden_dim as u64);
        assert(emb + 2 * norm + 2 * sq + 2 * kv + 3 * ffn + c.dim <= body_elems(g));
        let token_embedding_table = TensorRange { start: 0, len: emb };
        let rms_att_weight = TensorRange { start: emb, len: norm };
        let rms_ffn_weight = TensorRange { start: emb + norm, len: norm };
        let wq = TensorRange { start: emb + 2 * norm, len: sq };
        let wk = TensorRange { start: wq.start + sq, len: kv };
        let wv = TensorRange { start: wk.start + kv, len: kv };
        let wo = TensorRange { start: wv.start + kv, len: sq };
        let w1 = TensorRange { start: wo.start + sq, len: ffn };
        let w2 = TensorRange { start: w1.start + ffn, len: ffn };
        let w3 = TensorRange { start: w2.start + ffn, len: ffn };
        let rms_final_weight = TensorRange { start: w3.start + ffn, len: c.dim as u64 };
        let classifier = if c.shared_classifier {
            Classifier::SharedWithEmbedding
        } else {
            Classifier::Owned(TensorRange { start: rms_final_weight.start + c.dim as u64, len: emb })
        };
        WeightLayout {
            token_embedding_table,
            rms_att_weight,
            rms_ffn_weight,
            wq,
            wk,
            wv,
            wo,
            w1,
            w2,
            w3,
            rms_final_weight,
            classifier,
        }
    }

    /// The run of elements that the classifier reads: the embedding table's
    /// own run when the two are shared.
    pub fn classifier_range(&self) -> (r: TensorRange)
        ensures
            r == self.classifier_spec(),
    {
        match self.classifier {
            Classifier::Owned(r) => r,
            Classifier::SharedWithEmbedding => self.token_embedding_table,
        }
    }
}

/// Multiplies two header-sized quantities.
fn mul2(a: u64, b: u64) -> (r: u64)
    requires
        a <= 0x8000_0000,
        b <= 0x8000_0000,
    ensures
        r == a * b,
{
    assert(a * b <= 0x8000_0000 * 0x8000_0000) by (nonlinear_arith)
        requires
            a <= 0x8000_0000,
            b <= 0x8000_0000,
    ;
    a * b
}

/// Multiplies three header-sized quantities; the product may not fit in 64 bits,
/// so the caller bounds it.
fn mul3(a: u64, b: u64, c: u64) -> (r: u64)
    requires
        a <= 0x8000_0000,
        b <= 0x8000_0000,
        a * b * c <= u64::MAX,
    ensures
        r == a * b * c,
{
    let ab = mul2(a, b);
    ab * c
}

/// The number of elements after the header, computed without overflow.
pub fn body_elem_count(c: &Config) -> (r: u128)
    requires
        c.wf(),
    ensures
        r == body_elems(*c),
        r <= 0x2_0000_0000_0000_0000_0000_0000,
{
    let kv_dim = c.kv_dim() as u128;
    let l = c.n_layers as u128;
    let d = c.dim as u128;
    let v = c.vocab_size as u128;
    let h = c.hidden_dim as u128;
    proof {
        lemma_bound3(l as int, d as int, d as int);
        lemma_bound3(l as int, d as int, kv_dim as int);
        lemma_bound3(l as int, d as int, h as int);
        lemma_bound3(1, v as int, d as int);
        lemma_bound3(1, l as int, d as int);
    }
    let emb = v * d;
    let cls: u128 = if c.shared_classifier {
        0
    } else {
        emb
    };
    emb + 2 * (l * d) + 2 * (l * d * d) + 2 * (l * d * kv_dim) + 3 * (l * d * h) + d + cls
}

/// A product of three header-sized quantities stays below 2^93.
proof fn lemma_bound3(a: int, b: int, c: int)
    requires
        0 <= a <= 0x8000_0000,
        0 <= b <= 0x8000_0000,
        0 <= c <= 0x8000_0000,
    ensures
        a * b <= 0x4000_0000_0000_0000,
        b * c <= 0x4000_0000_0000_0000,
        a * b * c <= 0x2000_0000_0000_0000_0000_0000,
{
    assert(a * b <= 0x8000_0000 * 0x8000_0000) by (nonlinear_arith)
        requires
            0 <= a <= 0x8000_0000,
            0 <= b <= 0x8000_0000,
    ;
    assert(b * c <= 0x8000_0000 * 0x8000_0000) by (nonlinear_arith)
        requires
            0 <= b <= 0x8000_0000,
            0 <= c <= 0x8000_0000,
    ;
    assert(a * b * c <= 0x4000_0000_0000_0000 * 0x8000_0000) by (nonlinear_arith)
        requires
            0 <= a * b <= 0x4000_0000_0000_0000,
            0 <= c <= 0x8000_0000,
    ;
}

/// When the header marks the classifier as shared, the classifier reads exactly
/// the elements of the token embedding table: the same run, not a copy.
pub proof fn lemma_shared_classifier_aliases_embedding(layout: WeightLayout, c: Config)
    requires
        layout.matches(c),
        c.shared_classifier,
    ensures
        layout.classifier_spec() == layout.token_embedding_table,
{
}

} // verus!
