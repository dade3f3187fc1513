use vstd::prelude::*;

use crate::config::Config;
use crate::layout::TensorRange;
use crate::state::{att_len, cache_len, cache_slot, fits, slot_offset};

verus! {

/// The key/value head that query head `h` reads: consecutive groups of
/// `n_heads / n_kv_heads` query heads share one.
pub open spec fn kv_head_spec(c: Config, h: int) -> int {
    h / c.group_spec()
}

/// Index in the cache of the first key (or value) element that query head `h`
/// reads at `(layer, pos)`.
pub open spec fn head_key_offset(c: Config, layer: int, pos: int, h: int) -> int {
    cache_slot(c, layer, pos) + kv_head_spec(c, h) * c.head_dim_spec()
}

/// The key/value head that query head `h` reads.
pub fn kv_head(c: &Config, h: usize) -> (r: usize)
    requires
        c.wf(),
        h < c.n_heads,
    ensures
        r as int == kv_head_spec(*c, h as int),
        r < c.n_kv_heads,
{
    let g = c.group();
    proof {
        let hh = h as int;
        let gg = g as int;
        let k = c.n_kv_heads as int;
        vstd::arithmetic::div_mod::lemma_fundamental_div_mod(hh, gg);
        assert(hh / gg < k) by (nonlinear_arith)
            requires
                hh == gg * (hh / gg) + hh % gg,
                0 <= hh % gg,
                hh < k * gg,
                gg > 0,
        ;
    }
    h / g
}

/// Index of the first query element of head `h`; the head ends within `q`.
pub fn query_offset(c: &Config, h: usize) -> (r: usize)
    requires
        c.wf(),
        h < c.n_heads,
    ensures
        r as int == h * c.head_dim_spec(),
        r + c.head_dim_spec() <= c.dim,
{
    let hd = c.head_dim();
    proof {
        vstd::arithmetic::div_mod::lemma_fundamental_div_mod(c.dim as int, c.n_heads as int);
        assert(h * hd + hd <= c.dim) by (nonlinear_arith)
            requires
                h < c.n_heads,
                c.dim as int == c.n_heads * hd,
        ;
    }
    h * hd
}

/// Index in the cache of the first key (or value) element that query head `h`
/// reads at `(layer, pos)`; the head's run ends within that slot.
pub fn key_offset(c: &Config, layer: usize, pos: usize, h: usize) -> (r: usize)
    requires
        c.wf(),
        fits(*c),
        layer < c.n_layers,
        pos < c.seq_len,
        h < c.n_heads,
    ensures
        r as int == head_key_offset(*c, layer as int, pos as int, h as int),
        cache_slot(*c, layer as int, pos as int) <= r,
        r + c.head_dim_spec() <= cache_slot(*c, layer as int, pos as int) + c.kv_dim_spec(),
        r + c.head_dim_spec() <= cache_len(*c),
{
    let slot = slot_offset(c, layer, pos);
    let kvh = kv_head(c, h);
    let hd = c.head_dim();
    let kv_dim = c.kv_dim();
    proof {
        assert(kvh * hd + hd <= kv_dim) by (nonlinear_arith)
            requires
                kvh < c.n_kv_heads,
                kv_dim as int == hd * c.n_kv_heads,
        ;
    }
    slot + kvh * hd
}

/// Index of the first attention score of head `h`; its row of `seq_len`
/// scores ends within the score buffer.
pub fn att_offset(c: &Config, h: usize) -> (r: usize)
    requires
        c.wf(),
        fits(*c),
        h < c.n_heads,
    ensures
        r as int == h * c.seq_len,
        r + c.seq_len <= att_len(*c),
{
    proof {
        assert(h * c.seq_len + c.seq_len <= c.n_heads * c.seq_len) by (nonlinear_arith)
            requires
                h < c.n_heads,
        ;
    }
    h * c.seq_len
}

impl TensorRange {
    /// Part `l` of `n_layers` equal parts: one layer of a per-layer tensor,
    /// or one row of a matrix.
    pub open spec fn part_spec(self, l: int, n_layers: int) -> TensorRange {
        let per = self.len / (n_layers as u64);
        TensorRange { start: (self.start + l * per) as u64, len: per }
    }

    /// Part `l` of `n_layers` equal parts: one layer of a per-layer tensor,
    /// or one row of a matrix. It lies within the tensor.
    pub fn part(&self, l: usize, n_layers: usize) -> (r: TensorRange)
        requires
            l < n_layers,
            self.len % (n_layers as u64) == 0,
            self.start + self.len <= u64::MAX,
        ensures
            r == self.part_spec(l as int, n_layers as int),
            self.start <= r.start,
            r.end() <= self.end(),
            r.len * n_layers == self.len,
    {
        let n = n_layers as u64;
        let per = self.len / n;
        proof {
            vstd::arithmetic::div_mod::lemma_fundamental_div_mod(self.len as int, n as int);
            assert(l * per + per <= self.len && per * n == self.len) by (nonlinear_arith)
                requires
                    l < n,
                    self.len == n * per + self.len % n,
                    self.len % n == 0,
                    per >= 0,
            ;
        }
        TensorRange { start: self.start + (l as u64) * per, len: per }
    }
}

/// With as many key/value heads as query heads, no head is shared: each query
/// head reads its own key/value head, at the same offset within the cache slot
/// as its query within `q`, and a cache slot is as wide as the model.
pub proof fn lemma_full_heads_are_multi_head(c: Config, layer: int, pos: int, h: int)
    requires
        c.wf(),
        c.n_kv_heads == c.n_heads,
        0 <= h < c.n_heads,
    ensures
        c.group_spec() == 1,
        kv_head_spec(c, h) == h,
        c.kv_dim_spec() == c.dim,
        head_key_offset(c, layer, pos, h) == cache_slot(c, layer, pos) + h * c.head_dim_spec(),
{
    vstd::arithmetic::div_mod::lemma_div_basics(c.n_heads as int);
    vstd::arithmetic::div_mod::lemma_div_basics(h);
    crate::config::lemma_kv_dim(c.dim as int, c.n_heads as int, c.n_kv_heads as int);
    vstd::arithmetic::div_mod::lemma_fundamental_div_mod(c.dim as int, c.n_heads as int);
}

} // verus!
