use vstd::prelude::*;

use crate::config::Config;
use crate::error::RangeError;

verus! {

/// Scratch buffers and key/value cache of one inference session, over an
/// element type `T` (32-bit floats in practice). Sized once from a
/// configuration; nothing here ever grows.
#[derive(Debug)]
pub struct RunState<T> {
    /// Current activation (dim).
    pub x: Vec<T>,
    /// Normalisation and attention output scratch (dim).
    pub xb: Vec<T>,
    /// Projection scratch (dim).
    pub xb2: Vec<T>,
    /// Feed-forward scratch (hidden_dim).
    pub hb: Vec<T>,
    /// Feed-forward gate scratch (hidden_dim).
    pub hb2: Vec<T>,
    /// Query (dim).
    pub q: Vec<T>,
    /// Key of this step (kv_dim).
    pub k: Vec<T>,
    /// Value of this step (kv_dim).
    pub v: Vec<T>,
    /// Attention scores (n_heads x seq_len).
    pub att: Vec<T>,
    /// Output logits (vocab_size).
    pub logits: Vec<T>,
    /// Keys of every layer and position (n_layers x seq_len x kv_dim).
    pub key_cache: Vec<T>,
    /// Values of every layer and position (n_layers x seq_len x kv_dim).
    pub value_cache: Vec<T>,
}

/// Elements of the attention score buffer.
pub open spec fn att_len(c: Config) -> int {
    c.n_heads * c.seq_len
}

/// Elements of the key cache, and of the value cache.
pub open spec fn cache_len(c: Config) -> int {
    c.n_layers * c.seq_len * c.kv_dim_spec()
}

/// Index in the cache of the first element of the slot for `(layer, pos)`.
pub open spec fn cache_slot(c: Config, layer: int, pos: int) -> int {
    (layer * c.seq_len + pos) * c.kv_dim_spec()
}

/// Position whose slot holds cache element `j`.
pub open spec fn cache_position(c: Config, j: int) -> int {
    (j / c.kv_dim_spec()) % (c.seq_len as int)
}

/// `cache` with `row` written over it from `start` on.
pub open spec fn overwritten<T>(cache: Seq<T>, start: int, row: Seq<T>) -> Seq<T> {
    Seq::new(
        cache.len(),
        |j: int|
            if start <= j < start + row.len() {
                row[j - start]
            } else {
                cache[j]
            },
    )
}

/// Buffers that fit in memory for configuration `c`.
pub open spec fn fits(c: Config) -> bool {
    &&& cache_len(c) <= usize::MAX
    &&& att_len(c) <= usize::MAX
}

/// Whether `position` has a cache slot, as a result.
pub fn check_position(c: &Config, position: usize) -> (r: Result<(), RangeError>)
    ensures
        r is Ok <==> position < c.seq_len,
        r is Err ==> r == Err::<(), RangeError>(
            RangeError::Position { position, seq_len: c.seq_len },
        ),
{
    if position < c.seq_len {
        Ok(())
    } else {
        Err(RangeError::Position { position, seq_len: c.seq_len })
    }
}

/// Whether `token` names a row of the embedding table, as a result.
pub fn check_token(c: &Config, token: usize) -> (r: Result<(), RangeError>)
    ensures
        r is Ok <==> token < c.vocab_size,
        r is Err ==> r == Err::<(), RangeError>(
            RangeError::Token { token, vocab_size: c.vocab_size },
        ),
{
    if token < c.vocab_size {
        Ok(())
    } else {
        Err(RangeError::Token { token, vocab_size: c.vocab_size })
    }
}

/// Checks the inputs of one forward step: the position first, then the token.
pub fn check_step(c: &Config, token: usize, position: usize) -> (r: Result<(), RangeError>)
    ensures
        r is Ok <==> position < c.seq_len && token < c.vocab_size,
        position >= c.seq_len ==> r == Err::<(), RangeError>(
            RangeError::Position { position, seq_len: c.seq_len },
        ),
        position < c.seq_len && token >= c.vocab_size ==> r == Err::<(), RangeError>(
            RangeError::Token { token, vocab_size: c.vocab_size },
        ),
{
    match check_position(c, position) {
        Ok(()) => check_token(c, token),
        Err(e) => Err(e),
    }
}

/// `n` copies of `value`.
pub open spec fn copies<T>(n: int, value: T) -> Seq<T> {
    Seq::new(n as nat, |_i: int| value)
}

/// `n` copies of `value`.
pub fn filled<T: Copy>(value: T, n: usize) -> (r: Vec<T>)
    ensures
        r@ == copies(n as int, value),
{
    let mut r: Vec<T> = Vec::with_capacity(n);
    let mut i: usize = 0;
    while i < n
        invariant
            i <= n,
            r@ == Seq::new(i as nat, |_i: int| value),
        decreases n - i,
    {
        r.push(value);
        i += 1;
        assert(r@ =~= Seq::new(i as nat, |_i: int| value));
    }
    r
}

/// Index of the first element of the cache slot for `(layer, pos)`; the slot
/// ends within the cache.
pub fn slot_offset(c: &Config, layer: usize, pos: usize) -> (r: usize)
    requires
        c.wf(),
        fits(*c),
        layer < c.n_layers,
        pos < c.seq_len,
    ensures
        r as int == cache_slot(*c, layer as int, pos as int),
        r + c.kv_dim_spec() <= cache_len(*c),
{
    let kv_dim = c.kv_dim();
    proof {
        lemma_slot_in_cache(
            layer as int,
            pos as int,
            c.n_layers as int,
            c.seq_len as int,
            kv_dim as int,
        );
    }
    (layer * c.seq_len + pos) * kv_dim
}

/// The slot of `(layer, pos)` ends within the cache of `n_layers` layers.
pub proof fn lemma_slot_in_cache(layer: int, pos: int, n_layers: int, seq_len: int, kv_dim: int)
    requires
        0 <= layer < n_layers,
        0 <= pos < seq_len,
        0 < kv_dim,
    ensures
        0 <= layer * seq_len + pos,
        (layer * seq_len + pos + 1) <= n_layers * seq_len,
        (layer * seq_len + pos) * kv_dim + kv_dim <= n_layers * seq_len * kv_dim,
        layer * seq_len <= layer * seq_len + pos <= (layer * seq_len + pos) * kv_dim,
        n_layers * seq_len <= n_layers * seq_len * kv_dim,
{
    assert(layer * seq_len + pos + 1 <= n_layers * seq_len) by (nonlinear_arith)
        requires
            0 <= layer < n_layers,
            0 <= pos < seq_len,
    ;
    assert((layer * seq_len + pos) * kv_dim + kv_dim <= n_layers * seq_len * kv_dim)
        by (nonlinear_arith)
        requires
            layer * seq_len + pos + 1 <= n_layers * seq_len,
            0 < kv_dim,
    ;
    assert(0 <= layer * seq_len + pos) by (nonlinear_arith)
        requires
            0 <= layer,
            0 <= pos,
            0 <= seq_len,
    ;
    assert(layer * seq_len + pos <= (layer * seq_len + pos) * kv_dim) by (nonlinear_arith)
        requires
            0 <= layer * seq_len + pos,
            0 < kv_dim,
    ;
    assert(n_layers * seq_len <= n_layers * seq_len * kv_dim) by (nonlinear_arith)
        requires
            0 < n_layers,
            0 < seq_len,
            0 < kv_dim,
    ;
}

/// Copies `row` into `cache` from `start` on.
fn write_row<T: Copy>(cache: &mut Vec<T>, start: usize, row: &Vec<T>)
    requires
        start + row@.len() <= old(cache)@.len(),
    ensures
        final(cache)@ == overwritten(old(cache)@, start as int, row@),
{
    let ghost orig = cache@;
    let n = cache.len();
    let mut i: usize = 0;
    while i < row.len()
        invariant
            n == orig.len(),
            start + row@.len() <= orig.len(),
            cache@.len() == orig.len(),
            i <= row@.len(),
            forall|j: int|
                0 <= j < orig.len() ==> #[trigger] cache@[j] == if start <= j < start + i {
                    row@[j - start]
                } else {
                    orig[j]
                },
        decreases row@.len() - i,
    {
        let val = row[i];
        cache.set(start + i, val);
        i += 1;
    }
    assert(cache@ =~= overwritten(orig, start as int, row@));
}

impl<T: Copy> RunState<T> {
    /// Every buffer has the length that configuration `c` calls for.
    pub open spec fn wf(&self, c: Config) -> bool {
        &&& self.x@.len() == c.dim
        &&& self.xb@.len() == c.dim
        &&& self.xb2@.len() == c.dim
        &&& self.hb@.len() == c.hidden_dim
        &&& self.hb2@.len() == c.hidden_dim
        &&& self.q@.len() == c.dim
        &&& self.k@.len() == c.kv_dim_spec()
        &&& self.v@.len() == c.kv_dim_spec()
        &&& self.att@.len() == att_len(c)
        &&& self.logits@.len() == c.vocab_size
        &&& self.key_cache@.len() == cache_len(c)
        &&& self.value_cache@.len() == cache_len(c)
    }

    /// Allocates every buffer for configuration `c`, each element `zero`.
    pub fn new(c: &Config, zero: T) -> (r: RunState<T>)
        requires
            c.wf(),
            fits(*c),
        ensures
            r.wf(*c),
            r.x@ == copies(c.dim as int, zero),
            r.xb@ == copies(c.dim as int, zero),
            r.xb2@ == copies(c.dim as int, zero),
            r.hb@ == copies(c.hidden_dim as int, zero),
            r.hb2@ == copies(c.hidden_dim as int, zero),
            r.q@ == copies(c.dim as int, zero),
            r.k@ == copies(c.kv_dim_spec(), zero),
            r.v@ == copies(c.kv_dim_spec(), zero),
            r.att@ == copies(att_len(*c), zero),
            r.logits@ == copies(c.vocab_size as int, zero),
            r.key_cache@ == copies(cache_len(*c), zero),
            r.value_cache@ == copies(cache_len(*c), zero),
    {
        let kv_dim = c.kv_dim();
        proof {
            lemma_slot_in_cache(0, 0, c.n_layers as int, c.seq_len as int, kv_dim as int);
        }
        let cache = c.n_layers * c.seq_len * kv_dim;
        RunState {
            x: filled(zero, c.dim),
            xb: filled(zero, c.dim),
            xb2: filled(zero, c.dim),
            hb: filled(zero, c.hidden_dim),
            hb2: filled(zero, c.hidden_dim),
            q: filled(zero, c.dim),
            k: filled(zero, kv_dim),
            v: filled(zero, kv_dim),
            att: filled(zero, c.n_heads * c.seq_len),
            logits: filled(zero, c.vocab_size),
            key_cache: filled(zero, cache),
            value_cache: filled(zero, cache),
        }
    }

    /// Stores this step's key and value vectors in the cache slot of
    /// `(layer, position)`, over whatever it held. A layer or position out of
    /// range is an error and leaves the state as it was.
    pub fn write_kv(&mut self, c: &Config, layer: usize, position: usize) -> (r: Result<
        (),
        RangeError,
    >)
        requires
            c.wf(),
            fits(*c),
            old(self).wf(*c),
        ensures
            r is Ok <==> layer < c.n_layers && position < c.seq_len,
            position >= c.seq_len ==> r == Err::<(), RangeError>(
                RangeError::Position { position, seq_len: c.seq_len },
            ),
            position < c.seq_len && layer >= c.n_layers ==> r == Err::<(), RangeError>(
                RangeError::Layer { layer, n_layers: c.n_layers },
            ),
            r is Err ==> *final(self) == *old(self),
            r is Ok ==> final(self).key_cache@ == overwritten(
                old(self).key_cache@,
                cache_slot(*c, layer as int, position as int),
                old(self).k@,
            ),
            r is Ok ==> final(self).value_cache@ == overwritten(
                old(self).value_cache@,
                cache_slot(*c, layer as int, position as int),
                old(self).v@,
            ),
            r is Ok ==> final(self).k == old(self).k && final(self).v == old(self).v,
            final(self).wf(*c),
    {
        if position >= c.seq_len {
            return Err(RangeError::Position { position, seq_len: c.seq_len });
        }
        if layer >= c.n_layers {
            return Err(RangeError::Layer { layer, n_layers: c.n_layers });
        }
        let start = slot_offset(c, layer, position);
        write_row(&mut self.key_cache, start, &self.k);
        write_row(&mut self.value_cache, start, &self.v);
        Ok(())
    }

    /// Sets to `zero` every cache element of positions `from_pos` and later,
    /// in every layer, so that a new sequence can reuse the state from there.
    pub fn reset_cache_from(&mut self, c: &Config, from_pos: usize, zero: T)
        requires
            c.wf(),
            fits(*c),
            old(self).wf(*c),
        ensures
            final(self).wf(*c),
            forall|j: int|
                0 <= j < cache_len(*c) ==> #[trigger] final(self).key_cache@[j] == if cache_position(
                    *c,
                    j,
                ) >= from_pos {
                    zero
                } else {
                    old(self).key_cache@[j]
                },
            forall|j: int|
                0 <= j < cache_len(*c) ==> #[trigger] final(self).value_cache@[j] == if cache_position(
                    *c,
                    j,
                ) >= from_pos {
                    zero
                } else {
                    old(self).value_cache@[j]
                },
            final(self).k == old(self).k,
            final(self).v == old(self).v,
    {
        let kv_dim = c.kv_dim();
        let len = self.key_cache.len();
        let ghost keys = self.key_cache@;
        let ghost values = self.value_cache@;
        let mut j: usize = 0;
        while j < len
            invariant
                kv_dim as int == c.kv_dim_spec(),
                kv_dim > 0,
                c.wf(),
                len == cache_len(*c),
                keys.len() == len,
                values.len() == len,
                self.wf(*c),
                j <= len,
                forall|i: int|
                    0 <= i < len ==> #[trigger] self.key_cache@[i] == if i < j && cache_position(
                        *c,
                        i,
                    ) >= from_pos {
                        zero
                    } else {
                        keys[i]
                    },
                forall|i: int|
                    0 <= i < len ==> #[trigger] self.value_cache@[i] == if i < j && cache_position(
                        *c,
                        i,
                    ) >= from_pos {
                        zero
                    } else {
                        values[i]
                    },
                self.k == old(self).k,
                self.v == old(self).v,
                keys == old(self).key_cache@,
                values == old(self).value_cache@,
                old(self).wf(*c),
            decreases len - j,
        {
            if (j / kv_dim) % c.seq_len >= from_pos {
                self.key_cache.set(j, zero);
                self.value_cache.set(j, zero);
            }
            j += 1;
        }
    }
}

/// Writing the same row twice at the same place leaves what one write leaves:
/// a repeated step overwrites its slot, it does not append.
pub proof fn lemma_overwrite_idempotent<T>(cache: Seq<T>, start: int, row: Seq<T>)
    ensures
        overwritten(overwritten(cache, start, row), start, row) == overwritten(cache, start, row),
        overwritten(cache, start, row).len() == cache.len(),
{
    assert(overwritten(overwritten(cache, start, row), start, row) =~= overwritten(
        cache,
        start,
        row,
    ));
}

} // verus!
