use vstd::prelude::*;

use crate::config::Config;
use crate::error::{LoadError, RangeError};
use crate::layout::WeightLayout;
use crate::loader::Checkpoint;
use crate::state::{check_step, fits, RunState};

verus! {

/// A loaded model: its configuration, where its tensors lie, and the state
/// that successive steps reuse.
pub struct Transformer<T> {
    pub config: Config,
    pub layout: WeightLayout,
    pub state: RunState<T>,
}

/// Whether the buffers of configuration `c` fit in memory.
pub fn state_fits(c: &Config) -> (r: bool)
    requires
        c.wf(),
    ensures
        r == fits(*c),
{
    let kv_dim = c.kv_dim() as u128;
    let l = c.n_layers as u128;
    let s = c.seq_len as u128;
    let h = c.n_heads as u128;
    proof {
        assert(l * s <= 0x4000_0000_0000_0000) by (nonlinear_arith)
            requires
                l <= 0x8000_0000,
                s <= 0x8000_0000,
        ;
        assert(l * s * kv_dim <= 0x4000_0000_0000_0000 * 0x8000_0000) by (nonlinear_arith)
            requires
                l * s <= 0x4000_0000_0000_0000,
                kv_dim <= 0x8000_0000,
        ;
        assert(h * s <= 0x4000_0000_0000_0000) by (nonlinear_arith)
            requires
                h <= 0x8000_0000,
                s <= 0x8000_0000,
        ;
    }
    l * s * kv_dim <= usize::MAX as u128 && h * s <= usize::MAX as u128
}

impl<T: Copy> Transformer<T> {
    /// Everything agrees with the configuration.
    pub open spec fn wf(&self) -> bool {
        &&& self.config.wf()
        &&& fits(self.config)
        &&& self.layout.matches(self.config)
        &&& self.state.wf(self.config)
    }

    /// Sets up a model for a loaded checkpoint, every buffer holding `zero`;
    /// fails when the buffers would not fit in memory.
    pub fn new(checkpoint: Checkpoint, zero: T) -> (r: Result<Transformer<T>, LoadError>)
        requires
            checkpoint.config.wf(),
            checkpoint.layout.matches(checkpoint.config),
        ensures
            r is Ok <==> fits(checkpoint.config),
            r is Err ==> r == Err::<Transformer<T>, LoadError>(LoadError::StateTooLarge),
            r is Ok ==> r->Ok_0.wf() && r->Ok_0.config == checkpoint.config
                && r->Ok_0.layout == checkpoint.layout,
    {
        if !state_fits(&checkpoint.config) {
            return Err(LoadError::StateTooLarge);
        }
        let state = RunState::new(&checkpoint.config, zero);
        Ok(Transformer { config: checkpoint.config, layout: checkpoint.layout, state })
    }

    /// The model's hyperparameters.
    pub fn config(&self) -> (r: Config)
        ensures
            r == self.config,
    {
        self.config
    }

    /// Where each tensor lies in the weight region.
    pub fn layout(&self) -> (r: WeightLayout)
        ensures
            r == self.layout,
    {
        self.layout
    }

    /// Checks the inputs of a step before any buffer is touched.
    pub fn check_step(&self, token: usize, position: usize) -> (r: Result<(), RangeError>)
        ensures
            r is Ok <==> position < self.config.seq_len && token
                < self.config.vocab_size,
            position >= self.config.seq_len ==> r == Err::<(), RangeError>(
                RangeError::Position { position, seq_len: self.config.seq_len },
            ),
    {
        check_step(&self.config, token, position)
    }
}

} // verus!
