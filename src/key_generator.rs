//! The state machine that drives an accelerator through a window's layers.
use vstd::prelude::*;
use crate::accelerator::{combine_entry, AcceleratorCall, NarrowStackedExpander};
use crate::types::{check_leaf_count, total_layers, Config, Layer, LayerRequest, NSEError, NSEResult, Sha256Domain};

verus! {

/// The call made by the step that brings the layer index to `index` (from 1).
pub open spec fn request_at(c: Config, index: nat) -> LayerRequest {
    if index == 1 {
        LayerRequest::Mask
    } else if index <= c.num_expander_layers {
        LayerRequest::Expander(index as usize)
    } else {
        LayerRequest::Butterfly(index as usize)
    }
}

/// The layer index after one step from `index`, or `None` once the sequence is done.
pub open spec fn step(c: Config, index: nat) -> Option<nat> {
    if index < total_layers(c) {
        Some(index + 1)
    } else {
        None
    }
}

/// The layer index after `n` successful steps from `index`, or `None` if the
/// sequence ends before that.
pub open spec fn run(c: Config, index: nat, n: nat) -> Option<nat>
    decreases n,
{
    if n == 0 {
        Some(index)
    } else {
        match step(c, index) {
            Some(j) => run(c, j, (n - 1) as nat),
            None => None,
        }
    }
}

/// The steps that are left from `index`.
pub open spec fn remaining(c: Config, index: nat) -> int {
    total_layers(c) - index
}

/// A fresh sequence succeeds at exactly `E + B` steps, one after another, and a
/// step once it is done signals the end again, however often it is taken.
pub proof fn lemma_sequence_length(c: Config)
    ensures
        run(c, 0, total_layers(c)) == Some(total_layers(c)),
        forall|n: nat| n > total_layers(c) ==> #[trigger] run(c, 0, n) is None,
        step(c, total_layers(c)) is None,
{
    lemma_run_from(c, 0);
}

proof fn lemma_run_from(c: Config, i: nat)
    requires
        i <= total_layers(c),
    ensures
        run(c, i, (total_layers(c) - i) as nat) == Some(total_layers(c)),
        forall|n: nat| n > total_layers(c) - i ==> #[trigger] run(c, i, n) is None,
    decreases total_layers(c) - i,
{
    if i < total_layers(c) {
        lemma_run_from(c, i + 1);
        assert forall|n: nat| n > total_layers(c) - i implies #[trigger] run(c, i, n) is None by {
            assert(run(c, i, n) == run(c, i + 1, (n - 1) as nat));
        }
    } else {
        assert forall|n: nat| n > total_layers(c) - i implies #[trigger] run(c, i, n) is None by {
            assert(step(c, i) is None);
        }
    }
}

/// The first step makes the mask layer; when there is a butterfly layer and
/// more than one step, the last step makes a butterfly layer.
pub proof fn lemma_first_mask_last_butterfly(c: Config)
    ensures
        total_layers(c) >= 1 ==> request_at(c, 1) == LayerRequest::Mask,
        c.num_butterfly_layers >= 1 && total_layers(c) >= 2 ==> request_at(c, total_layers(c))
            is Butterfly,
{
}

/// Each step lowers the remaining count by one, and the count is 0 exactly
/// when the sequence is done.
pub proof fn lemma_remaining_step(c: Config, i: nat)
    requires
        i <= total_layers(c),
    ensures
        remaining(c, i) >= 0,
        remaining(c, i) == 0 <==> step(c, i) is None,
        step(c, i) matches Some(j) ==> remaining(c, j) == remaining(c, i) - 1,
{
}

/// The call for the step that brings the layer index to `index`.
pub fn layer_request(config: &Config, index: usize) -> (r: LayerRequest)
    requires
        1 <= index,
    ensures
        r == request_at(*config, index as nat),
{
    if index == 1 {
        LayerRequest::Mask
    } else if index <= config.num_expander_layers {
        LayerRequest::Expander(index)
    } else {
        LayerRequest::Butterfly(index)
    }
}

/// How a step of the key generator moves it from `pre` to `post` with the
/// result `r`: while the sequence lasts, exactly one generation call, the one
/// that `request_at` names, whose result is returned as it came; the index one
/// further exactly when a layer came; once it is done, no call at all.
pub open spec fn generator_step<A: NarrowStackedExpander>(
    pre: KeyGenerator<A>,
    post: KeyGenerator<A>,
    r: Option<NSEResult<Layer>>,
) -> bool {
    &&& post.wf()
    &&& post.spec_config() == pre.spec_config()
    &&& post.spec_replica_id() == pre.spec_replica_id()
    &&& post.spec_window_index() == pre.spec_window_index()
    &&& (r is None <==> step(pre.spec_config(), pre.spec_index()) is None)
    &&& match r {
        Some(Ok(_)) => step(pre.spec_config(), pre.spec_index()) == Some(post.spec_index()),
        _ => post.spec_index() == pre.spec_index(),
    }
    &&& match r {
        None => post.spec_calls() == pre.spec_calls(),
        Some(layer) => post.spec_calls() == pre.spec_calls().push(generation_entry(pre, layer)),
    }
}

/// The log entry of the generation call for the next step of `g`, which returned `layer`.
pub open spec fn generation_entry<A: NarrowStackedExpander>(
    g: KeyGenerator<A>,
    layer: NSEResult<Layer>,
) -> AcceleratorCall {
    AcceleratorCall::Generate {
        replica_id: g.spec_replica_id(),
        window_index: g.spec_window_index(),
        request: request_at(g.spec_config(), g.spec_index() + 1),
        layer,
    }
}

/// A run of steps from a fresh generator in which every step brought a layer
/// is at most `E + B` steps long, and when it is that long the sequence is
/// done: the next step brings nothing, makes no call and leaves the state.
pub proof fn lemma_steps_of_fresh_generator<A: NarrowStackedExpander>(
    gs: Seq<KeyGenerator<A>>,
    rs: Seq<Option<NSEResult<Layer>>>,
)
    requires
        gs.len() == rs.len() + 1,
        gs[0].wf(),
        gs[0].spec_index() == 0,
        forall|i: int| 0 <= i < rs.len() ==> #[trigger] generator_step(gs[i], gs[i + 1], rs[i]),
        forall|i: int| 0 <= i < rs.len() ==> #[trigger] rs[i] matches Some(Ok(_)),
    ensures
        rs.len() <= total_layers(gs[0].spec_config()),
        gs.last().spec_index() == rs.len(),
        rs.len() == total_layers(gs[0].spec_config()) ==> step(gs[0].spec_config(), gs.last().spec_index())
            is None,
{
    lemma_step_prefix(gs, rs, rs.len() as int);
}

proof fn lemma_step_prefix<A: NarrowStackedExpander>(
    gs: Seq<KeyGenerator<A>>,
    rs: Seq<Option<NSEResult<Layer>>>,
    k: int,
)
    requires
        0 <= k <= rs.len(),
        gs.len() == rs.len() + 1,
        gs[0].wf(),
        gs[0].spec_index() == 0,
        forall|i: int| 0 <= i < rs.len() ==> #[trigger] generator_step(gs[i], gs[i + 1], rs[i]),
        forall|i: int| 0 <= i < rs.len() ==> #[trigger] rs[i] matches Some(Ok(_)),
    ensures
        gs[k].spec_index() == k,
        gs[k].spec_config() == gs[0].spec_config(),
        k <= total_layers(gs[0].spec_config()),
    decreases k,
{
    if k > 0 {
        lemma_step_prefix(gs, rs, k - 1);
        assert(generator_step(gs[k - 1], gs[k], rs[k - 1]));
        assert(rs[k - 1] matches Some(Ok(_)));
    }
}

/// Produces, one step at a time, the mask layer, the expander layers and the
/// butterfly layers of one window.
pub struct KeyGenerator<A: NarrowStackedExpander> {
    config: Config,
    replica_id: Sha256Domain,
    window_index: usize,
    current_layer_index: usize,
    gpu: A,
}

impl<A: NarrowStackedExpander> KeyGenerator<A> {
    pub closed spec fn spec_config(&self) -> Config {
        self.config
    }

    pub closed spec fn spec_replica_id(&self) -> Sha256Domain {
        self.replica_id
    }

    pub closed spec fn spec_window_index(&self) -> usize {
        self.window_index
    }

    /// The calls that the accelerator has served.
    pub closed spec fn spec_calls(&self) -> Seq<AcceleratorCall> {
        self.gpu.calls().0
    }

    /// The number of steps taken; 0 before any layer.
    pub closed spec fn spec_index(&self) -> nat {
        self.current_layer_index as nat
    }

    /// A generator for the window `window_index` of `replica_id` under
    /// `config`, before any step.
    pub open spec fn is_fresh(&self, config: Config, replica_id: Sha256Domain, window_index: usize) -> bool {
        &&& self.wf()
        &&& self.spec_config() == config
        &&& self.spec_replica_id() == replica_id
        &&& self.spec_window_index() == window_index
        &&& self.spec_index() == 0
    }

    pub open spec fn wf(&self) -> bool {
        &&& total_layers(self.spec_config()) <= usize::MAX
        &&& self.spec_index() <= total_layers(self.spec_config())
    }

    /// Takes `gpu` for the window `window_index` of `replica_id`, and fails if
    /// its leaf count differs from the configured window size.
    pub fn new(config: Config, replica_id: Sha256Domain, window_index: usize, gpu: A) -> (r: NSEResult<Self>)
        requires
            total_layers(config) <= usize::MAX,
        ensures
            match r {
                Ok(g) => g.is_fresh(config, replica_id, window_index) && g.spec_calls() == gpu.calls().0,
                Err(e) => e == (NSEError::ConfigMismatch {
                    num_nodes_window: config.num_nodes_window,
                    leaf_count: gpu.spec_leaf_count(),
                }),
            },
            r is Ok <==> config.num_nodes_window == gpu.spec_leaf_count(),
    {
        let leaf_count = gpu.leaf_count();
        match check_leaf_count(&config, leaf_count) {
            Ok(()) => Ok(Self { config, replica_id, window_index, current_layer_index: 0, gpu }),
            Err(e) => Err(e),
        }
    }

    pub fn config(&self) -> (r: Config)
        ensures
            r == self.spec_config(),
    {
        self.config
    }

    /// The total number of steps, whatever has been taken.
    pub fn len(&self) -> (r: usize)
        requires
            self.wf(),
        ensures
            r == total_layers(self.spec_config()),
    {
        self.config.num_expander_layers + self.config.num_butterfly_layers
    }

    pub fn layers_remaining(&self) -> (r: usize)
        requires
            self.wf(),
        ensures
            r == remaining(self.spec_config(), self.spec_index()),
    {
        self.len() - self.current_layer_index
    }

    /// The call that the next step will make, or `None` once the sequence is done.
    pub fn next_request(&self) -> (r: Option<LayerRequest>)
        requires
            self.wf(),
        ensures
            r == (match step(self.spec_config(), self.spec_index()) {
                Some(j) => Some(request_at(self.spec_config(), j)),
                None => None::<LayerRequest>,
            }),
    {
        if self.current_layer_index >= self.len() {
            None
        } else {
            Some(layer_request(&self.config, self.current_layer_index + 1))
        }
    }

    /// Takes the next step: makes the call of `next_request` and returns its
    /// layer, or `None` once the sequence is done. A failed call leaves the
    /// step to be taken again.
    pub fn next(&mut self) -> (r: Option<NSEResult<Layer>>)
        requires
            old(self).wf(),
        ensures
            generator_step(*old(self), *final(self), r),
    {
        let request = match self.next_request() {
            Some(request) => request,
            None => {
                return None;
            },
        };
        let produced = match request {
            LayerRequest::Mask => self.gpu.generate_mask_layer(self.replica_id, self.window_index),
            LayerRequest::Expander(index) => self.gpu.generate_expander_layer(
                self.replica_id,
                self.window_index,
                index,
            ),
            LayerRequest::Butterfly(index) => self.gpu.generate_butterfly_layer(
                self.replica_id,
                self.window_index,
                index,
            ),
        };
        match produced {
            Ok(layer) => {
                self.current_layer_index = self.current_layer_index + 1;
                Some(Ok(layer))
            },
            Err(e) => Some(Err(e)),
        }
    }

    /// Combines `layer` with the last key layer that the accelerator produced.
    pub fn combine_layer(&mut self, layer: &Layer, is_decode: bool) -> (r: NSEResult<Layer>)
        ensures
            final(self).spec_config() == old(self).spec_config(),
            final(self).spec_replica_id() == old(self).spec_replica_id(),
            final(self).spec_window_index() == old(self).spec_window_index(),
            final(self).spec_index() == old(self).spec_index(),
            final(self).spec_calls() == old(self).spec_calls().push(combine_entry(layer.0@, is_decode, r)),
    {
        self.gpu.combine_layer(layer, is_decode)
    }
}

} // verus!
