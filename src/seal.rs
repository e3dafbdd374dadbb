//! Sealing and unsealing of a window: the key sequence, with the last key
//! layer combined with the window's data.
use vstd::prelude::*;
use crate::accelerator::{combine_entry, AcceleratorCall, NarrowStackedExpander};
use crate::key_generator::{generation_entry, generator_step, step, KeyGenerator};
use crate::types::{total_layers, Config, Layer, NSEError, NSEResult, Node, Sha256Domain};

verus! {

/// What a sealer or unsealer does with the outcome of a key generation step.
pub enum StepOutput {
    /// The sequence is done.
    Done,
    /// The key step failed with this error.
    Failed(NSEError),
    /// This key layer is returned as it is.
    Key(Layer),
    /// That was the last key layer: the data is combined with it.
    Combine(bool),
}

/// Decides on the outcome `key` of a key step, after which `remaining` steps
/// are left: every layer but the last is handed out, the last is combined.
pub fn after_key_step(key: Option<NSEResult<Layer>>, remaining: usize, is_decode: bool) -> (r: StepOutput)
    ensures
        r == (match key {
            None => StepOutput::Done,
            Some(Err(e)) => StepOutput::Failed(e),
            Some(Ok(l)) => if remaining == 0 {
                StepOutput::Combine(is_decode)
            } else {
                StepOutput::Key(l)
            },
        }),
{
    match key {
        None => StepOutput::Done,
        Some(Err(e)) => StepOutput::Failed(e),
        Some(Ok(l)) => {
            if remaining == 0 {
                StepOutput::Combine(is_decode)
            } else {
                StepOutput::Key(l)
            }
        },
    }
}

/// How one step of a sealer or unsealer with data `data` moves its key
/// generator from `pre` to `post` and its pending combine from `pre_pending`
/// to `post_pending`, with the result `r`.
///
/// With a combine pending, it only combines again. Otherwise it takes the
/// key generator's step; a key layer other than the last is returned as the
/// accelerator gave it, and after the last one the data is combined, with the
/// combine's result returned. A failed combine stays pending.
pub open spec fn seal_step<A: NarrowStackedExpander>(
    pre: KeyGenerator<A>,
    pre_pending: bool,
    post: KeyGenerator<A>,
    post_pending: bool,
    data: Seq<Node>,
    is_decode: bool,
    r: Option<NSEResult<Layer>>,
) -> bool {
    &&& post.wf()
    &&& post.spec_config() == pre.spec_config()
    &&& post.spec_replica_id() == pre.spec_replica_id()
    &&& post.spec_window_index() == pre.spec_window_index()
    &&& if pre_pending {
        &&& post.spec_index() == pre.spec_index()
        &&& r matches Some(c) && post.spec_calls() == pre.spec_calls().push(combine_entry(data, is_decode, c))
            && post_pending == c is Err
    } else if step(pre.spec_config(), pre.spec_index()) is None {
        &&& r is None
        &&& post.spec_index() == pre.spec_index()
        &&& post.spec_calls() == pre.spec_calls()
        &&& !post_pending
    } else {
        let n = pre.spec_calls().len();
        &&& post.spec_calls().len() > n
        &&& post.spec_calls()[n as int] matches AcceleratorCall::Generate { layer, .. } && post.spec_calls()[n as int]
            == generation_entry(pre, layer) && match layer {
            Err(e) => {
                &&& r == Some(Err::<Layer, NSEError>(e))
                &&& post.spec_calls() == pre.spec_calls().push(generation_entry(pre, layer))
                &&& post.spec_index() == pre.spec_index()
                &&& !post_pending
            },
            Ok(l) => {
                &&& post.spec_index() == pre.spec_index() + 1
                &&& if post.spec_index() < total_layers(pre.spec_config()) {
                    &&& r == Some(Ok::<Layer, NSEError>(l))
                    &&& post.spec_calls() == pre.spec_calls().push(generation_entry(pre, layer))
                    &&& !post_pending
                } else {
                    &&& r matches Some(c) && post.spec_calls() == pre.spec_calls().push(
                        generation_entry(pre, layer),
                    ).push(combine_entry(data, is_decode, c)) && post_pending == c is Err
                }
            },
        }
    }
}

/// From one state, a step of a sealer (or unsealer) and a step of a bare key
/// generator whose accelerators answer the generation call alike agree: both
/// end together, every item but the last is the same, and the last item of
/// the sealer is the combine of its data with the last key layer.
pub proof fn lemma_sealer_follows_key_generator<A: NarrowStackedExpander>(
    pre: KeyGenerator<A>,
    bare: KeyGenerator<A>,
    bare_r: Option<NSEResult<Layer>>,
    sealer: KeyGenerator<A>,
    sealer_pending: bool,
    data: Seq<Node>,
    is_decode: bool,
    r: Option<NSEResult<Layer>>,
)
    requires
        pre.wf(),
        generator_step(pre, bare, bare_r),
        seal_step(pre, false, sealer, sealer_pending, data, is_decode, r),
        bare_r is Some ==> sealer.spec_calls()[pre.spec_calls().len() as int] == bare.spec_calls()[pre.spec_calls().len() as int],
    ensures
        bare_r is None <==> r is None,
        pre.spec_index() + 1 < total_layers(pre.spec_config()) ==> r == bare_r,
        (bare_r matches Some(Err(_))) ==> r == bare_r,
        (bare_r matches Some(Ok(_))) && pre.spec_index() + 1 == total_layers(pre.spec_config()) ==> (
        r matches Some(c) && sealer.spec_calls().last() == combine_entry(data, is_decode, c)),
{
    let n = pre.spec_calls().len() as int;
    if bare_r is Some {
        assert(bare.spec_calls()[n] == generation_entry(pre, bare_r->0));
    }
}

/// One step of a sealer or unsealer.
fn seal_next<A: NarrowStackedExpander>(
    key_generator: &mut KeyGenerator<A>,
    pending: &mut bool,
    data: &Layer,
    is_decode: bool,
) -> (r: Option<NSEResult<Layer>>)
    requires
        old(key_generator).wf(),
        *old(pending) ==> old(key_generator).spec_index() == total_layers(old(key_generator).spec_config()),
    ensures
        seal_step(*old(key_generator), *old(pending), *final(key_generator), *final(pending), data.0@, is_decode, r),
        *final(pending) ==> final(key_generator).spec_index() == total_layers(final(key_generator).spec_config()),
{
    if *pending {
        let combined = key_generator.combine_layer(data, is_decode);
        *pending = combined.is_err();
        return Some(combined);
    }
    let key = key_generator.next();
    let remaining = key_generator.layers_remaining();
    match after_key_step(key, remaining, is_decode) {
        StepOutput::Done => None,
        StepOutput::Failed(e) => Some(Err(e)),
        StepOutput::Key(l) => Some(Ok(l)),
        StepOutput::Combine(decode) => {
            let combined = key_generator.combine_layer(data, decode);
            *pending = combined.is_err();
            Some(combined)
        },
    }
}

/// Encodes the data of one window.
pub struct Sealer<A: NarrowStackedExpander> {
    original_data: Layer,
    key_generator: KeyGenerator<A>,
    combine_pending: bool,
}

impl<A: NarrowStackedExpander> Sealer<A> {
    pub closed spec fn spec_key_generator(&self) -> KeyGenerator<A> {
        self.key_generator
    }

    /// The data to encode.
    pub closed spec fn spec_data(&self) -> Seq<Node> {
        self.original_data.0@
    }

    /// Whether the last key layer is made and its combine failed.
    pub closed spec fn spec_pending(&self) -> bool {
        self.combine_pending
    }

    pub open spec fn wf(&self) -> bool {
        &&& self.spec_key_generator().wf()
        &&& self.spec_pending() ==> self.spec_key_generator().spec_index() == total_layers(
            self.spec_key_generator().spec_config(),
        )
    }

    pub fn new(
        config: Config,
        replica_id: Sha256Domain,
        window_index: usize,
        original_data: Layer,
        gpu: A,
    ) -> (r: NSEResult<Self>)
        requires
            total_layers(config) <= usize::MAX,
        ensures
            match r {
                Ok(s) => {
                    &&& s.wf()
                    &&& s.spec_key_generator().is_fresh(config, replica_id, window_index)
                    &&& s.spec_key_generator().spec_calls() == gpu.calls().0
                    &&& s.spec_data() == original_data.0@
                    &&& !s.spec_pending()
                },
                Err(e) => e == (NSEError::ConfigMismatch {
                    num_nodes_window: config.num_nodes_window,
                    leaf_count: gpu.spec_leaf_count(),
                }),
            },
            r is Ok <==> config.num_nodes_window == gpu.spec_leaf_count(),
    {
        match KeyGenerator::new(config, replica_id, window_index, gpu) {
            Ok(key_generator) => Ok(Self { original_data, key_generator, combine_pending: false }),
            Err(e) => Err(e),
        }
    }

    /// Returns the layers of the window in order, from the mask layer to the
    /// sealed layer, which takes the place of the last key layer.
    pub fn next(&mut self) -> (r: Option<NSEResult<Layer>>)
        requires
            old(self).wf(),
        ensures
            final(self).wf(),
            final(self).spec_data() == old(self).spec_data(),
            seal_step(
                old(self).spec_key_generator(),
                old(self).spec_pending(),
                final(self).spec_key_generator(),
                final(self).spec_pending(),
                old(self).spec_data(),
                false,
                r,
            ),
    {
        seal_next(&mut self.key_generator, &mut self.combine_pending, &self.original_data, false)
    }

    pub fn len(&self) -> (r: usize)
        requires
            self.wf(),
        ensures
            r == total_layers(self.spec_key_generator().spec_config()),
    {
        self.key_generator.len()
    }
}

/// Decodes the sealed data of one window.
pub struct Unsealer<A: NarrowStackedExpander> {
    sealed_data: Layer,
    key_generator: KeyGenerator<A>,
    combine_pending: bool,
}

impl<A: NarrowStackedExpander> Unsealer<A> {
    pub closed spec fn spec_key_generator(&self) -> KeyGenerator<A> {
        self.key_generator
    }

    /// The data to decode.
    pub closed spec fn spec_data(&self) -> Seq<Node> {
        self.sealed_data.0@
    }

    /// Whether the last key layer is made and its combine failed.
    pub closed spec fn spec_pending(&self) -> bool {
        self.combine_pending
    }

    pub open spec fn wf(&self) -> bool {
        &&& self.spec_key_generator().wf()
        &&& self.spec_pending() ==> self.spec_key_generator().spec_index() == total_layers(
            self.spec_key_generator().spec_config(),
        )
    }

    pub fn new(
        config: Config,
        replica_id: Sha256Domain,
        window_index: usize,
        sealed_data: Layer,
        gpu: A,
    ) -> (r: NSEResult<Self>)
        requires
            total_layers(config) <= usize::MAX,
        ensures
            match r {
                Ok(s) => {
                    &&& s.wf()
                    &&& s.spec_key_generator().is_fresh(config, replica_id, window_index)
                    &&& s.spec_key_generator().spec_calls() == gpu.calls().0
                    &&& s.spec_data() == sealed_data.0@
                    &&& !s.spec_pending()
                },
                Err(e) => e == (NSEError::ConfigMismatch {
                    num_nodes_window: config.num_nodes_window,
                    leaf_count: gpu.spec_leaf_count(),
                }),
            },
            r is Ok <==> config.num_nodes_window == gpu.spec_leaf_count(),
    {
        match KeyGenerator::new(config, replica_id, window_index, gpu) {
            Ok(key_generator) => Ok(Self { sealed_data, key_generator, combine_pending: false }),
            Err(e) => Err(e),
        }
    }

    /// Returns the layers of the window in order, from the mask layer to the
    /// unsealed layer, which takes the place of the last key layer.
    pub fn next(&mut self) -> (r: Option<NSEResult<Layer>>)
        requires
            old(self).wf(),
        ensures
            final(self).wf(),
            final(self).spec_data() == old(self).spec_data(),
            seal_step(
                old(self).spec_key_generator(),
                old(self).spec_pending(),
                final(self).spec_key_generator(),
                final(self).spec_pending(),
                old(self).spec_data(),
                true,
                r,
            ),
    {
        seal_next(&mut self.key_generator, &mut self.combine_pending, &self.sealed_data, true)
    }

    pub fn len(&self) -> (r: usize)
        requires
            self.wf(),
        ensures
            r == total_layers(self.spec_key_generator().spec_config()),
    {
        self.key_generator.len()
    }
}

} // verus!
