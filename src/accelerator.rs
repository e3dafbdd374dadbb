//! The operations that a backend offers to generate and combine layers.
use vstd::prelude::*;
use crate::types::{Config, Layer, LayerRequest, NSEError, NSEResult, Node, Sha256Domain};

verus! {

/// One call that a backend served, with what it returned.
pub enum AcceleratorCall {
    /// A generation call: `generate_mask_layer` for `LayerRequest::Mask`,
    /// `generate_expander_layer` and `generate_butterfly_layer` with the
    /// request's layer index for the others.
    Generate { replica_id: Sha256Domain, window_index: usize, request: LayerRequest, layer: NSEResult<Layer> },
    /// A `combine_segment` call.
    Combine { offset: usize, segment: Seq<Node>, is_decode: bool, nodes: NSEResult<Vec<Node>> },
}

/// The calls that a backend has served, oldest first.
pub struct CallLog(pub Seq<AcceleratorCall>);

/// The log entry of a combine of a whole layer `layer` that returned `r`.
pub open spec fn combine_entry(layer: Seq<Node>, is_decode: bool, r: NSEResult<Layer>) -> AcceleratorCall {
    AcceleratorCall::Combine {
        offset: 0,
        segment: layer,
        is_decode,
        nodes: match r {
            Ok(l) => Ok::<Vec<Node>, NSEError>(l.0),
            Err(e) => Err(e),
        },
    }
}

/// A backend that computes the layers of a window.
///
/// Expander and butterfly generation read the previous layer that the backend
/// holds from its last generation call, so these calls must come in sequence
/// order: the mask layer, then the expander layers, then the butterfly layers.
/// `calls` is the log of what the backend served; each operation adds its
/// own entry to it and nothing else.
pub trait NarrowStackedExpander: Sized {
    spec fn calls(&self) -> CallLog;

    /// The number of leaves per window that the backend serves.
    spec fn spec_leaf_count(&self) -> usize;

    fn new(config: Config) -> NSEResult<Self>;

    fn generate_mask_layer(&mut self, replica_id: Sha256Domain, window_index: usize) -> (r: NSEResult<Layer>)
        ensures
            final(self).calls().0 == old(self).calls().0.push(
                AcceleratorCall::Generate { replica_id, window_index, request: LayerRequest::Mask, layer: r },
            ),
    ;

    fn generate_expander_layer(
        &mut self,
        replica_id: Sha256Domain,
        window_index: usize,
        layer_index: usize,
    ) -> (r: NSEResult<Layer>)
        ensures
            final(self).calls().0 == old(self).calls().0.push(
                AcceleratorCall::Generate {
                    replica_id,
                    window_index,
                    request: LayerRequest::Expander(layer_index),
                    layer: r,
                },
            ),
    ;

    fn generate_butterfly_layer(
        &mut self,
        replica_id: Sha256Domain,
        window_index: usize,
        layer_index: usize,
    ) -> (r: NSEResult<Layer>)
        ensures
            final(self).calls().0 == old(self).calls().0.push(
                AcceleratorCall::Generate {
                    replica_id,
                    window_index,
                    request: LayerRequest::Butterfly(layer_index),
                    layer: r,
                },
            ),
    ;

    /// Combines a whole layer with the key layer held by the backend, in one
    /// call of `combine_segment`: it does not split the layer into batches of
    /// `combine_batch_size` nodes.
    fn combine_layer(&mut self, layer: &Layer, is_decode: bool) -> (r: NSEResult<Layer>)
        ensures
            final(self).calls().0 == old(self).calls().0.push(combine_entry(layer.0@, is_decode, r)),
    {
        match self.combine_segment(0, layer.0.as_slice(), is_decode) {
            Ok(nodes) => Ok(Layer(nodes)),
            Err(e) => Err(e),
        }
    }

    /// Combines the nodes of `segment`, which starts at `offset` in its layer,
    /// with the matching key nodes: encodes for `is_decode == false`, decodes
    /// otherwise.
    fn combine_segment(&mut self, offset: usize, segment: &[Node], is_decode: bool) -> (r: NSEResult<Vec<Node>>)
        ensures
            final(self).calls().0 == old(self).calls().0.push(
                AcceleratorCall::Combine { offset, segment: segment@, is_decode, nodes: r },
            ),
    ;

    fn combine_batch_size(&self) -> usize;

    fn leaf_count(&self) -> (r: usize)
        ensures
            r == self.spec_leaf_count(),
    ;
}

} // verus!
