use std::cell::RefCell;
use std::rc::Rc;

use fff::{Field, PrimeField};
use nse_gpu::accelerator::{CallLog, NarrowStackedExpander};
use nse_gpu::key_generator::{layer_request, KeyGenerator};
use nse_gpu::seal::{Sealer, Unsealer};
use nse_gpu::types::{check_leaf_count, Config, Layer, LayerRequest, NSEError, NSEResult, Node, Sha256Domain};
use paired::bls12_381::{Fr, FrRepr};

fn fr(x: u64) -> Fr {
    Fr::from_repr(FrRepr::from(x)).unwrap()
}

#[derive(Default)]
struct Shared {
    calls: Vec<String>,
    fail_next: bool,
    fail_combine: bool,
}

/// A deterministic stand-in for an accelerator: each layer is the previous
/// one plus a value derived from the call's arguments.
struct MockGpu {
    leaves: usize,
    previous: Vec<Node>,
    shared: Rc<RefCell<Shared>>,
}

impl MockGpu {
    fn with_leaves(leaves: usize) -> (MockGpu, Rc<RefCell<Shared>>) {
        let shared = Rc::new(RefCell::new(Shared::default()));
        let gpu = MockGpu { leaves, previous: Vec::new(), shared: shared.clone() };
        (gpu, shared)
    }

    fn produce(&mut self, call: String, seed: u64) -> NSEResult<Layer> {
        let mut shared = self.shared.borrow_mut();
        if shared.fail_next {
            shared.fail_next = false;
            return Err(NSEError::AcceleratorExecution("device fault".to_string()));
        }
        shared.calls.push(call);
        let mut nodes = Vec::new();
        for i in 0..self.leaves {
            let mut v = if self.previous.len() == self.leaves { self.previous[i].0 } else { Fr::zero() };
            v.add_assign(&fr(seed * 100 + i as u64 + 1));
            nodes.push(Node(v));
        }
        self.previous = nodes.clone();
        Ok(Layer(nodes))
    }
}

impl NarrowStackedExpander for MockGpu {
    /// The log exists in proofs only and is never called at run time.
    fn calls(&self) -> CallLog {
        panic!("the call log is a proof model")
    }

    /// Exists in proofs only and is never called at run time.
    fn spec_leaf_count(&self) -> usize {
        panic!("the leaf count model is a proof model")
    }

    fn new(config: Config) -> NSEResult<Self> {
        Ok(MockGpu::with_leaves(config.num_nodes_window).0)
    }

    fn generate_mask_layer(&mut self, replica_id: Sha256Domain, window_index: usize) -> NSEResult<Layer> {
        self.previous = Vec::new();
        let seed = replica_id.0[0] as u64 * 1000 + window_index as u64 * 10;
        self.produce("mask".to_string(), seed)
    }

    fn generate_expander_layer(
        &mut self,
        _replica_id: Sha256Domain,
        _window_index: usize,
        layer_index: usize,
    ) -> NSEResult<Layer> {
        self.produce(format!("expander {}", layer_index), layer_index as u64 + 7)
    }

    fn generate_butterfly_layer(
        &mut self,
        _replica_id: Sha256Domain,
        _window_index: usize,
        layer_index: usize,
    ) -> NSEResult<Layer> {
        self.produce(format!("butterfly {}", layer_index), layer_index as u64 + 13)
    }

    fn combine_segment(&mut self, offset: usize, segment: &[Node], is_decode: bool) -> NSEResult<Vec<Node>> {
        let mut shared = self.shared.borrow_mut();
        if shared.fail_combine {
            shared.fail_combine = false;
            return Err(NSEError::AcceleratorExecution("combine fault".to_string()));
        }
        shared.calls.push(format!("combine {} {}", offset, is_decode));
        let mut out = Vec::new();
        for (i, node) in segment.iter().enumerate() {
            let mut v = node.0;
            if is_decode {
                v.sub_assign(&self.previous[offset + i].0);
            } else {
                v.add_assign(&self.previous[offset + i].0);
            }
            out.push(Node(v));
        }
        Ok(out)
    }

    fn combine_batch_size(&self) -> usize {
        nse_gpu::types::COMBINE_BATCH_SIZE
    }

    fn leaf_count(&self) -> usize {
        self.leaves
    }
}

fn small_config() -> Config {
    Config {
        k: 1,
        num_nodes_window: 4,
        degree_expander: 2,
        degree_butterfly: 2,
        num_expander_layers: 2,
        num_butterfly_layers: 2,
    }
}

fn config_with(e: usize, b: usize) -> Config {
    Config { num_expander_layers: e, num_butterfly_layers: b, ..small_config() }
}

fn replica() -> Sha256Domain {
    let mut id = [0u8; 32];
    id[0] = 3;
    Sha256Domain(id)
}

fn data_layer() -> Layer {
    Layer(vec![Node(fr(11)), Node(fr(22)), Node(fr(33)), Node(fr(44))])
}

#[test]
fn fresh_generator_yields_exactly_total_then_stays_done() {
    for (e, b) in [(2usize, 2usize), (8, 7), (1, 0), (0, 3), (0, 0)] {
        let (gpu, _) = MockGpu::with_leaves(4);
        let mut g = KeyGenerator::new(config_with(e, b), replica(), 0, gpu).unwrap();
        let mut count = 0;
        while let Some(layer) = g.next() {
            assert_eq!(layer.unwrap().0.len(), 4);
            count += 1;
        }
        assert_eq!(count, e + b);
        assert!(g.next().is_none());
        assert!(g.next().is_none());
        assert_eq!(g.layers_remaining(), 0);
    }
}

#[test]
fn first_is_mask_and_last_is_butterfly() {
    let (gpu, shared) = MockGpu::with_leaves(4);
    let mut g = KeyGenerator::new(config_with(3, 2), replica(), 5, gpu).unwrap();
    assert_eq!(g.next_request(), Some(LayerRequest::Mask));
    while g.next().is_some() {}
    assert_eq!(g.next_request(), None);
    let calls = shared.borrow().calls.clone();
    assert_eq!(calls, vec!["mask", "expander 2", "expander 3", "butterfly 4", "butterfly 5"]);
}

#[test]
fn layer_request_dispatch() {
    let c = config_with(3, 2);
    assert_eq!(layer_request(&c, 1), LayerRequest::Mask);
    assert_eq!(layer_request(&c, 2), LayerRequest::Expander(2));
    assert_eq!(layer_request(&c, 3), LayerRequest::Expander(3));
    assert_eq!(layer_request(&c, 4), LayerRequest::Butterfly(4));
    assert_eq!(layer_request(&c, 5), LayerRequest::Butterfly(5));
}

#[test]
fn layers_remaining_counts_down() {
    let (gpu, _) = MockGpu::with_leaves(4);
    let mut g = KeyGenerator::new(small_config(), replica(), 0, gpu).unwrap();
    let mut expected = 4;
    assert_eq!(g.layers_remaining(), expected);
    while g.next().is_some() {
        expected -= 1;
        assert_eq!(g.layers_remaining(), expected);
    }
    assert_eq!(expected, 0);
}

#[test]
fn concrete_scenario_len_reflects_totals() {
    let (gpu, _) = MockGpu::with_leaves(4);
    let mut g = KeyGenerator::new(small_config(), replica(), 0, gpu).unwrap();
    assert_eq!(g.len(), 4);
    assert!(g.next().is_some());
    assert_eq!(g.len(), 4);
    let mut rest = 0;
    while g.next().is_some() {
        rest += 1;
    }
    assert_eq!(rest + 1, 4);
    assert_eq!(g.len(), 4);
    assert_eq!(g.config().num_expander_layers, 2);
}

#[test]
fn failed_step_can_be_taken_again() {
    let (gpu, shared) = MockGpu::with_leaves(4);
    let mut g = KeyGenerator::new(small_config(), replica(), 0, gpu).unwrap();
    assert!(g.next().unwrap().is_ok());
    shared.borrow_mut().fail_next = true;
    match g.next() {
        Some(Err(NSEError::AcceleratorExecution(_))) => {}
        _ => panic!("expected an execution error"),
    }
    assert_eq!(g.layers_remaining(), 3);
    assert_eq!(g.next_request(), Some(LayerRequest::Expander(2)));
    assert!(g.next().unwrap().is_ok());
    assert_eq!(g.layers_remaining(), 2);
}

#[test]
fn mismatched_leaf_count_fails_construction() {
    let config = Config { num_nodes_window: 1024, ..small_config() };
    let (gpu, shared) = MockGpu::with_leaves(512);
    match KeyGenerator::new(config, replica(), 0, gpu) {
        Err(e) => assert_eq!(e, NSEError::ConfigMismatch { num_nodes_window: 1024, leaf_count: 512 }),
        Ok(_) => panic!("construction must fail"),
    }
    assert!(shared.borrow().calls.is_empty());
    let (gpu, _) = MockGpu::with_leaves(512);
    assert!(Sealer::new(config, replica(), 0, data_layer(), gpu).is_err());
    let (gpu, _) = MockGpu::with_leaves(512);
    assert!(Unsealer::new(config, replica(), 0, data_layer(), gpu).is_err());
}

#[test]
fn check_leaf_count_cases() {
    let c = small_config();
    assert_eq!(check_leaf_count(&c, 4), Ok(()));
    assert_eq!(check_leaf_count(&c, 5), Err(NSEError::ConfigMismatch { num_nodes_window: 4, leaf_count: 5 }));
}

fn collect<F: FnMut() -> Option<NSEResult<Layer>>>(mut step: F) -> Vec<Vec<Node>> {
    let mut out = Vec::new();
    while let Some(layer) = step() {
        out.push(layer.unwrap().0);
    }
    out
}

#[test]
fn sealer_matches_key_generator_but_for_the_last_layer() {
    let (gpu, _) = MockGpu::with_leaves(4);
    let mut g = KeyGenerator::new(small_config(), replica(), 1, gpu).unwrap();
    let keys = collect(|| g.next());
    let (gpu, shared) = MockGpu::with_leaves(4);
    let mut s = Sealer::new(small_config(), replica(), 1, data_layer(), gpu).unwrap();
    assert_eq!(s.len(), 4);
    let sealed = collect(|| s.next());
    assert_eq!(sealed.len(), 4);
    assert_eq!(&sealed[..3], &keys[..3]);
    let data = data_layer().0;
    for i in 0..4 {
        let mut v = data[i].0;
        v.add_assign(&keys[3][i].0);
        assert_eq!(sealed[3][i], Node(v));
    }
    assert_eq!(shared.borrow().calls.last().unwrap(), "combine 0 false");
    assert!(s.next().is_none());
}

#[test]
fn unsealing_recovers_sealed_data() {
    let (gpu, _) = MockGpu::with_leaves(4);
    let mut s = Sealer::new(small_config(), replica(), 2, data_layer(), gpu).unwrap();
    let sealed = collect(|| s.next()).pop().unwrap();
    assert_ne!(sealed, data_layer().0);
    let (gpu, shared) = MockGpu::with_leaves(4);
    let mut u = Unsealer::new(small_config(), replica(), 2, Layer(sealed), gpu).unwrap();
    assert_eq!(u.len(), 4);
    let unsealed = collect(|| u.next()).pop().unwrap();
    assert_eq!(unsealed, data_layer().0);
    assert_eq!(shared.borrow().calls.last().unwrap(), "combine 0 true");
}

#[test]
fn node_and_domain_defaults() {
    assert_eq!(Node::default(), Node(Fr::zero()));
    assert_ne!(Node::default(), Node(Fr::one()));
    assert_eq!(Sha256Domain::default(), Sha256Domain([0u8; 32]));
}

#[test]
fn failed_combine_can_be_taken_again() {
    let (gpu, _) = MockGpu::with_leaves(4);
    let mut g = KeyGenerator::new(small_config(), replica(), 1, gpu).unwrap();
    let keys = collect(|| g.next());
    let (gpu, shared) = MockGpu::with_leaves(4);
    let mut s = Sealer::new(small_config(), replica(), 1, data_layer(), gpu).unwrap();
    for _ in 0..3 {
        assert!(s.next().unwrap().is_ok());
    }
    shared.borrow_mut().fail_combine = true;
    let calls_before = shared.borrow().calls.len();
    match s.next() {
        Some(Err(NSEError::AcceleratorExecution(_))) => {}
        _ => panic!("expected the combine to fail"),
    }
    assert_eq!(shared.borrow().calls.len(), calls_before + 1);
    let sealed = s.next().unwrap().unwrap().0;
    let data = data_layer().0;
    for i in 0..4 {
        let mut v = data[i].0;
        v.add_assign(&keys[3][i].0);
        assert_eq!(sealed[i], Node(v));
    }
    assert_eq!(shared.borrow().calls.last().unwrap(), "combine 0 false");
    assert!(s.next().is_none());
}
