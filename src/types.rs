//! Values shared by every part of the library.
use vstd::prelude::*;

verus! {

#[verifier::external_type_specification]
#[verifier::external_body]
pub struct ExFr(paired::bls12_381::Fr);

/// Relies on `fff::Field::zero` for `Fr`: the additive identity of the field.
#[verifier::external_body]
fn fr_zero() -> paired::bls12_381::Fr {
    <paired::bls12_381::Fr as fff::Field>::zero()
}

/// Preferred number of nodes that an accelerator combines in one call.
pub const COMBINE_BATCH_SIZE: usize = 500000;

/// One element of the scalar field.
#[derive(PartialEq, Debug, Clone, Copy)]
pub struct Node(pub paired::bls12_381::Fr);

impl Default for Node {
    fn default() -> Self {
        Node(fr_zero())
    }
}

/// A 32-byte digest that identifies a replica.
#[derive(PartialEq, Debug, Clone, Copy)]
pub struct Sha256Domain(pub [u8; 32]);

impl Default for Sha256Domain {
    fn default() -> (r: Self)
        ensures
            forall|i: int| 0 <= i < 32 ==> r.0[i] == 0u8,
    {
        Self([0u8; 32])
    }
}

/// The nodes of one window, as produced by one generation or combination step.
pub struct Layer(pub Vec<Node>);

/// The parameters of the construction.
#[derive(Debug, Clone, Copy)]
pub struct Config {
    /// Batch hashing factor.
    pub k: u32,
    /// Number of nodes per window.
    pub num_nodes_window: usize,
    /// Degree of the expander graph.
    pub degree_expander: usize,
    /// Degree of the butterfly graph.
    pub degree_butterfly: usize,
    /// Number of expander layers.
    pub num_expander_layers: usize,
    /// Number of butterfly layers.
    pub num_butterfly_layers: usize,
}

/// The number of steps of a window's layer sequence.
pub open spec fn total_layers(c: Config) -> nat {
    (c.num_expander_layers + c.num_butterfly_layers) as nat
}

/// The generation call that one step of the sequence makes.
#[derive(PartialEq, Eq, Structural, Debug, Clone, Copy)]
pub enum LayerRequest {
    Mask,
    Expander(usize),
    Butterfly(usize),
}

/// The failures of the construction and of the accelerator.
#[derive(Debug, Clone, PartialEq)]
pub enum NSEError {
    /// The configured window size differs from the accelerator's leaf count.
    ConfigMismatch { num_nodes_window: usize, leaf_count: usize },
    /// The accelerator could not build or load its program.
    AcceleratorBuild(String),
    /// A generation or combine call failed on the accelerator.
    AcceleratorExecution(String),
}

pub type NSEResult<T> = Result<T, NSEError>;

/// Checks that an accelerator with `leaf_count` leaves serves windows of `config`.
pub fn check_leaf_count(config: &Config, leaf_count: usize) -> (r: NSEResult<()>)
    ensures
        r is Ok <==> config.num_nodes_window == leaf_count,
        r is Err ==> r == Err::<(), NSEError>(
            NSEError::ConfigMismatch { num_nodes_window: config.num_nodes_window, leaf_count },
        ),
{
    if config.num_nodes_window == leaf_count {
        Ok(())
    } else {
        Err(NSEError::ConfigMismatch { num_nodes_window: config.num_nodes_window, leaf_count })
    }
}

} // verus!
