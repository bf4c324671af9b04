//! The shape of a controller network: an input width and the output width
//! of each layer in order. Layer `i` maps the output of layer `i - 1` (the
//! input, for the first layer) to its own width; the weights themselves are
//! drawn by whoever builds the network.
use vstd::prelude::*;

verus! {

/// Width of a controller's input: a 2D position.
pub const INPUT_WIDTH: usize = 2;

/// Width of a controller's output: a 2D movement.
pub const OUTPUT_WIDTH: usize = 2;

/// The weight matrix of one layer has `outputs` rows and `inputs` columns,
/// and the layer has `outputs` biases.
#[derive(Clone, Copy, Debug, PartialEq, Eq, Structural)]
pub struct LayerShape {
    pub outputs: usize,
    pub inputs: usize,
}

/// Why a list of widths does not make a controller.
#[derive(Clone, Copy, Debug, PartialEq, Eq, Structural)]
pub enum TopologyError {
    /// The input width is not `INPUT_WIDTH`.
    InputWidth,
    /// There is no layer at all.
    NoLayers,
    /// The last layer's width is not `OUTPUT_WIDTH`.
    OutputWidth,
}

/// The shape of layer `i` for the given input width and layer widths.
pub open spec fn shape_at(inputs: usize, widths: Seq<usize>, i: int) -> LayerShape {
    LayerShape { outputs: widths[i], inputs: if i == 0 { inputs } else { widths[i - 1] } }
}

/// What `Topology::new` makes of an input width and layer widths.
pub open spec fn topology_check(inputs: usize, widths: Seq<usize>) -> Result<(), TopologyError> {
    if inputs != INPUT_WIDTH {
        Err(TopologyError::InputWidth)
    } else if widths.len() == 0 {
        Err(TopologyError::NoLayers)
    } else if widths.last() != OUTPUT_WIDTH {
        Err(TopologyError::OutputWidth)
    } else {
        Ok(())
    }
}

pub struct Topology {
    inputs: usize,
    widths: Vec<usize>,
}

impl Topology {
    /// The input width.
    pub closed spec fn input_width(&self) -> usize {
        self.inputs
    }

    /// The output width of each layer, in order.
    pub closed spec fn layer_widths(&self) -> Seq<usize> {
        self.widths@
    }

    /// Takes positions in and gives movements out, through at least one layer.
    pub open spec fn wf(&self) -> bool {
        topology_check(self.input_width(), self.layer_widths()) is Ok
    }

    /// A topology of `num_inputs` inputs and layers of the widths
    /// `nodes_per_layer`; malformed ones are refused here, before any network
    /// is built.
    pub fn new(num_inputs: usize, nodes_per_layer: Vec<usize>) -> (r: Result<Topology, TopologyError>)
        ensures
            r is Ok <==> topology_check(num_inputs, nodes_per_layer@) is Ok,
            r is Err ==> r == Err::<Topology, TopologyError>(
                topology_check(num_inputs, nodes_per_layer@)->Err_0,
            ),
            r is Ok ==> r->Ok_0.wf() && r->Ok_0.input_width() == num_inputs
                && r->Ok_0.layer_widths() == nodes_per_layer@,
    {
        if num_inputs != INPUT_WIDTH {
            return Err(TopologyError::InputWidth);
        }
        let n = nodes_per_layer.len();
        if n == 0 {
            return Err(TopologyError::NoLayers);
        }
        if nodes_per_layer[n - 1] != OUTPUT_WIDTH {
            return Err(TopologyError::OutputWidth);
        }
        Ok(Topology { inputs: num_inputs, widths: nodes_per_layer })
    }

    /// The default controller: two inputs, a hidden layer of two, two outputs.
    pub fn default() -> (r: Topology)
        ensures
            r.wf(),
            r.input_width() == INPUT_WIDTH,
            r.layer_widths() == seq![2usize, 2usize],
    {
        let widths: Vec<usize> = vec![2, 2];
        Topology { inputs: INPUT_WIDTH, widths }
    }

    /// The shape of each layer, in order: they chain from the input width to
    /// the output width.
    pub fn layer_shapes(&self) -> (r: Vec<LayerShape>)
        requires
            self.wf(),
        ensures
            r@.len() == self.layer_widths().len(),
            forall|i: int|
                0 <= i < r@.len() ==> #[trigger] r@[i] == shape_at(
                    self.input_width(),
                    self.layer_widths(),
                    i,
                ),
            r@[0].inputs == INPUT_WIDTH,
            r@.last().outputs == OUTPUT_WIDTH,
            forall|i: int| 0 < i < r@.len() ==> #[trigger] r@[i].inputs == r@[i - 1].outputs,
    {
        let mut shapes: Vec<LayerShape> = Vec::new();
        let mut i: usize = 0;
        while i < self.widths.len()
            invariant
                i <= self.widths@.len(),
                shapes@.len() == i,
                forall|k: int|
                    0 <= k < i ==> #[trigger] shapes@[k] == shape_at(self.inputs, self.widths@, k),
            decreases self.widths@.len() - i,
        {
            let inputs = if i == 0 {
                self.inputs
            } else {
                self.widths[i - 1]
            };
            shapes.push(LayerShape { outputs: self.widths[i], inputs });
            i = i + 1;
        }
        shapes
    }

    /// The input width.
    pub fn num_inputs(&self) -> (r: usize)
        ensures
            r == self.input_width(),
    {
        self.inputs
    }

    /// The output width of each layer, in order.
    pub fn widths(&self) -> (r: &Vec<usize>)
        ensures
            r@ == self.layer_widths(),
    {
        &self.widths
    }
}

} // verus!
