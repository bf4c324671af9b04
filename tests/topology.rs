use ljka::topology::{LayerShape, Topology, TopologyError, INPUT_WIDTH, OUTPUT_WIDTH};

#[test]
fn default_topology_shapes() {
    let t = Topology::default();
    assert_eq!(t.num_inputs(), INPUT_WIDTH);
    assert_eq!(t.widths(), &vec![2, 2]);
    assert_eq!(
        t.layer_shapes(),
        vec![LayerShape { outputs: 2, inputs: 2 }, LayerShape { outputs: 2, inputs: 2 }]
    );
}

#[test]
fn layer_shapes_chain() {
    let t = Topology::new(2, vec![7, 3, 2]).unwrap();
    assert_eq!(
        t.layer_shapes(),
        vec![
            LayerShape { outputs: 7, inputs: 2 },
            LayerShape { outputs: 3, inputs: 7 },
            LayerShape { outputs: 2, inputs: 3 },
        ]
    );
    let single = Topology::new(2, vec![OUTPUT_WIDTH]).unwrap();
    assert_eq!(single.layer_shapes(), vec![LayerShape { outputs: 2, inputs: 2 }]);
}

#[test]
fn malformed_topologies_are_refused() {
    assert_eq!(Topology::new(3, vec![7, 2]).err(), Some(TopologyError::InputWidth));
    assert_eq!(Topology::new(2, vec![]).err(), Some(TopologyError::NoLayers));
    assert_eq!(Topology::new(2, vec![7, 3]).err(), Some(TopologyError::OutputWidth));
    assert_eq!(Topology::new(0, vec![]).err(), Some(TopologyError::InputWidth));
}
