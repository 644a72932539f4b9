use vector_store::cuvs::params::{distance_type, CagraParams, DistanceType};
use vector_store::types::{
    Connectivity, Dimensions, ExpansionAdd, ExpansionSearch, IndexKey, IndexName, KeyspaceName,
    Quantization, SpaceType, VsIndexConfiguration,
};

fn configuration() -> VsIndexConfiguration {
    VsIndexConfiguration {
        key: IndexKey::new(
            &KeyspaceName("vector".to_string()),
            &IndexName("store".to_string()),
        ),
        dimensions: Dimensions::new(3).unwrap(),
        connectivity: Connectivity::default(),
        expansion_add: ExpansionAdd::default(),
        expansion_search: ExpansionSearch::default(),
        space_type: SpaceType::default(),
        quantization: Quantization::default(),
    }
}

#[test]
fn defaults_map_to_valid_cagra_params() {
    let params = CagraParams::try_from(&configuration()).unwrap();

    // The service defaults to cosine.
    assert_eq!(params.metric, DistanceType::CosineExpanded);
    assert_eq!(params.graph_degree, *Connectivity::default().as_ref());
    assert_eq!(
        params.intermediate_graph_degree,
        *ExpansionAdd::default().as_ref()
    );
    assert!(params.intermediate_graph_degree >= params.graph_degree);
}

#[test]
fn space_types_map_to_cagra_metrics() {
    for (space_type, expected) in [
        (SpaceType::Euclidean, DistanceType::L2Expanded),
        (SpaceType::Cosine, DistanceType::CosineExpanded),
        (SpaceType::DotProduct, DistanceType::InnerProduct),
    ] {
        let config = VsIndexConfiguration {
            space_type,
            ..configuration()
        };
        assert_eq!(CagraParams::try_from(&config).unwrap().metric, expected);
        assert_eq!(distance_type(space_type).unwrap(), expected);
    }
}

#[test]
fn hamming_space_type_is_rejected() {
    let config = VsIndexConfiguration {
        space_type: SpaceType::Hamming,
        ..configuration()
    };
    let err = CagraParams::try_from(&config).unwrap_err().to_string();
    assert!(err.contains("Hamming"), "got: {err}");
}

#[test]
fn non_f32_quantization_is_rejected() {
    for quantization in [
        Quantization::F16,
        Quantization::BF16,
        Quantization::I8,
        Quantization::B1,
    ] {
        let config = VsIndexConfiguration {
            quantization,
            ..configuration()
        };
        let err = CagraParams::try_from(&config).unwrap_err().to_string();
        assert!(err.contains("quantization"), "got: {err}");
        assert_eq!(
            err,
            format!("cuVS index does not support quantization {quantization:?}")
        );
    }
}

#[test]
fn zero_connectivity_is_rejected() {
    let config = VsIndexConfiguration {
        connectivity: Connectivity::from(0),
        ..configuration()
    };
    let err = CagraParams::try_from(&config).unwrap_err().to_string();
    assert!(err.contains("maximum_node_connections"), "got: {err}");
}

#[test]
fn connectivity_above_expansion_add_is_rejected() {
    let config = VsIndexConfiguration {
        connectivity: Connectivity::from(256),
        expansion_add: ExpansionAdd::from(64),
        ..configuration()
    };
    let err = CagraParams::try_from(&config).unwrap_err().to_string();
    assert!(err.contains("construction_beam_width"), "got: {err}");
    assert!(err.contains("maximum_node_connections"), "got: {err}");
}

#[test]
fn connectivity_equal_to_expansion_add_is_accepted() {
    let config = VsIndexConfiguration {
        connectivity: Connectivity::from(64),
        expansion_add: ExpansionAdd::from(64),
        ..configuration()
    };
    let params = CagraParams::try_from(&config).unwrap();
    assert_eq!(params.graph_degree, 64);
    assert_eq!(params.intermediate_graph_degree, 64);
}

#[test]
fn the_quantization_is_looked_at_first() {
    let config = VsIndexConfiguration {
        connectivity: Connectivity::from(0),
        space_type: SpaceType::Hamming,
        quantization: Quantization::I8,
        ..configuration()
    };
    let err = CagraParams::try_from(&config).unwrap_err().to_string();
    assert_eq!(err, "cuVS index does not support quantization I8");
    let config = VsIndexConfiguration {
        quantization: Quantization::F32,
        ..config
    };
    let err = CagraParams::try_from(&config).unwrap_err().to_string();
    assert_eq!(
        err,
        "cuVS index does not support the Hamming similarity metric"
    );
}
