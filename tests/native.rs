use draco_decoder::config::{AttributeDataType, AttributeDescriptor};
use draco_decoder::native::{
    checked_written, truncate_to_written, MeshAttribute, MeshCache, MeshConfig,
};

fn attr(dim: u32, data_type: u32, unique_id: u32) -> MeshAttribute {
    MeshAttribute { dim, data_type, offset: 0, length: 0, unique_id }
}

#[test]
fn zero_handle_gives_no_cache() {
    assert!(MeshCache::new(0).is_none());
}

#[test]
fn nonzero_handle_is_owned_and_released() {
    let cache = MeshCache::new(77).expect("a nonzero handle is owned");
    assert_eq!(cache.handle(), 77);
    assert_eq!(cache.release(), 77);
}

#[test]
fn converts_single_float_attribute() {
    let native = MeshConfig {
        vertex_count: 100,
        index_count: 300,
        index_length: 1200,
        attributes: vec![attr(3, 6, 0)],
    };
    let config = MeshCache::convert_config(native);
    assert_eq!(config.vertex_count, 100);
    assert_eq!(config.index_count, 300);
    assert_eq!(config.attributes.len(), 1);
    assert_eq!(config.attributes[0].data_type, AttributeDataType::Float32);
    assert_eq!(config.attributes[0].dim, 3);
}

#[test]
fn conversion_keeps_order_and_defaults_unknown_codes() {
    let native = MeshConfig {
        vertex_count: 4,
        index_count: 6,
        index_length: 24,
        attributes: vec![attr(3, 6, 0), attr(2, 3, 1), attr(1, 42, 2), attr(4, 0, 3)],
    };
    let config = MeshCache::convert_config(native);
    assert_eq!(
        config.attributes,
        vec![
            AttributeDescriptor { dim: 3, data_type: AttributeDataType::Float32 },
            AttributeDescriptor { dim: 2, data_type: AttributeDataType::UInt16 },
            AttributeDescriptor { dim: 1, data_type: AttributeDataType::UInt8 },
            AttributeDescriptor { dim: 4, data_type: AttributeDataType::Int8 },
        ]
    );
}

#[test]
fn failed_query_gives_no_config() {
    let native = MeshConfig { vertex_count: 1, index_count: 3, index_length: 12, attributes: vec![] };
    assert!(MeshCache::config_from_reply(false, native.clone()).is_none());
    let config = MeshCache::config_from_reply(true, native).expect("query succeeded");
    assert_eq!(config.vertex_count, 1);
    assert_eq!(config.index_count, 3);
    assert!(config.attributes.is_empty());
}

#[test]
fn written_within_exact_capacity_is_accepted() {
    assert_eq!(checked_written(2400, 2400), Some(2400));
    assert_eq!(checked_written(1000, 2400), Some(1000));
}

#[test]
fn zero_capacity_is_rejected() {
    assert_eq!(checked_written(0, 0), None);
    assert_eq!(checked_written(1, 0), None);
}

#[test]
fn zero_written_is_rejected() {
    assert_eq!(checked_written(0, 64), None);
}

#[test]
fn overrun_is_rejected() {
    assert_eq!(checked_written(65, 64), None);
    assert_eq!(checked_written(usize::MAX, 64), None);
}

#[test]
fn buffer_is_truncated_to_written() {
    let buffer: Vec<u8> = (0u8..10).collect();
    assert_eq!(truncate_to_written(buffer, 4), Some(vec![0u8, 1, 2, 3]));
}

#[test]
fn full_buffer_is_kept_whole() {
    let buffer = vec![9u8; 5];
    assert_eq!(truncate_to_written(buffer, 5), Some(vec![9u8; 5]));
}

#[test]
fn truncation_rejects_empty_and_overrun() {
    assert_eq!(truncate_to_written(vec![1u8; 8], 0), None);
    assert_eq!(truncate_to_written(vec![1u8; 8], 9), None);
    assert_eq!(truncate_to_written(Vec::new(), 1), None);
}
