use draco_decoder::config::AttributeDataType;
use draco_decoder::native::{MeshAttribute, MeshConfig};
use draco_decoder::session::{
    decode_mesh_with_config, MeshDecodeSession, NativeReply, NativeRequest,
};

fn positions_metadata() -> MeshConfig {
    MeshConfig {
        vertex_count: 100,
        index_count: 300,
        index_length: 1200,
        attributes: vec![MeshAttribute { dim: 3, data_type: 6, offset: 1200, length: 1200, unique_id: 0 }],
    }
}

/// Runs a session up to its decode request on handle `handle`.
fn session_awaiting_decode(handle: u64) -> (MeshDecodeSession, usize) {
    let (session, first) = MeshDecodeSession::start();
    assert!(matches!(first, NativeRequest::CacheMesh));
    let (session, request) = decode_mesh_with_config(session, NativeReply::Cached { handle });
    assert!(matches!(request, NativeRequest::QueryConfig { handle: h } if h == handle));
    let (session, request) = decode_mesh_with_config(
        session,
        NativeReply::Config { found: true, config: positions_metadata() },
    );
    match request {
        NativeRequest::DecodeToBuffer { handle: h, capacity } => {
            assert_eq!(h, handle);
            (session, capacity)
        }
        _ => panic!("expected a decode request"),
    }
}

#[test]
fn orchestrated_decode_returns_written_bytes_and_queried_config() {
    let (session, capacity) = session_awaiting_decode(42);
    assert_eq!(capacity, 2400);
    let buffer: Vec<u8> = (0..capacity).map(|i| (i % 251) as u8).collect();
    let (session, request) =
        decode_mesh_with_config(session, NativeReply::Decoded { buffer: buffer.clone(), written: 1800 });
    assert!(matches!(session, MeshDecodeSession::Finished));
    match request {
        NativeRequest::Release { handle, result: Some(result) } => {
            assert_eq!(handle, 42);
            assert_eq!(result.data.len(), 1800);
            assert_eq!(result.data[..], buffer[..1800]);
            assert_eq!(result.config.vertex_count, 100);
            assert_eq!(result.config.index_count, 300);
            assert_eq!(result.config.attributes.len(), 1);
            assert_eq!(result.config.attributes[0].dim, 3);
            assert_eq!(result.config.attributes[0].data_type, AttributeDataType::Float32);
            assert!(result.data.len() <= result.config.estimate_buffer_size());
        }
        _ => panic!("expected a release with a result"),
    }
}

#[test]
fn zero_handle_never_releases_or_queries() {
    let (session, _) = MeshDecodeSession::start();
    let (session, request) = decode_mesh_with_config(session, NativeReply::Cached { handle: 0 });
    assert!(matches!(request, NativeRequest::Fail));
    assert!(matches!(session, MeshDecodeSession::Finished));
    let (session, request) = decode_mesh_with_config(
        session,
        NativeReply::Config { found: true, config: positions_metadata() },
    );
    assert!(matches!(request, NativeRequest::Fail));
    let (_, request) =
        decode_mesh_with_config(session, NativeReply::Decoded { buffer: vec![0u8; 8], written: 8 });
    assert!(matches!(request, NativeRequest::Fail));
}

#[test]
fn failed_query_releases_once() {
    let (session, _) = MeshDecodeSession::start();
    let (session, _) = decode_mesh_with_config(session, NativeReply::Cached { handle: 9 });
    let (session, request) = decode_mesh_with_config(
        session,
        NativeReply::Config { found: false, config: positions_metadata() },
    );
    assert!(matches!(request, NativeRequest::Release { handle: 9, result: None }));
    assert!(matches!(session, MeshDecodeSession::Finished));
    let (_, request) = decode_mesh_with_config(session, NativeReply::Cached { handle: 9 });
    assert!(matches!(request, NativeRequest::Fail));
}

#[test]
fn unsizable_metadata_releases() {
    let (session, _) = MeshDecodeSession::start();
    let (session, _) = decode_mesh_with_config(session, NativeReply::Cached { handle: 3 });
    let attribute = MeshAttribute { dim: u32::MAX, data_type: 6, offset: 0, length: 0, unique_id: 0 };
    let metadata = MeshConfig {
        vertex_count: u32::MAX,
        index_count: 3,
        index_length: 12,
        attributes: vec![attribute, attribute],
    };
    let (_, request) =
        decode_mesh_with_config(session, NativeReply::Config { found: true, config: metadata });
    assert!(matches!(request, NativeRequest::Release { handle: 3, result: None }));
}

#[test]
fn empty_decode_releases_without_result() {
    let (session, capacity) = session_awaiting_decode(5);
    let (_, request) = decode_mesh_with_config(
        session,
        NativeReply::Decoded { buffer: vec![0u8; capacity], written: 0 },
    );
    assert!(matches!(request, NativeRequest::Release { handle: 5, result: None }));
}

#[test]
fn overrun_decode_releases_without_result() {
    let (session, capacity) = session_awaiting_decode(5);
    let (_, request) = decode_mesh_with_config(
        session,
        NativeReply::Decoded { buffer: vec![0u8; capacity], written: capacity + 1 },
    );
    assert!(matches!(request, NativeRequest::Release { handle: 5, result: None }));
}

#[test]
fn exactly_full_decode_is_accepted() {
    let (session, capacity) = session_awaiting_decode(6);
    let (_, request) = decode_mesh_with_config(
        session,
        NativeReply::Decoded { buffer: vec![1u8; capacity], written: capacity },
    );
    match request {
        NativeRequest::Release { handle: 6, result: Some(result) } => {
            assert_eq!(result.data, vec![1u8; 2400]);
        }
        _ => panic!("expected a release with a result"),
    }
}

#[test]
fn wrongly_sized_buffer_is_rejected() {
    let (session, capacity) = session_awaiting_decode(8);
    let (_, request) = decode_mesh_with_config(
        session,
        NativeReply::Decoded { buffer: vec![0u8; capacity + 16], written: capacity + 8 },
    );
    assert!(matches!(request, NativeRequest::Release { handle: 8, result: None }));
}

#[test]
fn unexpected_reply_while_holding_cache_releases() {
    let (session, _) = MeshDecodeSession::start();
    let (session, _) = decode_mesh_with_config(session, NativeReply::Cached { handle: 11 });
    let (session, request) = decode_mesh_with_config(session, NativeReply::Cached { handle: 12 });
    assert!(matches!(request, NativeRequest::Release { handle: 11, result: None }));
    assert!(matches!(session, MeshDecodeSession::Finished));

    let (session, _) = session_awaiting_decode(13);
    let (_, request) = decode_mesh_with_config(session, NativeReply::Cached { handle: 14 });
    assert!(matches!(request, NativeRequest::Release { handle: 13, result: None }));
}

#[test]
fn unexpected_reply_before_cache_fails() {
    let (session, _) = MeshDecodeSession::start();
    let (session, request) = decode_mesh_with_config(
        session,
        NativeReply::Decoded { buffer: vec![0u8; 4], written: 4 },
    );
    assert!(matches!(request, NativeRequest::Fail));
    assert!(matches!(session, MeshDecodeSession::Finished));
}
