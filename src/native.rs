//! What the native engine hands back, and the checks made on it: wire
//! structs, the owned cache handle, config conversion and written lengths.
use vstd::prelude::*;

use crate::config::{type_of_code, AttributeDataType, AttributeDescriptor, DracoDecodeConfig};

verus! {

/// One attribute as the engine reports it. `offset`, `length` and
/// `unique_id` are carried along but not consumed by the domain config.
#[derive(Clone, Copy, Debug, PartialEq, Eq, Structural)]
pub struct MeshAttribute {
    pub dim: u32,
    pub data_type: u32,
    pub offset: u32,
    pub length: u32,
    pub unique_id: u32,
}

/// Metadata of a cached mesh as the engine reports it.
#[derive(Clone, Debug, PartialEq, Eq)]
pub struct MeshConfig {
    pub vertex_count: u32,
    pub index_count: u32,
    pub index_length: u32,
    pub attributes: Vec<MeshAttribute>,
}

/// The descriptor that a wire attribute stands for.
pub open spec fn descriptor_of(a: MeshAttribute) -> AttributeDescriptor {
    AttributeDescriptor { dim: a.dim, data_type: type_of_code(a.data_type) }
}

/// The descriptors of wire attributes, in the order received.
pub open spec fn descriptors_of(attrs: Seq<MeshAttribute>) -> Seq<AttributeDescriptor> {
    attrs.map_values(|a: MeshAttribute| descriptor_of(a))
}

/// Whether `config` is the domain form of the wire metadata `native`.
pub open spec fn converts_to(native: MeshConfig, config: DracoDecodeConfig) -> bool {
    &&& config.vertex_count == native.vertex_count
    &&& config.index_count == native.index_count
    &&& config.attributes@ == descriptors_of(native.attributes@)
}

/// The accepted written length: present exactly when the engine wrote
/// something and stayed within the declared capacity.
pub open spec fn accepted_written(written: usize, capacity: usize) -> Option<usize> {
    if 0 < written <= capacity {
        Some(written)
    } else {
        None
    }
}

/// Checks a written length against the capacity that was declared to the
/// engine: zero bytes and any overrun are both failures.
pub fn checked_written(written: usize, capacity: usize) -> (r: Option<usize>)
    ensures
        r == accepted_written(written, capacity),
{
    if written == 0 || written > capacity {
        None
    } else {
        Some(written)
    }
}

/// Keeps the first `written` bytes of a buffer the engine wrote into, or
/// rejects the buffer where `written` is zero or exceeds its length.
pub fn truncate_to_written(buffer: Vec<u8>, written: usize) -> (r: Option<Vec<u8>>)
    ensures
        r is Some <==> accepted_written(written, buffer@.len() as usize) is Some,
        r matches Some(data) ==> data@ == buffer@.take(written as int),
{
    let mut buffer = buffer;
    match checked_written(written, buffer.len()) {
        Some(n) => {
            buffer.truncate(n);
            Some(buffer)
        },
        None => None,
    }
}

/// Exclusive ownership of one mesh cached inside the engine, named by a
/// nonzero handle. Consuming it through `release` yields the handle to free,
/// so a cache is released at most once.
pub struct MeshCache {
    handle: u64,
}

impl MeshCache {
    #[verifier::type_invariant]
    spec fn handle_is_live(self) -> bool {
        self.handle != 0
    }

    /// The handle this cache owns.
    pub closed spec fn spec_handle(self) -> u64 {
        self.handle
    }

    /// Takes ownership of a handle the engine returned; the sentinel 0 means
    /// that no mesh was cached, so there is nothing to own.
    pub fn new(handle: u64) -> (r: Option<MeshCache>)
        ensures
            r is Some <==> handle != 0,
            r matches Some(c) ==> c.spec_handle() == handle,
    {
        if handle == 0 {
            None
        } else {
            Some(MeshCache { handle })
        }
    }

    /// The handle, for queries against the engine.
    pub fn handle(&self) -> (r: u64)
        ensures
            r == self.spec_handle(),
            r != 0,
    {
        proof {
            use_type_invariant(self);
        }
        self.handle
    }

    /// Gives up ownership: the returned handle is to be released once.
    pub fn release(self) -> (r: u64)
        ensures
            r == self.spec_handle(),
            r != 0,
    {
        proof {
            use_type_invariant(&self);
        }
        self.handle
    }

    /// Builds the domain config from wire metadata, mapping each type code
    /// and keeping the attributes in the order received.
    pub fn convert_config(cpp_config: MeshConfig) -> (r: DracoDecodeConfig)
        ensures
            converts_to(cpp_config, r),
    {
        let mut config = DracoDecodeConfig::new(cpp_config.vertex_count, cpp_config.index_count);
        let n = cpp_config.attributes.len();
        let mut i: usize = 0;
        while i < n
            invariant
                n == cpp_config.attributes@.len(),
                0 <= i <= n,
                config.vertex_count == cpp_config.vertex_count,
                config.index_count == cpp_config.index_count,
                config.attributes@ == descriptors_of(cpp_config.attributes@.take(i as int)),
            decreases n - i,
        {
            let attr = cpp_config.attributes[i];
            let data_type = AttributeDataType::from_code(attr.data_type);
            config.add_attribute(attr.dim, data_type);
            assert(cpp_config.attributes@.take(i as int + 1) == cpp_config.attributes@.take(
                i as int,
            ).push(attr));
            assert(descriptors_of(cpp_config.attributes@.take(i as int + 1))
                =~= descriptors_of(cpp_config.attributes@.take(i as int)).push(descriptor_of(attr)));
            i = i + 1;
        }
        assert(cpp_config.attributes@.take(n as int) == cpp_config.attributes@);
        config
    }

    /// The config from the engine's answer to a metadata query: `None` where
    /// the engine reported failure.
    pub fn config_from_reply(found: bool, cpp_config: MeshConfig) -> (r: Option<DracoDecodeConfig>)
        ensures
            r is Some <==> found,
            r matches Some(c) ==> converts_to(cpp_config, c),
    {
        if found {
            Some(Self::convert_config(cpp_config))
        } else {
            None
        }
    }
}

} // verus!
