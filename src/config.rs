//! The decoded mesh's shape: attribute types, descriptors and buffer sizing.
use vstd::prelude::*;

verus! {

/// Element type of one attribute component.
#[derive(Clone, Copy, Debug, PartialEq, Eq, Structural)]
pub enum AttributeDataType {
    Int8,
    UInt8,
    Int16,
    UInt16,
    Int32,
    UInt32,
    Float32,
}

/// The type that a native type code denotes: codes 0 to 6 in declaration
/// order, every other code falls back to `UInt8`.
pub open spec fn type_of_code(code: u32) -> AttributeDataType {
    if code == 0 {
        AttributeDataType::Int8
    } else if code == 1 {
        AttributeDataType::UInt8
    } else if code == 2 {
        AttributeDataType::Int16
    } else if code == 3 {
        AttributeDataType::UInt16
    } else if code == 4 {
        AttributeDataType::Int32
    } else if code == 5 {
        AttributeDataType::UInt32
    } else if code == 6 {
        AttributeDataType::Float32
    } else {
        AttributeDataType::UInt8
    }
}

impl AttributeDataType {
    /// Bytes taken by one component of this type.
    pub open spec fn byte_width(self) -> nat {
        match self {
            AttributeDataType::Int8 | AttributeDataType::UInt8 => 1,
            AttributeDataType::Int16 | AttributeDataType::UInt16 => 2,
            _ => 4,
        }
    }

    /// Maps a native type code; an unrecognized code yields `UInt8`.
    pub fn from_code(code: u32) -> (r: AttributeDataType)
        ensures
            r == type_of_code(code),
    {
        match code {
            0 => AttributeDataType::Int8,
            1 => AttributeDataType::UInt8,
            2 => AttributeDataType::Int16,
            3 => AttributeDataType::UInt16,
            4 => AttributeDataType::Int32,
            5 => AttributeDataType::UInt32,
            6 => AttributeDataType::Float32,
            _ => AttributeDataType::UInt8,
        }
    }

    /// Whether the code names a type, rather than falling back to `UInt8`.
    pub fn is_known_code(code: u32) -> (r: bool)
        ensures
            r == (code <= 6),
    {
        code <= 6
    }

    /// Bytes taken by one component of this type.
    pub fn size_in_bytes(&self) -> (r: usize)
        ensures
            r == self.byte_width(),
    {
        match self {
            AttributeDataType::Int8 | AttributeDataType::UInt8 => 1,
            AttributeDataType::Int16 | AttributeDataType::UInt16 => 2,
            _ => 4,
        }
    }
}

/// One per-vertex data channel: components per vertex and their type.
#[derive(Clone, Copy, Debug, PartialEq, Eq, Structural)]
pub struct AttributeDescriptor {
    pub dim: u32,
    pub data_type: AttributeDataType,
}

/// Bytes that the attributes take for `vertex_count` vertices.
pub open spec fn attribute_bytes(vertex_count: nat, attrs: Seq<AttributeDescriptor>) -> nat
    decreases attrs.len(),
{
    if attrs.len() == 0 {
        0
    } else {
        (attribute_bytes(vertex_count, attrs.drop_last()) + vertex_count * attrs.last().dim
            * attrs.last().data_type.byte_width()) as nat
    }
}

/// Bytes that one index takes in the decoded buffer.
pub const INDEX_BYTES: usize = 4;

/// Shape of a decoded mesh: counts and attributes in native order.
#[derive(Clone, Debug, PartialEq, Eq)]
pub struct DracoDecodeConfig {
    pub vertex_count: u32,
    pub index_count: u32,
    pub attributes: Vec<AttributeDescriptor>,
}

impl DracoDecodeConfig {
    /// Bytes of the decoded buffer: the indices, then each attribute's
    /// components for every vertex.
    pub open spec fn buffer_size(&self) -> nat {
        (self.index_count * INDEX_BYTES + attribute_bytes(
            self.vertex_count as nat,
            self.attributes@,
        )) as nat
    }

    /// A config with the given counts and no attributes.
    pub fn new(vertex_count: u32, index_count: u32) -> (r: DracoDecodeConfig)
        ensures
            r.vertex_count == vertex_count,
            r.index_count == index_count,
            r.attributes@ == Seq::<AttributeDescriptor>::empty(),
    {
        DracoDecodeConfig { vertex_count, index_count, attributes: Vec::new() }
    }

    /// Appends an attribute after those already added.
    pub fn add_attribute(&mut self, dim: u32, data_type: AttributeDataType)
        ensures
            final(self).vertex_count == old(self).vertex_count,
            final(self).index_count == old(self).index_count,
            final(self).attributes@ == old(self).attributes@.push(
                AttributeDescriptor { dim, data_type },
            ),
    {
        self.attributes.push(AttributeDescriptor { dim, data_type });
    }

    /// The buffer size, or `None` where it does not fit in a `usize`.
    pub fn checked_buffer_size(&self) -> (r: Option<usize>)
        ensures
            r == (if self.buffer_size() <= usize::MAX {
                Some(self.buffer_size() as usize)
            } else {
                None::<usize>
            }),
    {
        let vc = self.vertex_count as usize;
        let mut total: usize = match (self.index_count as usize).checked_mul(INDEX_BYTES) {
            Some(t) => t,
            None => return None,
        };
        let n = self.attributes.len();
        let mut i: usize = 0;
        while i < n
            invariant
                n == self.attributes@.len(),
                0 <= i <= n,
                vc == self.vertex_count,
                total == self.index_count * INDEX_BYTES + attribute_bytes(
                    vc as nat,
                    self.attributes@.take(i as int),
                ),
            decreases n - i,
        {
            let a = self.attributes[i];
            let ghost prefix = self.attributes@.take(i as int);
            let ghost next = self.attributes@.take(i as int + 1);
            assert(next.drop_last() == prefix);
            assert(next.last() == a);
            let w = a.data_type.size_in_bytes();
            let per_dim = match vc.checked_mul(a.dim as usize) {
                Some(p) => p,
                None => {
                    proof {
                        lemma_width_grows(vc as nat * a.dim as nat, w as nat);
                        lemma_attribute_bytes_grow(vc as nat, self.attributes@, i as int + 1);
                    }
                    return None;
                },
            };
            let term = match per_dim.checked_mul(w) {
                Some(t) => t,
                None => {
                    proof {
                        lemma_attribute_bytes_grow(vc as nat, self.attributes@, i as int + 1);
                    }
                    return None;
                },
            };
            total = match total.checked_add(term) {
                Some(t) => t,
                None => {
                    proof {
                        lemma_attribute_bytes_grow(vc as nat, self.attributes@, i as int + 1);
                    }
                    return None;
                },
            };
            i = i + 1;
        }
        assert(self.attributes@.take(n as int) == self.attributes@);
        Some(total)
    }

    /// The buffer size; the caller knows that it fits in a `usize`.
    pub fn estimate_buffer_size(&self) -> (r: usize)
        requires
            self.buffer_size() <= usize::MAX,
        ensures
            r == self.buffer_size(),
    {
        match self.checked_buffer_size() {
            Some(size) => size,
            None => 0,
        }
    }
}

/// Widening by a type of at least one byte never shrinks a byte count.
proof fn lemma_width_grows(n: nat, w: nat)
    requires
        w >= 1,
    ensures
        n * w >= n,
{
    assert(n * w >= n) by (nonlinear_arith)
        requires
            w >= 1,
    ;
}

/// The bytes of a prefix never exceed those of a longer prefix.
proof fn lemma_attribute_bytes_grow(vc: nat, attrs: Seq<AttributeDescriptor>, k: int)
    requires
        0 <= k <= attrs.len(),
    ensures
        attribute_bytes(vc, attrs.take(k)) <= attribute_bytes(vc, attrs),
    decreases attrs.len() - k,
{
    if k < attrs.len() {
        lemma_attribute_bytes_grow(vc, attrs, k + 1);
        assert(attrs.take(k + 1).drop_last() == attrs.take(k));
    } else {
        assert(attrs.take(k) == attrs);
    }
}

/// A decoded buffer together with the config that sized it.
#[derive(Clone, Debug, PartialEq, Eq)]
pub struct MeshDecodeResult {
    pub data: Vec<u8>,
    pub config: DracoDecodeConfig,
}

} // verus!
