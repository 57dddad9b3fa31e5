//! Memory allocation: which of the device's memory types backs a buffer or
//! an image, and the record that owns the result.
use vstd::prelude::*;
use crate::flags::{mask_contains, memory_properties_contain};
use crate::types::SharingMode;

verus! {

/// Number of memory types a device can report: one per bit of a type mask.
pub const MAX_MEMORY_TYPES: u32 = 32;

/// One memory type as the device reports it.
#[derive(Clone, Copy, Debug, PartialEq, Eq, Structural)]
pub struct MemoryType {
    /// What this kind of memory offers, as a property mask.
    pub property_flags: u32,
    /// The heap the memory is taken from.
    pub heap_index: u32,
}

/// What the driver asks of the memory behind a buffer or an image.
#[derive(Clone, Copy, Debug, PartialEq, Eq, Structural)]
pub struct MemoryRequirements {
    /// Bytes to allocate.
    pub size: u64,
    /// Alignment of the block, in bytes.
    pub alignment: u64,
    /// Mask of the memory types that may back the resource: bit `i` stands
    /// for type `i`.
    pub memory_type_bits: u32,
}

/// No memory type of the device meets a request. A fault of the
/// configuration: asking again cannot help.
#[derive(Clone, Copy, Debug, PartialEq, Eq, Structural)]
pub struct MemoryTypeError {
    /// The mask of allowed types that was asked for.
    pub type_filter: u32,
    /// The properties that were asked for.
    pub properties: u32,
}

/// Bit `index` of `type_filter` is set.
pub open spec fn type_allowed(type_filter: u32, index: int) -> bool {
    0 <= index < MAX_MEMORY_TYPES && type_filter & (1u32 << (index as u32)) != 0
}

/// Type `index` may back a resource that allows the types in `type_filter`
/// and needs `properties`.
pub open spec fn type_qualifies(
    types: Seq<MemoryType>,
    index: int,
    type_filter: u32,
    properties: u32,
) -> bool {
    &&& 0 <= index < types.len()
    &&& type_allowed(type_filter, index)
    &&& mask_contains(types[index].property_flags, properties)
}

/// Some type of the device qualifies.
pub open spec fn some_type_qualifies(
    types: Seq<MemoryType>,
    type_filter: u32,
    properties: u32,
) -> bool {
    exists|i: int| type_qualifies(types, i, type_filter, properties)
}

/// Picks the first memory type that the requirement allows and that offers
/// all of `properties`.
pub fn find_memory_type(types: &Vec<MemoryType>, type_filter: u32, properties: u32) -> (r: Result<
    u32,
    MemoryTypeError,
>)
    ensures
        r is Ok <==> some_type_qualifies(types@, type_filter, properties),
        r matches Ok(index) ==> {
            &&& type_qualifies(types@, index as int, type_filter, properties)
            &&& forall|j: int|
                0 <= j < index ==> !type_qualifies(types@, j, type_filter, properties)
        },
        r matches Err(e) ==> e == (MemoryTypeError { type_filter, properties }),
{
    let mut i: u32 = 0;
    while i < MAX_MEMORY_TYPES && (i as usize) < types.len()
        invariant
            i <= MAX_MEMORY_TYPES,
            i <= types.len(),
            forall|j: int| 0 <= j < i ==> !type_qualifies(types@, j, type_filter, properties),
        decreases MAX_MEMORY_TYPES - i,
    {
        if (type_filter & (1u32 << i)) != 0 && memory_properties_contain(
            types[i as usize].property_flags,
            properties,
        ) {
            assert(type_qualifies(types@, i as int, type_filter, properties));
            return Ok(i);
        }
        i = i + 1;
    }
    Err(MemoryTypeError { type_filter, properties })
}

#[derive(Clone, Copy, Debug, PartialEq, Eq, Structural)]
pub struct BufferCreateInfo {
    /// Bytes the buffer holds.
    pub size: u64,
    /// What the buffer will be used for, as a usage mask.
    pub usage: u32,
    pub sharing_mode: SharingMode,
}

/// How the memory behind a resource is allocated and bound.
#[derive(Clone, Copy, Debug, PartialEq, Eq, Structural)]
pub struct AllocationPlan {
    /// Bytes to allocate.
    pub allocation_size: u64,
    /// The memory type to allocate from.
    pub memory_type_index: u32,
    /// Offset into the allocated block at which the resource is bound.
    pub bind_offset: u64,
}

/// Offset into its memory block at which every resource is bound: each
/// resource has a block of its own.
pub const BIND_OFFSET: u64 = 0;

/// Describes a buffer of exactly `size` bytes, owned by one queue family.
pub fn buffer_create_info(size: u64, usage: u32) -> (info: BufferCreateInfo)
    ensures
        info == (BufferCreateInfo { size, usage, sharing_mode: SharingMode::Exclusive }),
{
    BufferCreateInfo { size, usage, sharing_mode: SharingMode::Exclusive }
}

/// Plans the allocation behind a buffer or an image: as many bytes as the
/// driver requires, from the first memory type that the requirement allows
/// and that offers all of `properties`, with the resource bound at the start
/// of the block.
pub fn plan_allocation(
    types: &Vec<MemoryType>,
    requirements: MemoryRequirements,
    properties: u32,
) -> (r: Result<AllocationPlan, MemoryTypeError>)
    ensures
        r is Ok <==> some_type_qualifies(types@, requirements.memory_type_bits, properties),
        r matches Ok(info) ==> {
            &&& info.allocation_size == requirements.size
            &&& info.bind_offset == 0
            &&& type_qualifies(
                types@,
                info.memory_type_index as int,
                requirements.memory_type_bits,
                properties,
            )
            &&& forall|j: int|
                0 <= j < info.memory_type_index ==> !type_qualifies(
                    types@,
                    j,
                    requirements.memory_type_bits,
                    properties,
                )
        },
        r matches Err(e) ==> e == (MemoryTypeError {
            type_filter: requirements.memory_type_bits,
            properties,
        }),
{
    match find_memory_type(types, requirements.memory_type_bits, properties) {
        Ok(index) => Ok(
            AllocationPlan {
                allocation_size: requirements.size,
                memory_type_index: index,
                bind_offset: BIND_OFFSET,
            },
        ),
        Err(e) => Err(e),
    }
}

/// The memory a request is served from offers every property asked for, and
/// its bit is set in the mask of types that the requirement allows.
pub proof fn lemma_chosen_type_meets_request(
    types: Seq<MemoryType>,
    index: int,
    type_filter: u32,
    properties: u32,
)
    requires
        type_qualifies(types, index, type_filter, properties),
    ensures
        0 <= index < types.len(),
        index < MAX_MEMORY_TYPES,
        types[index].property_flags & properties == properties,
        type_filter & (1u32 << (index as u32)) != 0,
{
}

/// Whether the record owns a buffer or an image.
#[derive(Clone, Copy, Debug, PartialEq, Eq, Structural)]
pub enum ResourceKind {
    Buffer,
    Image,
}

/// A buffer or an image together with the memory block behind it. The record
/// is the only owner of both: it cannot be copied, and the handles leave it
/// only when it is taken apart to be destroyed.
#[derive(Debug)]
pub struct MemoryResource {
    kind: ResourceKind,
    handle: u64,
    memory: u64,
    size: u64,
}

/// The two handles of a resource that has been given up for destruction.
#[derive(Clone, Copy, Debug, PartialEq, Eq, Structural)]
pub struct ReleasedResource {
    pub kind: ResourceKind,
    pub handle: u64,
    pub memory: u64,
}

impl MemoryResource {
    pub closed spec fn spec_kind(&self) -> ResourceKind {
        self.kind
    }

    pub closed spec fn spec_handle(&self) -> u64 {
        self.handle
    }

    pub closed spec fn spec_memory(&self) -> u64 {
        self.memory
    }

    pub closed spec fn spec_size(&self) -> u64 {
        self.size
    }

    /// Records that `handle` is bound to the block `memory` of
    /// `allocation.allocation_size` bytes.
    pub fn new(kind: ResourceKind, handle: u64, memory: u64, allocation: AllocationPlan) -> (r:
        Self)
        ensures
            r.spec_kind() == kind,
            r.spec_handle() == handle,
            r.spec_memory() == memory,
            r.spec_size() == allocation.allocation_size,
    {
        MemoryResource { kind, handle, memory, size: allocation.allocation_size }
    }

    #[verifier::when_used_as_spec(spec_kind)]
    pub fn kind(&self) -> (k: ResourceKind)
        ensures
            k == self.spec_kind(),
    {
        self.kind
    }

    /// Handle of the buffer or image.
    #[verifier::when_used_as_spec(spec_handle)]
    pub fn handle(&self) -> (h: u64)
        ensures
            h == self.spec_handle(),
    {
        self.handle
    }

    /// Handle of the memory block.
    #[verifier::when_used_as_spec(spec_memory)]
    pub fn memory(&self) -> (m: u64)
        ensures
            m == self.spec_memory(),
    {
        self.memory
    }

    /// Size of the memory block in bytes.
    #[verifier::when_used_as_spec(spec_size)]
    pub fn size(&self) -> (n: u64)
        ensures
            n == self.spec_size(),
    {
        self.size
    }

    /// Gives the record up and hands out what has to be destroyed.
    pub fn release(self) -> (parts: ReleasedResource)
        ensures
            parts == (ReleasedResource {
                kind: self.spec_kind(),
                handle: self.spec_handle(),
                memory: self.spec_memory(),
            }),
    {
        ReleasedResource { kind: self.kind, handle: self.handle, memory: self.memory }
    }
}

} // verus!
