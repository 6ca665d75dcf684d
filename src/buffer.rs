use vstd::prelude::*;
use core::marker::PhantomData;
use ash::vk;
use crate::memory::{
    find_memorytype_index, memory_type_suitable, MemoryProperties, MemoryRequirements,
    HOST_COHERENT, HOST_VISIBLE,
};

verus! {

/// How queue families may share a buffer.
#[derive(Clone, Copy, Debug, PartialEq, Eq)]
pub enum SharingMode {
    Exclusive,
    Concurrent,
}

/// Buffer features that this layer does not offer.
#[derive(Clone, Copy, Debug, PartialEq, Eq)]
pub enum BufferFeature {
    ConcurrentSharing,
    SparseBinding,
    SparseResidency,
}

/// Why a buffer could not be configured or built.
#[derive(Clone, Copy, Debug, PartialEq, Eq)]
pub enum BufferError {
    /// `usage` or a sharing mode was not chosen before `build`.
    MissingConfiguration,
    /// A feature was requested that is not implemented.
    Unimplemented(BufferFeature),
    /// The content's byte size does not fit in a device size.
    SizeOverflow,
    /// No memory type is both allowed and host-visible and host-coherent.
    NoSuitableMemoryType,
}

/// The flags that a mapped, host-written buffer needs of its memory.
pub open spec fn host_upload_flags() -> u32 {
    HOST_VISIBLE | HOST_COHERENT
}

/// Byte size of `len` elements of `T`.
pub open spec fn byte_size<T>(len: nat) -> int {
    (len * vstd::layout::size_of::<T>()) as int
}

/// What the buffer object is created with.
#[derive(Clone, Copy, Debug, PartialEq, Eq)]
pub struct BufferCreateInfo {
    pub size: u64,
    pub usage: u32,
    pub sharing_mode: SharingMode,
    pub flags: u32,
}

/// What the backing allocation is made with.
#[derive(Clone, Copy, Debug, PartialEq, Eq)]
pub struct MemoryAllocateInfo {
    pub allocation_size: u64,
    pub memory_type_index: u32,
}

/// A buffer of `len` elements of `InnerT` with its bound memory.
pub struct VulkanBuffer<InnerT> {
    buffer_memory: vk::DeviceMemory,
    buffer: vk::Buffer,
    len: usize,
    size: u64,
    _phantom: PhantomData<InnerT>,
}

impl<InnerT> VulkanBuffer<InnerT> {
    #[verifier::type_invariant]
    spec fn size_matches(&self) -> bool {
        self.size as int == byte_size::<InnerT>(self.len as nat)
    }

    pub closed spec fn spec_len(&self) -> usize {
        self.len
    }

    pub closed spec fn spec_size(&self) -> u64 {
        self.size
    }

    pub closed spec fn spec_buffer(&self) -> vk::Buffer {
        self.buffer
    }

    pub closed spec fn spec_memory(&self) -> vk::DeviceMemory {
        self.buffer_memory
    }

    pub fn builder(memory_properties: &MemoryProperties) -> (r: VulkanBufferBuilder<'_, InnerT>)
        ensures
            r.usage is None,
            r.sharing_mode is None,
            r.create_flags == 0,
            r.memory_properties == memory_properties,
    {
        VulkanBufferBuilder::new(memory_properties)
    }

    pub fn get_buffer(&self) -> (r: &vk::Buffer)
        ensures
            *r == self.spec_buffer(),
    {
        &self.buffer
    }

    pub fn get_memory(&self) -> (r: &vk::DeviceMemory)
        ensures
            *r == self.spec_memory(),
    {
        &self.buffer_memory
    }

    /// Number of elements held.
    pub fn len(&self) -> (r: usize)
        ensures
            r == self.spec_len(),
    {
        self.len
    }

    /// Byte size of the buffer: the element count times the element size.
    pub fn size(&self) -> (r: u64)
        ensures
            r == self.spec_size(),
            r as int == byte_size::<InnerT>(self.spec_len() as nat),
    {
        proof {
            use_type_invariant(self);
        }
        self.size
    }

    /// Gives up the buffer object and its memory, to be released together.
    pub fn into_parts(self) -> (r: (vk::Buffer, vk::DeviceMemory))
        ensures
            r == (self.spec_buffer(), self.spec_memory()),
    {
        (self.buffer, self.buffer_memory)
    }
}

/// Fluent configuration of a buffer, checked at `build`.
pub struct VulkanBufferBuilder<'a, InnerT> {
    pub memory_properties: &'a MemoryProperties,
    pub usage: Option<u32>,
    pub sharing_mode: Option<SharingMode>,
    pub create_flags: u32,
    pub element: PhantomData<InnerT>,
}

impl<'a, InnerT> VulkanBufferBuilder<'a, InnerT> {
    pub fn new(memory_properties: &'a MemoryProperties) -> (r: Self)
        ensures
            r.usage is None,
            r.sharing_mode is None,
            r.create_flags == 0,
            r.memory_properties == memory_properties,
    {
        VulkanBufferBuilder {
            memory_properties,
            usage: None,
            sharing_mode: None,
            create_flags: 0,
            element: PhantomData,
        }
    }

    pub fn exclusive(self) -> (r: Self)
        ensures
            r.sharing_mode == Some(SharingMode::Exclusive),
            r.usage == self.usage,
            r.create_flags == self.create_flags,
            r.memory_properties == self.memory_properties,
    {
        VulkanBufferBuilder { sharing_mode: Some(SharingMode::Exclusive), ..self }
    }

    /// Concurrent sharing needs queue-family indices that this layer does
    /// not define, so it is refused at once.
    pub fn concurrent(self) -> (r: Result<Self, BufferError>)
        ensures
            r == Err::<Self, BufferError>(BufferError::Unimplemented(BufferFeature::ConcurrentSharing)),
    {
        Err(BufferError::Unimplemented(BufferFeature::ConcurrentSharing))
    }

    pub fn usage(self, usage: u32) -> (r: Self)
        ensures
            r.usage == Some(usage),
            r.sharing_mode == self.sharing_mode,
            r.create_flags == self.create_flags,
            r.memory_properties == self.memory_properties,
    {
        VulkanBufferBuilder { usage: Some(usage), ..self }
    }

    /// Sparse binding is not implemented, so it is refused at once.
    pub fn sparse_binding(self) -> (r: Result<Self, BufferError>)
        ensures
            r == Err::<Self, BufferError>(BufferError::Unimplemented(BufferFeature::SparseBinding)),
    {
        Err(BufferError::Unimplemented(BufferFeature::SparseBinding))
    }

    /// Sparse residency is not implemented, so it is refused at once.
    pub fn sparse_residency(self) -> (r: Result<Self, BufferError>)
        ensures
            r == Err::<Self, BufferError>(BufferError::Unimplemented(BufferFeature::SparseResidency)),
    {
        Err(BufferError::Unimplemented(BufferFeature::SparseResidency))
    }

    /// Checks the configuration and fixes what the buffer for `content` is
    /// created with. Fails before any device work when the usage or the
    /// sharing mode is missing.
    pub fn build(self, content: &[InnerT]) -> (r: Result<PendingBuffer<'a, InnerT>, BufferError>)
        ensures
            (self.usage is None || self.sharing_mode is None) ==> r == Err::<
                PendingBuffer<'a, InnerT>,
                BufferError,
            >(BufferError::MissingConfiguration),
            (self.usage is Some && self.sharing_mode is Some) ==> {
                if byte_size::<InnerT>(content@.len()) <= u64::MAX {
                    &&& r is Ok
                    &&& r->Ok_0.len == content@.len()
                    &&& r->Ok_0.memory_properties == self.memory_properties
                    &&& r->Ok_0.create_info == (BufferCreateInfo {
                        size: byte_size::<InnerT>(content@.len()) as u64,
                        usage: self.usage->Some_0,
                        sharing_mode: self.sharing_mode->Some_0,
                        flags: self.create_flags,
                    })
                } else {
                    r == Err::<PendingBuffer<'a, InnerT>, BufferError>(BufferError::SizeOverflow)
                }
            },
    {
        let (usage, sharing_mode) = match (self.usage, self.sharing_mode) {
            (Some(u), Some(s)) => (u, s),
            _ => {
                return Err(BufferError::MissingConfiguration);
            },
        };
        let stride = core::mem::size_of::<InnerT>();
        let len = content.len();
        let size: u64 = match (len as u64).checked_mul(stride as u64) {
            Some(s) => s,
            _ => {
                return Err(BufferError::SizeOverflow);
            },
        };
        Ok(
            PendingBuffer {
                memory_properties: self.memory_properties,
                create_info: BufferCreateInfo {
                    size,
                    usage,
                    sharing_mode,
                    flags: self.create_flags,
                },
                len,
                element: PhantomData,
            },
        )
    }
}

/// A buffer whose configuration has been checked and whose creation info
/// is fixed, waiting for its device objects.
pub struct PendingBuffer<'a, InnerT> {
    pub memory_properties: &'a MemoryProperties,
    pub create_info: BufferCreateInfo,
    pub len: usize,
    pub element: PhantomData<InnerT>,
}

impl<'a, InnerT> PendingBuffer<'a, InnerT> {
    pub open spec fn wf(&self) -> bool {
        self.create_info.size as int == byte_size::<InnerT>(self.len as nat)
    }

    /// Chooses the allocation for the buffer's memory requirements: their
    /// size, at the lowest allowed slot that is host-visible and
    /// host-coherent.
    pub fn allocate_info(&self, memory_req: &MemoryRequirements) -> (r: Result<
        MemoryAllocateInfo,
        BufferError,
    >)
        ensures
            match r {
                Ok(info) => {
                    &&& info.allocation_size == memory_req.size
                    &&& memory_type_suitable(
                        memory_req.memory_type_bits,
                        self.memory_properties.memory_types@,
                        host_upload_flags(),
                        info.memory_type_index as int,
                    )
                    &&& forall|j: int|
                        0 <= j < info.memory_type_index ==> !memory_type_suitable(
                            memory_req.memory_type_bits,
                            self.memory_properties.memory_types@,
                            host_upload_flags(),
                            j,
                        )
                },
                Err(e) => {
                    &&& e == BufferError::NoSuitableMemoryType
                    &&& forall|j: int|
                        !memory_type_suitable(
                            memory_req.memory_type_bits,
                            self.memory_properties.memory_types@,
                            host_upload_flags(),
                            j,
                        )
                },
            },
    {
        match find_memorytype_index(memory_req, self.memory_properties, HOST_VISIBLE | HOST_COHERENT) {
            Some(i) => Ok(MemoryAllocateInfo { allocation_size: memory_req.size, memory_type_index: i }),
            None => Err(BufferError::NoSuitableMemoryType),
        }
    }

    /// Takes ownership of the created buffer object and its bound memory.
    pub fn finish(self, buffer: vk::Buffer, buffer_memory: vk::DeviceMemory) -> (r: VulkanBuffer<InnerT>)
        requires
            self.wf(),
        ensures
            r.spec_len() == self.len,
            r.spec_size() == self.create_info.size,
            r.spec_buffer() == buffer,
            r.spec_memory() == buffer_memory,
    {
        VulkanBuffer {
            buffer_memory,
            buffer,
            len: self.len,
            size: self.create_info.size,
            _phantom: PhantomData,
        }
    }
}

} // verus!
