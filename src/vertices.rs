use vstd::prelude::*;
use core::marker::PhantomData;
use ash::vk;

verus! {

/// How often a binding advances to its next record.
#[derive(Clone, Copy, Debug, PartialEq, Eq)]
pub enum VertexInputRate {
    Vertex,
    Instance,
}

/// The hardware format of one attribute, named by its shader type.
#[derive(Clone, Copy, Debug, PartialEq, Eq)]
pub enum AttributeFormat {
    Vec4,
    Vec3,
    Vec2,
    Float,
    Int,
    IVec2,
    IVec3,
    IVec4,
}

/// Why a layout could not be made.
#[derive(Clone, Copy, Debug, PartialEq, Eq)]
pub enum VertexLayoutError {
    /// The record type is wider than a binding stride can say.
    RecordTooLarge,
}

/// The one binding of a layout: its index, record stride and input rate.
#[derive(Clone, Copy, Debug, PartialEq, Eq)]
pub struct VertexInputBinding {
    pub binding: u32,
    pub stride: u32,
    pub input_rate: VertexInputRate,
}

/// One field of a vertex record as the shader sees it.
#[derive(Clone, Copy, Debug, PartialEq, Eq)]
pub struct VertexInputAttribute {
    pub location: u32,
    pub binding: u32,
    pub format: AttributeFormat,
    pub offset: u32,
}

/// The attribute appended as the next one after `n` others.
pub open spec fn next_attribute(n: nat, format: AttributeFormat, offset: u32) -> VertexInputAttribute {
    VertexInputAttribute { location: n as u32, binding: 0, format, offset }
}

/// Attribute `i` sits at location `i`, on binding 0.
pub open spec fn locations_in_order(attrs: Seq<VertexInputAttribute>) -> bool {
    forall|i: int|
        0 <= i < attrs.len() ==> (#[trigger] attrs[i]).location == i && attrs[i].binding == 0
}

/// What pipeline creation reads of a layout.
pub struct VertexInputState<'a> {
    pub binding: VertexInputBinding,
    pub attributes: &'a [VertexInputAttribute],
}

/// The input layout of a vertex record type: one binding and the
/// attributes in the order they were added.
pub struct VulkanVertices<VertexT> {
    binding: VertexInputBinding,
    attributes: Vec<VertexInputAttribute>,
    next_shader_location: u32,
    topology: Option<vk::PrimitiveTopology>,
    record: PhantomData<VertexT>,
}

impl<VertexT> VulkanVertices<VertexT> {
    pub closed spec fn spec_binding(&self) -> VertexInputBinding {
        self.binding
    }

    pub closed spec fn spec_attributes(&self) -> Seq<VertexInputAttribute> {
        self.attributes@
    }

    pub closed spec fn spec_topology(&self) -> Option<vk::PrimitiveTopology> {
        self.topology
    }

    /// Locations count up from zero in the order of addition.
    pub closed spec fn wf(&self) -> bool {
        &&& locations_in_order(self.attributes@)
        &&& self.next_shader_location == self.attributes@.len()
        &&& self.binding.binding == 0
        &&& self.binding.stride == vstd::layout::size_of::<VertexT>()
    }

    /// A layout whose binding advances once per vertex.
    pub fn new_vertex_data() -> (r: Result<Self, VertexLayoutError>)
        ensures
            match r {
                Ok(v) => {
                    &&& v.wf()
                    &&& v.spec_binding() == (VertexInputBinding {
                        binding: 0,
                        stride: vstd::layout::size_of::<VertexT>() as u32,
                        input_rate: VertexInputRate::Vertex,
                    })
                    &&& v.spec_attributes().len() == 0
                    &&& v.spec_topology() is None
                },
                Err(e) => vstd::layout::size_of::<VertexT>() > u32::MAX && e
                    == VertexLayoutError::RecordTooLarge,
            },
            r is Ok <==> vstd::layout::size_of::<VertexT>() <= u32::MAX,
    {
        Self::new(VertexInputRate::Vertex)
    }

    /// A layout whose binding advances once per instance.
    pub fn new_instanced_data() -> (r: Result<Self, VertexLayoutError>)
        ensures
            match r {
                Ok(v) => {
                    &&& v.wf()
                    &&& v.spec_binding() == (VertexInputBinding {
                        binding: 0,
                        stride: vstd::layout::size_of::<VertexT>() as u32,
                        input_rate: VertexInputRate::Instance,
                    })
                    &&& v.spec_attributes().len() == 0
                    &&& v.spec_topology() is None
                },
                Err(e) => vstd::layout::size_of::<VertexT>() > u32::MAX && e
                    == VertexLayoutError::RecordTooLarge,
            },
            r is Ok <==> vstd::layout::size_of::<VertexT>() <= u32::MAX,
    {
        Self::new(VertexInputRate::Instance)
    }

    fn new(input_rate: VertexInputRate) -> (r: Result<Self, VertexLayoutError>)
        ensures
            match r {
                Ok(v) => {
                    &&& v.wf()
                    &&& v.spec_binding() == (VertexInputBinding {
                        binding: 0,
                        stride: vstd::layout::size_of::<VertexT>() as u32,
                        input_rate,
                    })
                    &&& v.spec_attributes().len() == 0
                    &&& v.spec_topology() is None
                },
                Err(e) => vstd::layout::size_of::<VertexT>() > u32::MAX && e
                    == VertexLayoutError::RecordTooLarge,
            },
    {
        let size = core::mem::size_of::<VertexT>();
        if size as u64 > u32::MAX as u64 {
            return Err(VertexLayoutError::RecordTooLarge);
        }
        let stride = size as u32;
        Ok(
            VulkanVertices {
                binding: VertexInputBinding { binding: 0, stride, input_rate },
                attributes: Vec::new(),
                next_shader_location: 0,
                topology: None,
                record: PhantomData,
            },
        )
    }

    pub fn with_topology(self, topology: vk::PrimitiveTopology) -> (r: Self)
        requires
            self.wf(),
        ensures
            r.wf(),
            r.spec_topology() == Some(topology),
            r.spec_binding() == self.spec_binding(),
            r.spec_attributes() == self.spec_attributes(),
    {
        VulkanVertices { topology: Some(topology), ..self }
    }

    /// Appends an attribute at the next free location, on binding 0.
    pub fn add_attribute(self, format: AttributeFormat, offset: u32) -> (r: Self)
        requires
            self.wf(),
            self.spec_attributes().len() < u32::MAX,
        ensures
            r.wf(),
            r.spec_attributes() == self.spec_attributes().push(
                next_attribute(self.spec_attributes().len(), format, offset),
            ),
            r.spec_binding() == self.spec_binding(),
            r.spec_topology() == self.spec_topology(),
    {
        let mut s = self;
        s.attributes.push(
            VertexInputAttribute { location: s.next_shader_location, binding: 0, format, offset },
        );
        s.next_shader_location = s.next_shader_location + 1;
        s
    }

    pub fn add_vec4_attribute(self, offset: u32) -> (r: Self)
        requires
            self.wf(),
            self.spec_attributes().len() < u32::MAX,
        ensures
            r.wf(),
            r.spec_attributes() == self.spec_attributes().push(
                next_attribute(self.spec_attributes().len(), AttributeFormat::Vec4, offset),
            ),
            r.spec_binding() == self.spec_binding(),
            r.spec_topology() == self.spec_topology(),
    {
        self.add_attribute(AttributeFormat::Vec4, offset)
    }

    pub fn add_vec3_attribute(self, offset: u32) -> (r: Self)
        requires
            self.wf(),
            self.spec_attributes().len() < u32::MAX,
        ensures
            r.wf(),
            r.spec_attributes() == self.spec_attributes().push(
                next_attribute(self.spec_attributes().len(), AttributeFormat::Vec3, offset),
            ),
            r.spec_binding() == self.spec_binding(),
            r.spec_topology() == self.spec_topology(),
    {
        self.add_attribute(AttributeFormat::Vec3, offset)
    }

    pub fn add_vec2_attribute(self, offset: u32) -> (r: Self)
        requires
            self.wf(),
            self.spec_attributes().len() < u32::MAX,
        ensures
            r.wf(),
            r.spec_attributes() == self.spec_attributes().push(
                next_attribute(self.spec_attributes().len(), AttributeFormat::Vec2, offset),
            ),
            r.spec_binding() == self.spec_binding(),
            r.spec_topology() == self.spec_topology(),
    {
        self.add_attribute(AttributeFormat::Vec2, offset)
    }

    pub fn add_float_attribute(self, offset: u32) -> (r: Self)
        requires
            self.wf(),
            self.spec_attributes().len() < u32::MAX,
        ensures
            r.wf(),
            r.spec_attributes() == self.spec_attributes().push(
                next_attribute(self.spec_attributes().len(), AttributeFormat::Float, offset),
            ),
            r.spec_binding() == self.spec_binding(),
            r.spec_topology() == self.spec_topology(),
    {
        self.add_attribute(AttributeFormat::Float, offset)
    }

    pub fn add_int_attribute(self, offset: u32) -> (r: Self)
        requires
            self.wf(),
            self.spec_attributes().len() < u32::MAX,
        ensures
            r.wf(),
            r.spec_attributes() == self.spec_attributes().push(
                next_attribute(self.spec_attributes().len(), AttributeFormat::Int, offset),
            ),
            r.spec_binding() == self.spec_binding(),
            r.spec_topology() == self.spec_topology(),
    {
        self.add_attribute(AttributeFormat::Int, offset)
    }

    pub fn add_ivec2_attribute(self, offset: u32) -> (r: Self)
        requires
            self.wf(),
            self.spec_attributes().len() < u32::MAX,
        ensures
            r.wf(),
            r.spec_attributes() == self.spec_attributes().push(
                next_attribute(self.spec_attributes().len(), AttributeFormat::IVec2, offset),
            ),
            r.spec_binding() == self.spec_binding(),
            r.spec_topology() == self.spec_topology(),
    {
        self.add_attribute(AttributeFormat::IVec2, offset)
    }

    pub fn add_ivec3_attribute(self, offset: u32) -> (r: Self)
        requires
            self.wf(),
            self.spec_attributes().len() < u32::MAX,
        ensures
            r.wf(),
            r.spec_attributes() == self.spec_attributes().push(
                next_attribute(self.spec_attributes().len(), AttributeFormat::IVec3, offset),
            ),
            r.spec_binding() == self.spec_binding(),
            r.spec_topology() == self.spec_topology(),
    {
        self.add_attribute(AttributeFormat::IVec3, offset)
    }

    pub fn add_ivec4_attribute(self, offset: u32) -> (r: Self)
        requires
            self.wf(),
            self.spec_attributes().len() < u32::MAX,
        ensures
            r.wf(),
            r.spec_attributes() == self.spec_attributes().push(
                next_attribute(self.spec_attributes().len(), AttributeFormat::IVec4, offset),
            ),
            r.spec_binding() == self.spec_binding(),
            r.spec_topology() == self.spec_topology(),
    {
        self.add_attribute(AttributeFormat::IVec4, offset)
    }

    /// The binding and every attribute added so far, in order.
    pub fn get_vertex_input_state(&self) -> (r: VertexInputState<'_>)
        ensures
            r.binding == self.spec_binding(),
            r.attributes@ == self.spec_attributes(),
    {
        VertexInputState { binding: self.binding, attributes: self.attributes.as_slice() }
    }

    /// The primitive topology, if one was chosen.
    pub fn get_input_assembly_state(&self) -> (r: Option<vk::PrimitiveTopology>)
        ensures
            r == self.spec_topology(),
    {
        self.topology
    }
}

/// Whatever the offsets, attributes added to a layout take the locations
/// that follow the ones already there, in call order: two added to a fresh
/// layout sit at locations 0 and 1.
pub proof fn lemma_locations_follow_call_order(
    attrs: Seq<VertexInputAttribute>,
    f0: AttributeFormat,
    o0: u32,
    f1: AttributeFormat,
    o1: u32,
)
    requires
        locations_in_order(attrs),
        attrs.len() + 2 <= u32::MAX,
    ensures
        ({
            let after = attrs.push(next_attribute(attrs.len(), f0, o0)).push(
                next_attribute(attrs.len() + 1, f1, o1),
            );
            &&& locations_in_order(after)
            &&& after[attrs.len() as int].location == attrs.len()
            &&& after[attrs.len() as int + 1].location == attrs.len() + 1
        }),
        ({
            let fresh = seq![next_attribute(0, f0, o0), next_attribute(1, f1, o1)];
            fresh[0].location == 0 && fresh[1].location == 1
        }),
{
}

} // verus!
