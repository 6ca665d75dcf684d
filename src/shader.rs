use vstd::prelude::*;
use ash::vk;

verus! {

/// Number of stage slots a shader set can hold.
pub const MAX_SHADER_STAGES: usize = 4;

/// The first word of every SPIR-V module.
pub const SPIRV_MAGIC: u32 = 0x0723_0203;

/// The pipeline stage a shader module runs in.
#[derive(Clone, Copy, Debug, PartialEq, Eq)]
pub enum ShaderStage {
    Vertex,
    Fragment,
}

/// Why a shader set could not be assembled.
#[derive(Clone, Copy, Debug, PartialEq, Eq)]
pub enum ShaderError {
    /// The stage index is not below the number of slots.
    TooManyStages,
    /// The bytecode is not a sequence of SPIR-V words.
    MalformedBytecode,
    /// `build` was called before any stage was set.
    NoStages,
    /// A slot below the occupied count was never filled.
    StageGap,
}

/// One stage of a pipeline: a module, its stage and the entry point `main`.
#[derive(Clone, Copy)]
pub struct ShaderStageInfo {
    pub module: vk::ShaderModule,
    pub stage: ShaderStage,
}

impl ShaderStageInfo {
    /// The name of the function each stage enters at.
    pub fn entry_point_name(&self) -> (r: &'static str)
        ensures
            r@ == "main"@,
    {
        proof {
            reveal_strlit("main");
        }
        "main"
    }
}

/// The little-endian word at `i` of `b`.
pub open spec fn le_word(b: Seq<u8>, i: int) -> u32 {
    (b[4 * i] as int + b[4 * i + 1] as int * 0x100 + b[4 * i + 2] as int * 0x1_0000 + b[4 * i
        + 3] as int * 0x100_0000) as u32
}

/// The big-endian word at `i` of `b`.
pub open spec fn be_word(b: Seq<u8>, i: int) -> u32 {
    (b[4 * i + 3] as int + b[4 * i + 2] as int * 0x100 + b[4 * i + 1] as int * 0x1_0000 + b[4
        * i] as int * 0x100_0000) as u32
}

/// `b` is SPIR-V bytecode: whole words, led by the magic number in either
/// byte order.
pub open spec fn is_spirv(b: Seq<u8>) -> bool {
    &&& b.len() % 4 == 0
    &&& b.len() >= 4
    &&& (le_word(b, 0) == SPIRV_MAGIC || be_word(b, 0) == SPIRV_MAGIC)
}

/// The words of SPIR-V bytecode `b`, read in the byte order its magic
/// number shows.
pub open spec fn spirv_words(b: Seq<u8>) -> Seq<u32> {
    Seq::new(
        (b.len() / 4) as nat,
        |i: int|
            if le_word(b, 0) == SPIRV_MAGIC {
                le_word(b, i)
            } else {
                be_word(b, i)
            },
    )
}

/// Relies on ash::util::read_spv: over an in-memory reader it fails exactly
/// when the length is not a whole number of words or the first word is not
/// the magic number in either byte order, and otherwise returns the words,
/// swapped where the magic number shows the other byte order.
#[verifier::external_body]
fn read_spv_words(bytes: &[u8]) -> (r: Option<Vec<u32>>)
    ensures
        r is Some <==> is_spirv(bytes@),
        r is Some ==> r->Some_0@ == spirv_words(bytes@),
{
    ash::util::read_spv(&mut std::io::Cursor::new(bytes)).ok()
}

/// Reads shader bytecode into the code words that module creation takes.
pub fn load_spirv(bytes: &[u8]) -> (r: Result<Vec<u32>, ShaderError>)
    ensures
        match r {
            Ok(words) => is_spirv(bytes@) && words@ == spirv_words(bytes@),
            Err(e) => !is_spirv(bytes@) && e == ShaderError::MalformedBytecode,
        },
{
    match read_spv_words(bytes) {
        Some(words) => Ok(words),
        None => Err(ShaderError::MalformedBytecode),
    }
}

/// The slots after storing `info` at `idx`, and the widened occupied count.
pub open spec fn put_stage(
    slots: Seq<Option<ShaderStageInfo>>,
    n: nat,
    idx: int,
    info: ShaderStageInfo,
) -> (Seq<Option<ShaderStageInfo>>, nat) {
    (slots.update(idx, Some(info)), if idx + 1 > n { (idx + 1) as nat } else { n })
}

/// Every slot below `n` is filled.
pub open spec fn contiguous(slots: Seq<Option<ShaderStageInfo>>, n: nat) -> bool {
    forall|i: int| 0 <= i < n ==> (#[trigger] slots[i]) is Some
}

/// The stages of the first `n` slots, in slot order.
pub open spec fn occupied_prefix(slots: Seq<Option<ShaderStageInfo>>, n: nat) -> Seq<
    ShaderStageInfo,
> {
    Seq::new(n, |i: int| slots[i]->Some_0)
}

/// What `build` yields for these slots and occupied count: the occupied
/// prefix when it has no gap, nothing otherwise.
pub open spec fn build_outcome(slots: Seq<Option<ShaderStageInfo>>, n: nat) -> Option<
    Seq<ShaderStageInfo>,
> {
    if n > 0 && contiguous(slots, n) {
        Some(occupied_prefix(slots, n))
    } else {
        None
    }
}

/// The slots of a fresh builder.
pub open spec fn free_slots() -> Seq<Option<ShaderStageInfo>> {
    Seq::new(MAX_SHADER_STAGES as nat, |i: int| None::<ShaderStageInfo>)
}

/// Stages set at slots 1 and 0 of a fresh builder, in either order, build
/// into the two stages in slot order; a stage set at slot 2 alone leaves a
/// gap and does not build.
pub proof fn lemma_stage_order_irrelevant(a: ShaderStageInfo, b: ShaderStageInfo)
    ensures
        ({
            let (s1, n1) = put_stage(free_slots(), 0, 1, b);
            let (s2, n2) = put_stage(s1, n1, 0, a);
            build_outcome(s2, n2) == Some(seq![a, b])
        }),
        ({
            let (s1, n1) = put_stage(free_slots(), 0, 0, a);
            let (s2, n2) = put_stage(s1, n1, 1, b);
            build_outcome(s2, n2) == Some(seq![a, b])
        }),
        ({
            let (s1, n1) = put_stage(free_slots(), 0, 2, a);
            build_outcome(s1, n1) is None
        }),
{
    let (s1, n1) = put_stage(free_slots(), 0, 1, b);
    let (s2, n2) = put_stage(s1, n1, 0, a);
    assert(contiguous(s2, n2));
    assert(occupied_prefix(s2, n2) =~= seq![a, b]);
    let (t1, m1) = put_stage(free_slots(), 0, 0, a);
    let (t2, m2) = put_stage(t1, m1, 1, b);
    assert(contiguous(t2, m2));
    assert(occupied_prefix(t2, m2) =~= seq![a, b]);
    let (u1, k1) = put_stage(free_slots(), 0, 2, a);
    assert(u1[0] is None);
}

/// Collects shader stages by slot index; gaps are only refused at `build`.
pub struct VulkanShaderBuilder {
    slots: Vec<Option<ShaderStageInfo>>,
    n_stages: usize,
}

impl VulkanShaderBuilder {
    pub closed spec fn spec_slots(&self) -> Seq<Option<ShaderStageInfo>> {
        self.slots@
    }

    pub closed spec fn spec_n_stages(&self) -> nat {
        self.n_stages as nat
    }

    /// The table has its fixed size, and nothing lies past the occupied count.
    pub closed spec fn wf(&self) -> bool {
        &&& self.slots@.len() == MAX_SHADER_STAGES
        &&& self.n_stages <= MAX_SHADER_STAGES
        &&& forall|i: int| self.n_stages <= i < MAX_SHADER_STAGES ==> (#[trigger] self.slots@[i]) is None
    }

    pub fn n_stages(&self) -> (r: usize)
        ensures
            r == self.spec_n_stages(),
    {
        self.n_stages
    }

    pub fn check_stage_idx(stage_idx: usize) -> (r: Result<(), ShaderError>)
        ensures
            r is Ok <==> stage_idx < MAX_SHADER_STAGES,
            r is Err ==> r->Err_0 == ShaderError::TooManyStages,
    {
        if stage_idx < MAX_SHADER_STAGES {
            Ok(())
        } else {
            Err(ShaderError::TooManyStages)
        }
    }

    fn put_info_unchecked(&mut self, stage_idx: usize, info: ShaderStageInfo)
        requires
            old(self).wf(),
            stage_idx < MAX_SHADER_STAGES,
        ensures
            final(self).wf(),
            (final(self).spec_slots(), final(self).spec_n_stages()) == put_stage(
                old(self).spec_slots(),
                old(self).spec_n_stages(),
                stage_idx as int,
                info,
            ),
    {
        self.slots.set(stage_idx, Some(info));
        if stage_idx + 1 > self.n_stages {
            self.n_stages = stage_idx + 1;
        }
    }

    fn with_stage(self, stage_idx: usize, module: vk::ShaderModule, stage: ShaderStage) -> (r: Result<Self, ShaderError>)
        requires
            self.wf(),
        ensures
            match r {
                Ok(b) => {
                    &&& stage_idx < MAX_SHADER_STAGES
                    &&& b.wf()
                    &&& (b.spec_slots(), b.spec_n_stages()) == put_stage(
                        self.spec_slots(),
                        self.spec_n_stages(),
                        stage_idx as int,
                        ShaderStageInfo { module, stage },
                    )
                },
                Err(e) => stage_idx >= MAX_SHADER_STAGES && e == ShaderError::TooManyStages,
            },
    {
        Self::check_stage_idx(stage_idx)?;
        let mut b = self;
        b.put_info_unchecked(stage_idx, ShaderStageInfo { module, stage });
        Ok(b)
    }

    /// Puts a vertex stage running `module` in slot `stage_idx`.
    pub fn with_vertex_shader(self, stage_idx: usize, module: vk::ShaderModule) -> (r: Result<Self, ShaderError>)
        requires
            self.wf(),
        ensures
            match r {
                Ok(b) => {
                    &&& stage_idx < MAX_SHADER_STAGES
                    &&& b.wf()
                    &&& (b.spec_slots(), b.spec_n_stages()) == put_stage(
                        self.spec_slots(),
                        self.spec_n_stages(),
                        stage_idx as int,
                        ShaderStageInfo { module, stage: ShaderStage::Vertex },
                    )
                },
                Err(e) => stage_idx >= MAX_SHADER_STAGES && e == ShaderError::TooManyStages,
            },
    {
        self.with_stage(stage_idx, module, ShaderStage::Vertex)
    }

    /// Puts a fragment stage running `module` in slot `stage_idx`.
    pub fn with_fragment_shader(self, stage_idx: usize, module: vk::ShaderModule) -> (r: Result<Self, ShaderError>)
        requires
            self.wf(),
        ensures
            match r {
                Ok(b) => {
                    &&& stage_idx < MAX_SHADER_STAGES
                    &&& b.wf()
                    &&& (b.spec_slots(), b.spec_n_stages()) == put_stage(
                        self.spec_slots(),
                        self.spec_n_stages(),
                        stage_idx as int,
                        ShaderStageInfo { module, stage: ShaderStage::Fragment },
                    )
                },
                Err(e) => stage_idx >= MAX_SHADER_STAGES && e == ShaderError::TooManyStages,
            },
    {
        self.with_stage(stage_idx, module, ShaderStage::Fragment)
    }

    /// Checks that the occupied slots form the range `[0, n_stages)` and
    /// hands out their stages in slot order.
    pub fn build(self) -> (r: Result<VulkanShader, ShaderError>)
        requires
            self.wf(),
        ensures
            self.spec_n_stages() == 0 ==> r == Err::<VulkanShader, ShaderError>(ShaderError::NoStages),
            self.spec_n_stages() > 0 && !contiguous(self.spec_slots(), self.spec_n_stages()) ==> r
                == Err::<VulkanShader, ShaderError>(ShaderError::StageGap),
            self.spec_n_stages() > 0 && contiguous(self.spec_slots(), self.spec_n_stages()) ==> {
                &&& r is Ok
                &&& r->Ok_0.wf()
                &&& r->Ok_0.spec_stages() == occupied_prefix(self.spec_slots(), self.spec_n_stages())
            },
            match r {
                Ok(shader) => build_outcome(self.spec_slots(), self.spec_n_stages()) == Some(
                    shader.spec_stages(),
                ),
                Err(_) => build_outcome(self.spec_slots(), self.spec_n_stages()) is None,
            },
    {
        if self.n_stages == 0 {
            return Err(ShaderError::NoStages);
        }
        let mut stages: Vec<ShaderStageInfo> = Vec::new();
        let mut i: usize = 0;
        while i < self.n_stages
            invariant
                self.wf(),
                i <= self.n_stages,
                contiguous(self.slots@, i as nat),
                stages@ == occupied_prefix(self.slots@, i as nat),
            decreases self.n_stages - i,
        {
            match self.slots[i] {
                Some(info) => {
                    stages.push(info);
                },
                None => {
                    return Err(ShaderError::StageGap);
                },
            }
            i = i + 1;
            assert(stages@ =~= occupied_prefix(self.slots@, i as nat));
        }
        Ok(VulkanShader { stages })
    }
}

/// An assembled, gap-free sequence of shader stages.
pub struct VulkanShader {
    stages: Vec<ShaderStageInfo>,
}

impl VulkanShader {
    pub closed spec fn spec_stages(&self) -> Seq<ShaderStageInfo> {
        self.stages@
    }

    pub closed spec fn wf(&self) -> bool {
        0 < self.stages@.len() <= MAX_SHADER_STAGES
    }

    /// An empty builder: every slot free.
    pub fn builder() -> (r: VulkanShaderBuilder)
        ensures
            r.wf(),
            r.spec_n_stages() == 0,
            r.spec_slots() == free_slots(),
    {
        let mut slots: Vec<Option<ShaderStageInfo>> = Vec::new();
        let mut i: usize = 0;
        while i < MAX_SHADER_STAGES
            invariant
                i <= MAX_SHADER_STAGES,
                slots@ == Seq::new(i as nat, |j: int| None::<ShaderStageInfo>),
            decreases MAX_SHADER_STAGES - i,
        {
            slots.push(None);
            i = i + 1;
            assert(slots@ =~= Seq::new(i as nat, |j: int| None::<ShaderStageInfo>));
        }
        VulkanShaderBuilder { slots, n_stages: 0 }
    }

    /// The stages in slot order, for pipeline creation and release.
    pub fn shader_stage_create_infos(&self) -> (r: &[ShaderStageInfo])
        ensures
            r@ == self.spec_stages(),
    {
        self.stages.as_slice()
    }

    pub fn n_stages(&self) -> (r: usize)
        ensures
            r == self.spec_stages().len(),
    {
        self.stages.len()
    }

    /// Replaces the stage at `stage_idx`, or appends one at the end; a
    /// slot further on would leave a gap.
    pub fn put_into(&mut self, stage_idx: usize, info: ShaderStageInfo) -> (r: Result<(), ShaderError>)
        requires
            old(self).wf(),
        ensures
            final(self).wf(),
            stage_idx >= MAX_SHADER_STAGES ==> r == Err::<(), ShaderError>(ShaderError::TooManyStages)
                && final(self).spec_stages() == old(self).spec_stages(),
            stage_idx < MAX_SHADER_STAGES && stage_idx > old(self).spec_stages().len() ==> r == Err::<
                (),
                ShaderError,
            >(ShaderError::StageGap) && final(self).spec_stages() == old(self).spec_stages(),
            stage_idx < MAX_SHADER_STAGES && stage_idx < old(self).spec_stages().len() ==> r is Ok
                && final(self).spec_stages() == old(self).spec_stages().update(stage_idx as int, info),
            stage_idx < MAX_SHADER_STAGES && stage_idx == old(self).spec_stages().len() ==> r is Ok
                && final(self).spec_stages() == old(self).spec_stages().push(info),
    {
        if stage_idx >= MAX_SHADER_STAGES {
            return Err(ShaderError::TooManyStages);
        }
        if stage_idx > self.stages.len() {
            return Err(ShaderError::StageGap);
        }
        if stage_idx == self.stages.len() {
            self.stages.push(info);
        } else {
            self.stages.set(stage_idx, info);
        }
        Ok(())
    }
}

} // verus!
