use vstd::prelude::*;

verus! {

/// Shader stage bit: vertex stage.
pub const STAGE_VERTEX: u32 = 1;
/// Shader stage bit: fragment stage.
pub const STAGE_FRAGMENT: u32 = 2;

/// Size in bytes of a 4x4 matrix of 32-bit floats.
pub const MAT4_BYTES: u32 = 64;

/// Number of transform ranges the terrain layout reserves: view, projection
/// and a second view matrix.
pub const TERRAIN_TRANSFORMS: u32 = 3;

/// Name of the vertex stage entry point of the terrain shader.
pub const VERTEX_ENTRY: &'static str = "vs_main";
/// Name of the fragment stage entry point of the terrain shader.
pub const FRAGMENT_ENTRY: &'static str = "fs_main";

/// A byte range `[start, end)` of per-draw fast parameters read by the stages in `stages`.
#[derive(Clone, Copy, Debug, PartialEq, Eq, Structural)]
pub struct PushConstantRange {
    pub stages: u32,
    pub start: u32,
    pub end: u32,
}

pub open spec fn ranges_overlap(a: PushConstantRange, b: PushConstantRange) -> bool {
    a.stages & b.stages != 0 && a.start < b.end && b.start < a.end
}

/// Each range is well ordered and no two ranges read by a common stage overlap.
pub open spec fn ranges_valid(rs: Seq<PushConstantRange>) -> bool {
    &&& forall|i: int| 0 <= i < rs.len() ==> #[trigger] rs[i].start <= rs[i].end
    &&& forall|i: int, j: int|
        0 <= i < rs.len() && 0 <= j < rs.len() && i != j ==> !ranges_overlap(
            #[trigger] rs[i],
            #[trigger] rs[j],
        )
}

/// The `i`-th of consecutive vertex-stage ranges of `size` bytes each.
pub open spec fn transform_range(i: int, size: int) -> PushConstantRange {
    PushConstantRange { stages: STAGE_VERTEX, start: (i * size) as u32, end: ((i + 1) * size) as u32 }
}

/// Whether no range is reversed and no two ranges of a common stage overlap.
pub fn validate_ranges(rs: &Vec<PushConstantRange>) -> (r: bool)
    ensures
        r == ranges_valid(rs@),
{
    let n = rs.len();
    let mut i: usize = 0;
    while i < n
        invariant
            n == rs@.len(),
            0 <= i <= n,
            forall|k: int| 0 <= k < i ==> #[trigger] rs@[k].start <= rs@[k].end,
            forall|a: int, b: int|
                0 <= a < i && 0 <= b < n && a != b ==> !ranges_overlap(
                    #[trigger] rs@[a],
                    #[trigger] rs@[b],
                ),
        decreases n - i,
    {
        if rs[i].start > rs[i].end {
            return false;
        }
        let mut j: usize = 0;
        while j < n
            invariant
                n == rs@.len(),
                0 <= i < n,
                0 <= j <= n,
                forall|b: int| 0 <= b < j && b != i ==> !ranges_overlap(rs@[i as int], #[trigger] rs@[b]),
            decreases n - j,
        {
            if j != i {
                let a = rs[i];
                let b = rs[j];
                if a.stages & b.stages != 0 && a.start < b.end && b.start < a.end {
                    return false;
                }
            }
            j = j + 1;
        }
        i = i + 1;
    }
    true
}

/// `count` consecutive vertex-stage ranges of `size` bytes each, from offset 0.
pub fn transform_ranges(count: u32, size: u32) -> (r: Vec<PushConstantRange>)
    requires
        count * size <= u32::MAX,
    ensures
        r@.len() == count,
        forall|i: int| 0 <= i < count ==> #[trigger] r@[i] == transform_range(i, size as int),
        ranges_valid(r@),
{
    let mut r: Vec<PushConstantRange> = Vec::new();
    let mut i: u32 = 0;
    while i < count
        invariant
            count * size <= u32::MAX,
            0 <= i <= count,
            r@.len() == i,
            forall|k: int| 0 <= k < i ==> #[trigger] r@[k] == transform_range(k, size as int),
        decreases count - i,
    {
        proof {
            assert((i + 1) * size <= count * size) by (nonlinear_arith)
                requires
                    i + 1 <= count,
            ;
            assert(i * size <= (i + 1) * size) by (nonlinear_arith);
        }
        r.push(PushConstantRange { stages: STAGE_VERTEX, start: i * size, end: (i + 1) * size });
        i = i + 1;
    }
    proof {
        assert forall|a: int, b: int|
            0 <= a < r@.len() && 0 <= b < r@.len() && a != b implies !ranges_overlap(
            #[trigger] r@[a],
            #[trigger] r@[b],
        ) by {
            if a < b {
                assert((a + 1) * size <= b * size) by (nonlinear_arith)
                    requires
                        a + 1 <= b,
                        size >= 0,
                ;
                assert(b * size <= count * size) by (nonlinear_arith)
                    requires
                        b <= count,
                        size >= 0,
                ;
            } else {
                assert((b + 1) * size <= a * size) by (nonlinear_arith)
                    requires
                        b + 1 <= a,
                        size >= 0,
                ;
                assert(a * size <= count * size) by (nonlinear_arith)
                    requires
                        a <= count,
                        size >= 0,
                ;
            }
        }
        assert forall|k: int| 0 <= k < r@.len() implies #[trigger] r@[k].start <= r@[k].end by {
            assert(k * size <= (k + 1) * size) by (nonlinear_arith)
                requires
                    size >= 0,
            ;
            assert((k + 1) * size <= count * size) by (nonlinear_arith)
                requires
                    k + 1 <= count,
                    size >= 0,
            ;
        }
    }
    r
}

#[derive(Clone, Copy, Debug, PartialEq, Eq, Structural)]
pub enum Topology {
    TriangleList,
    TriangleStrip,
    LineList,
    PointList,
}

#[derive(Clone, Copy, Debug, PartialEq, Eq, Structural)]
pub enum FrontFace {
    Ccw,
    Cw,
}

#[derive(Clone, Copy, Debug, PartialEq, Eq, Structural)]
pub enum CullMode {
    Off,
    Front,
    Back,
}

#[derive(Clone, Copy, Debug, PartialEq, Eq, Structural)]
pub enum PolygonMode {
    Fill,
    Line,
    Point,
}

#[derive(Clone, Copy, Debug, PartialEq, Eq, Structural)]
pub enum BlendMode {
    /// Source replaces destination, alpha included.
    Replace,
    AlphaBlending,
}

/// Write mask that writes all four color channels.
pub const COLOR_WRITES_ALL: u32 = 15;

/// A pipeline layout: descriptor-set layouts (counted) and fast-parameter ranges.
#[derive(Clone, Debug, PartialEq, Eq)]
pub struct LayoutDesc {
    pub bind_group_layouts: usize,
    pub push_constant_ranges: Vec<PushConstantRange>,
}

/// The terrain layout's ranges: view, projection and a second view matrix,
/// consecutive, for the vertex stage.
pub open spec fn terrain_ranges() -> Seq<PushConstantRange> {
    Seq::new(TERRAIN_TRANSFORMS as nat, |i: int| transform_range(i, MAT4_BYTES as int))
}

/// The terrain pipeline layout: no descriptor sets and the ranges of
/// `terrain_ranges`.
pub fn terrain_layout() -> (r: LayoutDesc)
    ensures
        r.bind_group_layouts == 0,
        r.push_constant_ranges@ == terrain_ranges(),
        ranges_valid(r.push_constant_ranges@),
{
    let ranges = transform_ranges(TERRAIN_TRANSFORMS, MAT4_BYTES);
    assert(ranges@ =~= terrain_ranges());
    LayoutDesc { bind_group_layouts: 0, push_constant_ranges: ranges }
}

/// Index format of strip primitives.
#[derive(Clone, Copy, Debug, PartialEq, Eq, Structural)]
pub enum IndexFormat {
    Uint16,
    Uint32,
}

/// Sample mask that keeps every sample.
pub const SAMPLE_MASK_ALL: u64 = 0xffff_ffff_ffff_ffff;

/// A graphics pipeline with one shader module and one color target.
#[derive(Clone, Debug, PartialEq, Eq)]
pub struct PipelineDesc {
    pub layout: LayoutDesc,
    /// Handle of the shader module both stages run.
    pub module: u64,
    pub vertex_entry: &'static str,
    /// Number of vertex buffers bound.
    pub vertex_buffers: usize,
    pub fragment_entry: &'static str,
    pub topology: Topology,
    pub strip_index_format: Option<IndexFormat>,
    pub front_face: FrontFace,
    pub cull_mode: CullMode,
    pub polygon_mode: PolygonMode,
    pub unclipped_depth: bool,
    pub conservative: bool,
    pub sample_count: u32,
    pub sample_mask: u64,
    pub alpha_to_coverage: bool,
    pub depth_stencil: bool,
    pub color_format: u32,
    pub blend: BlendMode,
    pub write_mask: u32,
    /// Number of array layers rendered to at once, if multiview.
    pub multiview: Option<u32>,
}

/// `d` is the terrain pipeline running shader module `module` for a color
/// target of format `format`.
pub open spec fn is_terrain_pipeline(d: PipelineDesc, module: u64, format: u32) -> bool {
    &&& d.module == module
    &&& d.layout.bind_group_layouts == 0
    &&& d.layout.push_constant_ranges@ == terrain_ranges()
    &&& d.vertex_entry == VERTEX_ENTRY
    &&& d.vertex_buffers == 0
    &&& d.fragment_entry == FRAGMENT_ENTRY
    &&& d.topology == Topology::TriangleList
    &&& d.strip_index_format is None
    &&& d.front_face == FrontFace::Ccw
    &&& d.cull_mode == CullMode::Back
    &&& d.polygon_mode == PolygonMode::Fill
    &&& !d.unclipped_depth
    &&& !d.conservative
    &&& d.sample_count == 1
    &&& d.sample_mask == SAMPLE_MASK_ALL
    &&& !d.alpha_to_coverage
    &&& !d.depth_stencil
    &&& d.color_format == format
    &&& d.blend == BlendMode::Replace
    &&& d.write_mask == COLOR_WRITES_ALL
    &&& d.multiview is None
}

pub fn terrain_pipeline_desc(module: u64, format: u32) -> (r: PipelineDesc)
    ensures
        is_terrain_pipeline(r, module, format),
{
    PipelineDesc {
        layout: terrain_layout(),
        module,
        vertex_entry: VERTEX_ENTRY,
        vertex_buffers: 0,
        fragment_entry: FRAGMENT_ENTRY,
        topology: Topology::TriangleList,
        strip_index_format: None,
        front_face: FrontFace::Ccw,
        cull_mode: CullMode::Back,
        polygon_mode: PolygonMode::Fill,
        unclipped_depth: false,
        conservative: false,
        sample_count: 1,
        sample_mask: SAMPLE_MASK_ALL,
        alpha_to_coverage: false,
        depth_stencil: false,
        color_format: format,
        blend: BlendMode::Replace,
        write_mask: COLOR_WRITES_ALL,
        multiview: None,
    }
}

/// A non-indexed draw over vertices `[0, vertex_count)` and instances
/// `[0, instance_count)`, with no vertex or index buffer bound.
#[derive(Clone, Copy, Debug, PartialEq, Eq, Structural)]
pub struct DrawCall {
    pub vertex_count: u32,
    pub instance_count: u32,
}

pub fn draw_unindexed(vertex_count: u32, instance_count: u32) -> (r: DrawCall)
    ensures
        r == (DrawCall { vertex_count, instance_count }),
{
    DrawCall { vertex_count, instance_count }
}

} // verus!
