use vstd::prelude::*;

verus! {

/// Class of a GPU adapter, as the platform reports it.
#[derive(Clone, Copy, Debug, PartialEq, Eq, Structural)]
pub enum DeviceClass {
    DiscreteGpu,
    IntegratedGpu,
    VirtualGpu,
    Cpu,
    Other,
    Unknown,
}

impl DeviceClass {
    /// Preference rank: lower is better.
    pub open spec fn rank_spec(self) -> nat {
        match self {
            DeviceClass::DiscreteGpu => 0,
            DeviceClass::IntegratedGpu => 1,
            DeviceClass::VirtualGpu => 2,
            DeviceClass::Cpu => 3,
            DeviceClass::Other => 4,
            DeviceClass::Unknown => 5,
        }
    }

    pub fn rank(&self) -> (r: u8)
        ensures
            r as nat == self.rank_spec(),
    {
        match self {
            DeviceClass::DiscreteGpu => 0,
            DeviceClass::IntegratedGpu => 1,
            DeviceClass::VirtualGpu => 2,
            DeviceClass::Cpu => 3,
            DeviceClass::Other => 4,
            DeviceClass::Unknown => 5,
        }
    }
}

/// Swapchain (presentation) extension bit.
pub const EXT_SWAPCHAIN: u64 = 1;
/// Dynamic rendering extension bit.
pub const EXT_DYNAMIC_RENDERING: u64 = 2;

/// API version 1.2, encoded as major << 22 | minor << 12 | patch.
pub const API_VERSION_1_2: u32 = 4202496;

/// Capabilities of one queue family of a candidate.
#[derive(Clone, Copy, Debug, PartialEq, Eq, Structural)]
pub struct QueueFamily {
    pub graphics: bool,
    /// Whether this family can present to the target surface.
    pub present: bool,
}

/// One adapter as enumerated by the platform.
#[derive(Clone, Debug)]
pub struct DeviceCandidate {
    pub name: String,
    pub api_version: u32,
    /// Supported extensions, one bit per extension.
    pub extensions: u64,
    pub class: DeviceClass,
    pub queue_families: Vec<QueueFamily>,
}

/// What a candidate must offer to be usable.
#[derive(Clone, Copy, Debug, PartialEq, Eq, Structural)]
pub struct Requirements {
    pub min_api_version: u32,
    pub extensions: u64,
}

/// The chosen adapter and the queue family to create the queue from.
#[derive(Clone, Copy, Debug, PartialEq, Eq, Structural)]
pub struct Selection {
    pub device: usize,
    pub queue_family: usize,
}

pub open spec fn extensions_cover(supported: u64, required: u64) -> bool {
    supported & required == required
}

pub open spec fn queue_capable(q: QueueFamily) -> bool {
    q.graphics && q.present
}

/// `i` is the first family that can both draw and present.
pub open spec fn first_capable_queue(fams: Seq<QueueFamily>, i: int) -> bool {
    0 <= i < fams.len() && queue_capable(fams[i]) && forall|j: int|
        0 <= j < i ==> !queue_capable(#[trigger] fams[j])
}

pub open spec fn has_capable_queue(fams: Seq<QueueFamily>) -> bool {
    exists|i: int| 0 <= i < fams.len() && queue_capable(#[trigger] fams[i])
}

pub open spec fn eligible(c: DeviceCandidate, req: Requirements) -> bool {
    c.api_version >= req.min_api_version && extensions_cover(c.extensions, req.extensions)
        && has_capable_queue(c.queue_families@)
}

/// `s` is the eligible candidate of least rank, the earliest among equals.
pub open spec fn is_best_selection(cs: Seq<DeviceCandidate>, req: Requirements, s: Selection) -> bool {
    &&& 0 <= s.device < cs.len()
    &&& eligible(cs[s.device as int], req)
    &&& first_capable_queue(cs[s.device as int].queue_families@, s.queue_family as int)
    &&& forall|i: int|
        0 <= i < cs.len() && #[trigger] eligible(cs[i], req) ==> cs[s.device as int].class.rank_spec()
            <= cs[i].class.rank_spec()
    &&& forall|i: int|
        0 <= i < s.device && #[trigger] eligible(cs[i], req) ==> cs[s.device as int].class.rank_spec()
            < cs[i].class.rank_spec()
}

/// Index of the first queue family that can both draw and present, if any.
pub fn find_queue_family(fams: &Vec<QueueFamily>) -> (r: Option<usize>)
    ensures
        r is None <==> !has_capable_queue(fams@),
        r matches Some(i) ==> first_capable_queue(fams@, i as int),
{
    let mut i: usize = 0;
    while i < fams.len()
        invariant
            0 <= i <= fams.len(),
            forall|j: int| 0 <= j < i ==> !queue_capable(#[trigger] fams@[j]),
        decreases fams.len() - i,
    {
        if fams[i].graphics && fams[i].present {
            return Some(i);
        }
        i = i + 1;
    }
    None
}

/// Whether a candidate meets the version and extension requirements.
pub fn meets_requirements(c: &DeviceCandidate, req: &Requirements) -> (r: bool)
    ensures
        r == (c.api_version >= req.min_api_version && extensions_cover(c.extensions, req.extensions)),
{
    c.api_version >= req.min_api_version && (c.extensions & req.extensions) == req.extensions
}

/// Picks the adapter to render with: among the candidates that meet `req` and
/// have a queue family that can both draw and present, the one of best class,
/// the first enumerated among equals. `None` when no candidate qualifies.
pub fn select_device(cs: &Vec<DeviceCandidate>, req: &Requirements) -> (r: Option<Selection>)
    ensures
        r is None <==> forall|i: int| 0 <= i < cs@.len() ==> !#[trigger] eligible(cs@[i], *req),
        r matches Some(s) ==> is_best_selection(cs@, *req, s),
{
    let mut best: Option<Selection> = None;
    let mut best_rank: u8 = 0;
    let mut i: usize = 0;
    while i < cs.len()
        invariant
            0 <= i <= cs.len(),
            best is None ==> forall|j: int| 0 <= j < i ==> !#[trigger] eligible(cs@[j], *req),
            best matches Some(s) ==> {
                &&& s.device < i
                &&& eligible(cs@[s.device as int], *req)
                &&& first_capable_queue(cs@[s.device as int].queue_families@, s.queue_family as int)
                &&& best_rank as nat == cs@[s.device as int].class.rank_spec()
                &&& forall|j: int|
                    0 <= j < i && #[trigger] eligible(cs@[j], *req) ==> (best_rank as nat)
                        <= cs@[j].class.rank_spec()
                &&& forall|j: int|
                    0 <= j < s.device && #[trigger] eligible(cs@[j], *req) ==> (best_rank as nat)
                        < cs@[j].class.rank_spec()
            },
        decreases cs.len() - i,
    {
        let c = &cs[i];
        if meets_requirements(c, req) {
            match find_queue_family(&c.queue_families) {
                Some(q) => {
                    let rank = c.class.rank();
                    let better = match best {
                        None => true,
                        Some(_) => rank < best_rank,
                    };
                    if better {
                        best = Some(Selection { device: i, queue_family: q });
                        best_rank = rank;
                    }
                },
                None => {},
            }
        }
        i = i + 1;
    }
    best
}

/// The device negotiated for rendering: which candidate, its class, and the
/// queue family to create the queue from.
#[derive(Clone, Copy, Debug, PartialEq, Eq, Structural)]
pub struct RenderDevice {
    pub selection: Selection,
    pub class: DeviceClass,
}

impl RenderDevice {
    /// Negotiates the device among the enumerated candidates `cs`: the
    /// eligible one of best class, the first enumerated among equals. Without
    /// an eligible candidate there is nothing to render with: `select_device`
    /// tells that case apart first.
    pub fn new(cs: &Vec<DeviceCandidate>, req: &Requirements) -> (r: RenderDevice)
        requires
            exists|i: int| 0 <= i < cs@.len() && #[trigger] eligible(cs@[i], *req),
        ensures
            is_best_selection(cs@, *req, r.selection),
            r.class == cs@[r.selection.device as int].class,
    {
        match select_device(cs, req) {
            Some(s) => RenderDevice { selection: s, class: cs[s.device].class },
            None => {
                proof {
                    let i = choose|i: int| 0 <= i < cs@.len() && #[trigger] eligible(cs@[i], *req);
                    assert(!eligible(cs@[i], *req));
                }
                RenderDevice { selection: Selection { device: 0, queue_family: 0 }, class: DeviceClass::Unknown }
            },
        }
    }
}

} // verus!
