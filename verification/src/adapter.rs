//! Choosing the physical adapter and its queue families.
//!
//! The shell enumerates the physical adapters and reports, for each, its
//! device identifier and type, its largest supported two-dimensional image
//! extent, and the capabilities of its queue families. An adapter qualifies
//! when some queue family does graphics work. A user-preferred adapter
//! wins outright when it qualifies; otherwise the qualifying adapters are
//! scored — discrete over integrated over virtual over processor-driven,
//! with the image-dimension limit as a tiebreaker — and the best score
//! wins. Finding no qualifying adapter at all is fatal for the shell.

use vstd::prelude::*;

verus! {

/// The user-settings surface: an optional preferred-adapter identifier
/// consulted only while selecting the physical adapter. Changing it makes
/// the shell tear down and rebuild everything that depends on the device.
pub struct UserSettings {
    pub preferred_physical_device_id: Option<u32>,
}

impl Default for UserSettings {
    /// By default no adapter is preferred and scoring decides alone.
    fn default() -> (r: Self)
        ensures
            r.preferred_physical_device_id is None,
    {
        UserSettings { preferred_physical_device_id: None }
    }
}

/// What one queue family of an adapter can do.
#[derive(Clone, Copy, PartialEq, Eq, Structural, Debug)]
pub struct QueueFamily {
    pub graphics: bool,
    pub transfer: bool,
}

/// The broad category of an adapter, best first.
#[derive(Clone, Copy, PartialEq, Eq, Structural, Debug)]
pub enum DeviceType {
    DiscreteGpu,
    IntegratedGpu,
    VirtualGpu,
    Cpu,
    Other,
}

/// What the shell reports about one enumerated adapter.
pub struct AdapterInfo {
    pub device_id: u32,
    pub device_type: DeviceType,
    /// The largest width or height of a two-dimensional image the adapter
    /// supports.
    pub max_image_dimension_2d: u32,
    pub queue_families: Vec<QueueFamily>,
}

/// A family that can carry the engine's graphics work.
pub open spec fn spec_is_graphics_family(f: QueueFamily) -> bool {
    f.graphics
}

/// A family picked for transfer work: it does transfers without doing
/// graphics.
pub open spec fn spec_is_transfer_only_family(f: QueueFamily) -> bool {
    !f.graphics && f.transfer
}

/// An adapter qualifies when some queue family does graphics work.
pub open spec fn spec_qualified(a: AdapterInfo) -> bool {
    exists|i: int|
        0 <= i < a.queue_families@.len() && spec_is_graphics_family(#[trigger] a.queue_families@[i])
}

/// Whether the user's preference names this adapter.
pub open spec fn spec_is_preferred(a: AdapterInfo, preferred: Option<u32>) -> bool {
    preferred == Some(a.device_id)
}

/// The score of an adapter's category.
pub open spec fn spec_device_type_score(t: DeviceType) -> int {
    match t {
        DeviceType::DiscreteGpu => 1000,
        DeviceType::IntegratedGpu => 100,
        DeviceType::VirtualGpu => 10,
        DeviceType::Cpu => 1,
        DeviceType::Other => 0,
    }
}

/// The score of an adapter: its category's score plus its image-dimension
/// limit.
pub open spec fn spec_adapter_score(a: AdapterInfo) -> int {
    spec_device_type_score(a.device_type) + a.max_image_dimension_2d
}

/// Whether some queue family of `a` does graphics work.
pub fn has_graphics_family(a: &AdapterInfo) -> (r: bool)
    ensures
        r == spec_qualified(*a),
{
    let n = a.queue_families.len();
    let mut i: usize = 0;
    while i < n
        invariant
            n == a.queue_families@.len(),
            i <= n,
            forall|j: int| 0 <= j < i ==> !spec_is_graphics_family(#[trigger] a.queue_families@[j]),
        decreases n - i,
    {
        if a.queue_families[i].graphics {
            return true;
        }
        i = i + 1;
    }
    false
}

/// Scans the queue families and returns the graphics index and the
/// transfer-only index the engine uses: in each case the last family of
/// that kind, or `None` when there is none. A family that does graphics is
/// never also picked for transfer-only duty.
pub fn find_queue_families(families: &Vec<QueueFamily>) -> (r: (Option<usize>, Option<usize>))
    ensures
        match r.0 {
            Some(g) => {
                &&& g < families@.len()
                &&& spec_is_graphics_family(families@[g as int])
                &&& forall|j: int| g < j < families@.len()
                    ==> !spec_is_graphics_family(#[trigger] families@[j])
            },
            None => forall|j: int| 0 <= j < families@.len()
                ==> !spec_is_graphics_family(#[trigger] families@[j]),
        },
        match r.1 {
            Some(t) => {
                &&& t < families@.len()
                &&& spec_is_transfer_only_family(families@[t as int])
                &&& forall|j: int| t < j < families@.len()
                    ==> !spec_is_transfer_only_family(#[trigger] families@[j])
            },
            None => forall|j: int| 0 <= j < families@.len()
                ==> !spec_is_transfer_only_family(#[trigger] families@[j]),
        },
{
    let n = families.len();
    let mut graphics_index: Option<usize> = None;
    let mut transfer_index: Option<usize> = None;
    let mut i: usize = 0;
    while i < n
        invariant
            n == families@.len(),
            i <= n,
            match graphics_index {
                Some(g) => {
                    &&& g < i
                    &&& spec_is_graphics_family(families@[g as int])
                    &&& forall|j: int| g < j < i
                        ==> !spec_is_graphics_family(#[trigger] families@[j])
                },
                None => forall|j: int| 0 <= j < i
                    ==> !spec_is_graphics_family(#[trigger] families@[j]),
            },
            match transfer_index {
                Some(t) => {
                    &&& t < i
                    &&& spec_is_transfer_only_family(families@[t as int])
                    &&& forall|j: int| t < j < i
                        ==> !spec_is_transfer_only_family(#[trigger] families@[j])
                },
                None => forall|j: int| 0 <= j < i
                    ==> !spec_is_transfer_only_family(#[trigger] families@[j]),
            },
        decreases n - i,
    {
        let family = families[i];
        if family.graphics {
            graphics_index = Some(i);
        } else if family.transfer {
            transfer_index = Some(i);
        }
        i = i + 1;
    }
    (graphics_index, transfer_index)
}

/// Computes an adapter's score.
pub fn adapter_score(a: &AdapterInfo) -> (r: u64)
    ensures
        r == spec_adapter_score(*a),
{
    let base: u64 = match a.device_type {
        DeviceType::DiscreteGpu => 1000,
        DeviceType::IntegratedGpu => 100,
        DeviceType::VirtualGpu => 10,
        DeviceType::Cpu => 1,
        DeviceType::Other => 0,
    };
    base + (a.max_image_dimension_2d as u64)
}

/// Selects the adapter the engine opens, as an index into `adapters`, or
/// `None` exactly when no adapter qualifies (which the shell treats as
/// fatal). When the user's preferred identifier names a qualifying adapter,
/// the first such adapter wins regardless of score; otherwise the winner
/// qualifies, no qualifying adapter outscores it, and of equal scores the
/// last one listed wins.
pub fn select_physical_device(
    adapters: &Vec<AdapterInfo>,
    preferred_physical_device_id: Option<u32>,
) -> (r: Option<usize>)
    ensures
        match r {
            None => forall|j: int| 0 <= j < adapters@.len()
                ==> !spec_qualified(#[trigger] adapters@[j]),
            Some(k) => {
                &&& k < adapters@.len()
                &&& spec_qualified(adapters@[k as int])
                &&& (if (exists|j: int| 0 <= j < adapters@.len()
                        && spec_qualified(#[trigger] adapters@[j])
                        && spec_is_preferred(adapters@[j], preferred_physical_device_id)) {
                    &&& spec_is_preferred(adapters@[k as int], preferred_physical_device_id)
                    &&& forall|j: int| 0 <= j < k
                        ==> !(spec_qualified(#[trigger] adapters@[j])
                            && spec_is_preferred(adapters@[j], preferred_physical_device_id))
                } else {
                    &&& forall|j: int| 0 <= j < adapters@.len()
                        && spec_qualified(#[trigger] adapters@[j])
                        ==> spec_adapter_score(adapters@[j]) <= spec_adapter_score(adapters@[k as int])
                    &&& forall|j: int| k < j < adapters@.len()
                        && spec_qualified(#[trigger] adapters@[j])
                        ==> spec_adapter_score(adapters@[j]) < spec_adapter_score(adapters@[k as int])
                })
            },
        },
{
    let n = adapters.len();
    let mut i: usize = 0;
    while i < n
        invariant
            n == adapters@.len(),
            i <= n,
            forall|j: int| 0 <= j < i ==> !(spec_qualified(#[trigger] adapters@[j])
                && spec_is_preferred(adapters@[j], preferred_physical_device_id)),
        decreases n - i,
    {
        let matches_preference = match preferred_physical_device_id {
            Some(id) => id == adapters[i].device_id,
            None => false,
        };
        if matches_preference && has_graphics_family(&adapters[i]) {
            return Some(i);
        }
        i = i + 1;
    }

    let mut best: Option<usize> = None;
    let mut best_score: u64 = 0;
    let mut i: usize = 0;
    while i < n
        invariant
            n == adapters@.len(),
            i <= n,
            forall|j: int| 0 <= j < n ==> !(spec_qualified(#[trigger] adapters@[j])
                && spec_is_preferred(adapters@[j], preferred_physical_device_id)),
            match best {
                None => forall|j: int| 0 <= j < i ==> !spec_qualified(#[trigger] adapters@[j]),
                Some(k) => {
                    &&& k < i
                    &&& spec_qualified(adapters@[k as int])
                    &&& best_score == spec_adapter_score(adapters@[k as int])
                    &&& forall|j: int| 0 <= j < i && spec_qualified(#[trigger] adapters@[j])
                        ==> spec_adapter_score(adapters@[j]) <= best_score
                    &&& forall|j: int| k < j < i && spec_qualified(#[trigger] adapters@[j])
                        ==> spec_adapter_score(adapters@[j]) < best_score
                },
            },
        decreases n - i,
    {
        if has_graphics_family(&adapters[i]) {
            let score = adapter_score(&adapters[i]);
            let take_it = match best {
                None => true,
                Some(_) => score >= best_score,
            };
            if take_it {
                best = Some(i);
                best_score = score;
            }
        }
        i = i + 1;
    }
    best
}

} // verus!
