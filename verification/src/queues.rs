//! The choice of a physical device and of its queue families.
use crate::device_info::PHYSICAL_DEVICE_TYPE_DISCRETE_GPU;
use vstd::prelude::*;

verus! {

/// `VkQueueFlags` bits.
pub const QUEUE_GRAPHICS: u32 = 0x1;
pub const QUEUE_COMPUTE: u32 = 0x2;
pub const QUEUE_TRANSFER: u32 = 0x4;

/// One queue family of a physical device: what its queues can do and how
/// many it has.
#[derive(Debug, Clone, Copy)]
pub struct QueueFamilyProperties {
    pub queue_flags: u32,
    pub queue_count: u32,
}

/// `flags` hold every bit of `wanted`.
pub open spec fn holds(flags: u32, wanted: u32) -> bool {
    flags & wanted == wanted
}

/// Family `i` can serve as the main queue: it does graphics and transfer
/// and can present to the surface.
pub open spec fn main_family_ok(families: Seq<QueueFamilyProperties>, support: Seq<bool>, i: int) -> bool {
    &&& 0 <= i < families.len()
    &&& holds(families[i].queue_flags, QUEUE_GRAPHICS | QUEUE_TRANSFER)
    &&& support[i]
}

/// Family `i` can serve as the dedicated transfer queue: it does transfer
/// but no graphics, and it is not the main family.
pub open spec fn transfer_family_ok(families: Seq<QueueFamilyProperties>, main: Option<u32>, i: int) -> bool {
    &&& 0 <= i < families.len()
    &&& holds(families[i].queue_flags, QUEUE_TRANSFER)
    &&& !holds(families[i].queue_flags, QUEUE_GRAPHICS)
    &&& main != Some(i as u32)
}

/// The first family that can serve as the main queue.
pub open spec fn first_main_family(families: Seq<QueueFamilyProperties>, support: Seq<bool>, found: Option<u32>) -> bool {
    match found {
        Some(i) => main_family_ok(families, support, i as int) && forall|j: int|
            0 <= j < i ==> !main_family_ok(families, support, j),
        None => forall|j: int| 0 <= j < families.len() ==> !main_family_ok(families, support, j),
    }
}

/// The first family that can serve as the dedicated transfer queue.
pub open spec fn first_transfer_family(families: Seq<QueueFamilyProperties>, main: Option<u32>, found: Option<u32>) -> bool {
    match found {
        Some(i) => transfer_family_ok(families, main, i as int) && forall|j: int|
            0 <= j < i ==> !transfer_family_ok(families, main, j),
        None => forall|j: int| 0 <= j < families.len() ==> !transfer_family_ok(families, main, j),
    }
}

/// The main and the dedicated transfer queue families of a device, where it
/// has both: the first family with graphics, transfer and presentation, and
/// the first other family with transfer but no graphics.
pub open spec fn queue_family_choice(families: Seq<QueueFamilyProperties>, support: Seq<bool>, chosen: Option<(u32, u32)>) -> bool {
    exists|main: Option<u32>, transfer: Option<u32>|
        {
            &&& first_main_family(families, support, main)
            &&& first_transfer_family(families, main, transfer)
            &&& chosen == match (main, transfer) {
                (Some(m), Some(t)) => Some((m, t)),
                _ => None::<(u32, u32)>,
            }
        }
}

/// The first family that can serve as the main queue.
fn find_main_family(families: &Vec<QueueFamilyProperties>, support: &Vec<bool>) -> (found: Option<u32>)
    requires
        families@.len() == support@.len(),
        families@.len() <= u32::MAX,
    ensures
        first_main_family(families@, support@, found),
{
    let n = families.len();
    let mut i: usize = 0;
    while i < n
        invariant
            n == families@.len() == support@.len(),
            n <= u32::MAX,
            i <= n,
            forall|j: int| 0 <= j < i ==> !main_family_ok(families@, support@, j),
        decreases n - i,
    {
        if families[i].queue_flags & (QUEUE_GRAPHICS | QUEUE_TRANSFER) == (QUEUE_GRAPHICS
            | QUEUE_TRANSFER) && support[i] {
            return Some(i as u32);
        }
        i += 1;
    }
    None
}

/// The first family that can serve as the dedicated transfer queue beside
/// the main family `main`.
fn find_transfer_family(families: &Vec<QueueFamilyProperties>, main: Option<u32>) -> (found: Option<u32>)
    requires
        families@.len() <= u32::MAX,
    ensures
        first_transfer_family(families@, main, found),
{
    let n = families.len();
    let mut k: usize = 0;
    while k < n
        invariant
            n == families@.len(),
            n <= u32::MAX,
            k <= n,
            forall|j: int| 0 <= j < k ==> !transfer_family_ok(families@, main, j),
        decreases n - k,
    {
        let flags = families[k].queue_flags;
        if flags & QUEUE_TRANSFER == QUEUE_TRANSFER && !(flags & QUEUE_GRAPHICS == QUEUE_GRAPHICS)
            && main != Some(k as u32) {
            return Some(k as u32);
        }
        k += 1;
    }
    None
}

/// Picks the main queue family (graphics, transfer and presentation to the
/// surface, `support[i]` telling whether family `i` can present) and a
/// dedicated transfer queue family.
pub fn select_queue_families(families: &Vec<QueueFamilyProperties>, support: &Vec<bool>) -> (chosen: Option<(u32, u32)>)
    requires
        families@.len() == support@.len(),
        families@.len() <= u32::MAX,
    ensures
        queue_family_choice(families@, support@, chosen),
{
    let main = find_main_family(families, support);
    let transfer = find_transfer_family(families, main);
    let chosen = match (main, transfer) {
        (Some(m), Some(t)) => Some((m, t)),
        _ => None,
    };
    assert(first_main_family(families@, support@, main) && first_transfer_family(families@, main, transfer));
    chosen
}

/// What is known of a physical device when choosing one: its extension
/// names (`None` where they could not be listed), its queue families, and
/// for each family whether it can present to the surface.
pub struct DeviceCandidate {
    pub extensions: Option<Vec<String>>,
    pub queue_families: Vec<QueueFamilyProperties>,
    pub surface_support: Vec<bool>,
}

/// The name `name` is among `available`.
pub open spec fn has_extension(available: Seq<String>, name: Seq<char>) -> bool {
    exists|a: int| 0 <= a < available.len() && #[trigger] available[a]@ == name
}

/// Every name in `required` is among `available`.
pub open spec fn has_all_extensions(available: Seq<String>, required: Seq<String>) -> bool {
    forall|r: int| 0 <= r < required.len() ==> has_extension(available, #[trigger] required[r]@)
}

/// The device `candidate` is usable with the queue families `chosen`.
pub open spec fn device_usable(candidate: DeviceCandidate, required: Seq<String>, chosen: (u32, u32)) -> bool {
    &&& candidate.extensions matches Some(ext) && has_all_extensions(ext@, required)
    &&& candidate.surface_support@.len() == candidate.queue_families@.len()
    &&& queue_family_choice(candidate.queue_families@, candidate.surface_support@, Some(chosen))
}

/// The device `candidate` is not usable.
pub open spec fn device_unusable(candidate: DeviceCandidate, required: Seq<String>) -> bool {
    ||| candidate.extensions is None
    ||| !has_all_extensions(candidate.extensions->0@, required)
    ||| queue_family_choice(candidate.queue_families@, candidate.surface_support@, None)
}

/// `name` is among `available`.
fn contains_name(available: &Vec<String>, name: &String) -> (found: bool)
    ensures
        found == has_extension(available@, name@),
{
    let mut a: usize = 0;
    while a < available.len()
        invariant
            a <= available@.len(),
            forall|y: int| 0 <= y < a ==> available@[y]@ != name@,
        decreases available@.len() - a,
    {
        if available[a] == *name {
            return true;
        }
        a += 1;
    }
    false
}

/// Every name in `required` is among `available`.
pub fn contains_all(available: &Vec<String>, required: &Vec<String>) -> (all: bool)
    ensures
        all == has_all_extensions(available@, required@),
{
    let mut r: usize = 0;
    while r < required.len()
        invariant
            r <= required@.len(),
            forall|x: int| 0 <= x < r ==> has_extension(available@, #[trigger] required@[x]@),
        decreases required@.len() - r,
    {
        if !contains_name(available, &required[r]) {
            assert(!has_extension(available@, required@[r as int]@));
            return false;
        }
        r += 1;
    }
    true
}

/// Picks the first device that has every extension in `required` and both
/// a main and a dedicated transfer queue family; gives its index and those
/// two families.
pub fn select_device(candidates: &Vec<DeviceCandidate>, required: &Vec<String>) -> (chosen: Option<(usize, u32, u32)>)
    requires
        forall|i: int| 0 <= i < candidates@.len() ==> (#[trigger] candidates@[i]).queue_families@.len() == candidates@[i].surface_support@.len() && candidates@[i].queue_families@.len() <= u32::MAX,
    ensures
        match chosen {
            Some((d, main, transfer)) => d < candidates@.len() && device_usable(candidates@[d as int], required@, (main, transfer))
                && forall|j: int| 0 <= j < d ==> device_unusable(#[trigger] candidates@[j], required@),
            None => forall|j: int| 0 <= j < candidates@.len() ==> device_unusable(#[trigger] candidates@[j], required@),
        },
{
    let mut d: usize = 0;
    while d < candidates.len()
        invariant
            d <= candidates@.len(),
            forall|i: int| 0 <= i < candidates@.len() ==> (#[trigger] candidates@[i]).queue_families@.len() == candidates@[i].surface_support@.len() && candidates@[i].queue_families@.len() <= u32::MAX,
            forall|j: int| 0 <= j < d ==> device_unusable(#[trigger] candidates@[j], required@),
        decreases candidates@.len() - d,
    {
        let candidate = &candidates[d];
        match &candidate.extensions {
            None => {},
            Some(extensions) => {
                if contains_all(extensions, required) {
                    match select_queue_families(&candidate.queue_families, &candidate.surface_support) {
                        Some((main, transfer)) => {
                            return Some((d, main, transfer));
                        },
                        None => {},
                    }
                }
            },
        }
        d += 1;
    }
    None
}

/// The queue families found for graphics, transfer and compute work.
#[derive(Debug, Clone, Copy)]
pub struct QueueFamilies {
    pub graphics_q_index: Option<u32>,
    pub transfer_q_index: Option<u32>,
    pub compute_q_index: Option<u32>,
}

/// The choice after looking at family `i` with properties `family`: the
/// last family with queues, graphics and presentation serves graphics; a
/// family with queues and transfer takes over transfer unless it also does
/// graphics and a transfer family was found already; a family with queues
/// and compute takes over compute where it does compute alone or none was
/// found yet.
pub open spec fn next_choice(
    found: QueueFamilies,
    family: QueueFamilyProperties,
    i: int,
    present: bool,
) -> QueueFamilies {
    let usable = family.queue_count > 0;
    let flags = family.queue_flags;
    QueueFamilies {
        graphics_q_index: if usable && holds(flags, QUEUE_GRAPHICS) && present {
            Some(i as u32)
        } else {
            found.graphics_q_index
        },
        transfer_q_index: if usable && holds(flags, QUEUE_TRANSFER) && (found.transfer_q_index is None
            || !holds(flags, QUEUE_GRAPHICS)) {
            Some(i as u32)
        } else {
            found.transfer_q_index
        },
        compute_q_index: if usable && holds(flags, QUEUE_COMPUTE) && (flags == QUEUE_COMPUTE
            || found.compute_q_index is None) {
            Some(i as u32)
        } else {
            found.compute_q_index
        },
    }
}

/// Whether family `i` can present: where there is no surface every family
/// counts as able to.
pub open spec fn can_present(support: Option<Vec<bool>>, i: int) -> bool {
    match support {
        Some(s) => s@[i],
        None => true,
    }
}

/// The choice after looking at the first `k` families in order.
pub open spec fn scan_families(
    families: Seq<QueueFamilyProperties>,
    support: Option<Vec<bool>>,
    k: int,
) -> QueueFamilies
    decreases k,
{
    if k <= 0 {
        QueueFamilies { graphics_q_index: None, transfer_q_index: None, compute_q_index: None }
    } else {
        next_choice(
            scan_families(families, support, k - 1),
            families[k - 1],
            k - 1,
            can_present(support, k - 1),
        )
    }
}

/// Looks at every queue family in order and picks families for graphics
/// (which must also present to the surface, `support` telling which can;
/// `None` where there is no surface), transfer and compute work.
pub fn create_queue_families(
    families: &Vec<QueueFamilyProperties>,
    support: &Option<Vec<bool>>,
) -> (found: QueueFamilies)
    requires
        families@.len() <= u32::MAX,
        support matches Some(s) ==> s@.len() == families@.len(),
    ensures
        found == scan_families(families@, *support, families@.len() as int),
{
    let n = families.len();
    let mut found = QueueFamilies {
        graphics_q_index: None,
        transfer_q_index: None,
        compute_q_index: None,
    };
    let mut index: usize = 0;
    while index < n
        invariant
            n == families@.len() <= u32::MAX,
            support matches Some(s) ==> s@.len() == families@.len(),
            index <= n,
            found == scan_families(families@, *support, index as int),
        decreases n - index,
    {
        let qfam = families[index];
        let present = match support {
            Some(s) => s[index],
            None => true,
        };
        if qfam.queue_count > 0 && qfam.queue_flags & QUEUE_GRAPHICS == QUEUE_GRAPHICS && present {
            found.graphics_q_index = Some(index as u32);
        }
        if qfam.queue_count > 0 && qfam.queue_flags & QUEUE_TRANSFER == QUEUE_TRANSFER && (
        found.transfer_q_index.is_none() || !(qfam.queue_flags & QUEUE_GRAPHICS
            == QUEUE_GRAPHICS)) {
            found.transfer_q_index = Some(index as u32);
        }
        if qfam.queue_count > 0 && qfam.queue_flags & QUEUE_COMPUTE == QUEUE_COMPUTE {
            if qfam.queue_flags == QUEUE_COMPUTE || found.compute_q_index.is_none() {
                found.compute_q_index = Some(index as u32);
            }
        }
        index += 1;
    }
    found
}

/// Picks the last discrete GPU among physical devices of the types
/// `device_types`.
pub fn choose_discrete_device(device_types: &Vec<i32>) -> (chosen: Option<usize>)
    ensures
        match chosen {
            Some(i) => i < device_types@.len() && device_types@[i as int]
                == PHYSICAL_DEVICE_TYPE_DISCRETE_GPU && forall|j: int|
                i < j < device_types@.len() ==> device_types@[j] != PHYSICAL_DEVICE_TYPE_DISCRETE_GPU,
            None => forall|j: int|
                0 <= j < device_types@.len() ==> device_types@[j] != PHYSICAL_DEVICE_TYPE_DISCRETE_GPU,
        },
{
    let mut chosen: Option<usize> = None;
    let mut i: usize = 0;
    while i < device_types.len()
        invariant
            i <= device_types@.len(),
            match chosen {
                Some(c) => c < i && device_types@[c as int] == PHYSICAL_DEVICE_TYPE_DISCRETE_GPU
                    && forall|j: int| c < j < i ==> device_types@[j] != PHYSICAL_DEVICE_TYPE_DISCRETE_GPU,
                None => forall|j: int| 0 <= j < i ==> device_types@[j] != PHYSICAL_DEVICE_TYPE_DISCRETE_GPU,
            },
        decreases device_types@.len() - i,
    {
        if device_types[i] == PHYSICAL_DEVICE_TYPE_DISCRETE_GPU {
            chosen = Some(i);
        }
        i += 1;
    }
    chosen
}

/// The queue families to create queues in: graphics and transfer (family 0
/// standing in for one not found), then compute where it differs from
/// graphics.
pub fn queue_create_families(found: QueueFamilies) -> (indices: Vec<u32>)
    ensures
        ({
            let graphics = match found.graphics_q_index {
                Some(i) => i,
                None => 0u32,
            };
            let transfer = match found.transfer_q_index {
                Some(i) => i,
                None => 0u32,
            };
            let compute = match found.compute_q_index {
                Some(i) => i,
                None => 0u32,
            };
            indices@ == if compute != graphics {
                seq![graphics, transfer, compute]
            } else {
                seq![graphics, transfer]
            }
        }),
{
    let graphics_queue_index = found.graphics_q_index.unwrap_or(0);
    let transfer_queue_index = found.transfer_q_index.unwrap_or(0);
    let compute_queue_index = found.compute_q_index.unwrap_or(0);
    let mut indices = vec![graphics_queue_index, transfer_queue_index];
    if compute_queue_index != graphics_queue_index {
        indices.push(compute_queue_index);
    }
    indices
}

/// Family `f` has queues that do compute work.
pub open spec fn does_compute(f: QueueFamilyProperties) -> bool {
    f.queue_count > 0 && f.queue_flags & QUEUE_COMPUTE == QUEUE_COMPUTE
}

/// Family `f` has queues that do compute work and nothing else.
pub open spec fn compute_only(f: QueueFamilyProperties) -> bool {
    f.queue_count > 0 && f.queue_flags == QUEUE_COMPUTE
}

/// Family `f` has queues that do transfer work.
pub open spec fn does_transfer(f: QueueFamilyProperties) -> bool {
    f.queue_count > 0 && f.queue_flags & QUEUE_TRANSFER == QUEUE_TRANSFER
}

/// Family `f` has queues that do transfer work but no graphics.
pub open spec fn transfer_without_graphics(f: QueueFamilyProperties) -> bool {
    does_transfer(f) && f.queue_flags & QUEUE_GRAPHICS != QUEUE_GRAPHICS
}

/// Family `i` has queues that do graphics and can present.
pub open spec fn graphics_and_present(families: Seq<QueueFamilyProperties>, support: Option<Vec<bool>>, i: int) -> bool {
    families[i].queue_count > 0 && families[i].queue_flags & QUEUE_GRAPHICS == QUEUE_GRAPHICS
        && can_present(support, i)
}

/// The compute family chosen among the first `k` families is the last one
/// whose queues do compute and nothing else, where there is one, and else
/// the first one whose queues do compute; none where no family does compute.
pub proof fn lemma_compute_family(families: Seq<QueueFamilyProperties>, support: Option<Vec<bool>>, k: int)
    requires
        0 <= k <= families.len(),
        k <= u32::MAX,
    ensures
        scan_families(families, support, k).compute_q_index is None <==> forall|j: int|
            0 <= j < k ==> !#[trigger] does_compute(families[j]),
        scan_families(families, support, k).compute_q_index matches Some(i) ==> {
            &&& 0 <= i < k
            &&& does_compute(families[i as int])
            &&& if exists|j: int| 0 <= j < k && #[trigger] compute_only(families[j]) {
                &&& compute_only(families[i as int])
                &&& forall|j: int| i < j < k ==> !#[trigger] compute_only(families[j])
            } else {
                forall|j: int| 0 <= j < i ==> !#[trigger] does_compute(families[j])
            }
        },
    decreases k,
{
    assert(QUEUE_COMPUTE & QUEUE_COMPUTE == QUEUE_COMPUTE) by (bit_vector);
    assert forall|j: int| #[trigger] compute_only(families[j]) implies does_compute(families[j]) by {
        assert(families[j].queue_flags == QUEUE_COMPUTE);
    }
    if k > 0 {
        lemma_compute_family(families, support, k - 1);
        let f = families[k - 1];
        assert(scan_families(families, support, k) == next_choice(
            scan_families(families, support, k - 1),
            f,
            k - 1,
            can_present(support, k - 1),
        ));
        assert(((k - 1) as u32) as int == k - 1);
        assert(does_compute(f) == (f.queue_count > 0 && holds(f.queue_flags, QUEUE_COMPUTE)));
        if compute_only(f) {
            assert(does_compute(f));
        }
        if exists|j: int| 0 <= j < k && #[trigger] compute_only(families[j]) {
            if !exists|j: int| 0 <= j < k - 1 && #[trigger] compute_only(families[j]) {
                let w = choose|j: int| 0 <= j < k && #[trigger] compute_only(families[j]);
                assert(w == k - 1);
            }
        }
    }
}

/// The transfer family chosen among the first `k` families is the last one
/// whose queues do transfer but no graphics, where there is one, and else
/// the first one whose queues do transfer; none where no family does
/// transfer.
pub proof fn lemma_transfer_family(families: Seq<QueueFamilyProperties>, support: Option<Vec<bool>>, k: int)
    requires
        0 <= k <= families.len(),
        k <= u32::MAX,
    ensures
        scan_families(families, support, k).transfer_q_index is None <==> forall|j: int|
            0 <= j < k ==> !#[trigger] does_transfer(families[j]),
        scan_families(families, support, k).transfer_q_index matches Some(i) ==> {
            &&& 0 <= i < k
            &&& does_transfer(families[i as int])
            &&& if exists|j: int| 0 <= j < k && #[trigger] transfer_without_graphics(families[j]) {
                &&& transfer_without_graphics(families[i as int])
                &&& forall|j: int| i < j < k ==> !#[trigger] transfer_without_graphics(families[j])
            } else {
                forall|j: int| 0 <= j < i ==> !#[trigger] does_transfer(families[j])
            }
        },
    decreases k,
{
    if k > 0 {
        lemma_transfer_family(families, support, k - 1);
        let f = families[k - 1];
        assert(scan_families(families, support, k) == next_choice(
            scan_families(families, support, k - 1),
            f,
            k - 1,
            can_present(support, k - 1),
        ));
        assert(((k - 1) as u32) as int == k - 1);
        assert(does_transfer(f) == (f.queue_count > 0 && holds(f.queue_flags, QUEUE_TRANSFER)));
        assert(transfer_without_graphics(f) == (does_transfer(f) && !holds(f.queue_flags, QUEUE_GRAPHICS)));
        if exists|j: int| 0 <= j < k && #[trigger] transfer_without_graphics(families[j]) {
            if !exists|j: int| 0 <= j < k - 1 && #[trigger] transfer_without_graphics(families[j]) {
                let w = choose|j: int| 0 <= j < k && #[trigger] transfer_without_graphics(families[j]);
                assert(w == k - 1);
            }
        }
    }
}

/// The graphics family chosen among the first `k` families is the last one
/// whose queues do graphics and that can present; none where there is no
/// such family.
pub proof fn lemma_graphics_family(families: Seq<QueueFamilyProperties>, support: Option<Vec<bool>>, k: int)
    requires
        0 <= k <= families.len(),
        k <= u32::MAX,
    ensures
        scan_families(families, support, k).graphics_q_index is None <==> forall|j: int|
            0 <= j < k ==> !#[trigger] graphics_and_present(families, support, j),
        scan_families(families, support, k).graphics_q_index matches Some(i) ==> {
            &&& 0 <= i < k
            &&& graphics_and_present(families, support, i as int)
            &&& forall|j: int| i < j < k ==> !#[trigger] graphics_and_present(families, support, j)
        },
    decreases k,
{
    if k > 0 {
        lemma_graphics_family(families, support, k - 1);
        let f = families[k - 1];
        assert(scan_families(families, support, k) == next_choice(
            scan_families(families, support, k - 1),
            f,
            k - 1,
            can_present(support, k - 1),
        ));
        assert(((k - 1) as u32) as int == k - 1);
        assert(graphics_and_present(families, support, k - 1) == (f.queue_count > 0 && holds(f.queue_flags, QUEUE_GRAPHICS) && can_present(support, k - 1)));
    }
}

} // verus!
