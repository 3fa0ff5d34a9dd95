//! Choice of the queue families that the renderer submits its graphics,
//! compute and transfer work to.

use std::collections::HashSet;

use vstd::prelude::*;

verus! {

broadcast use vstd::std_specs::hash::group_hash_axioms;

/// Queue capability bits of a queue family, as the driver reports them.
pub const QUEUE_GRAPHICS: u32 = 0x1u32;
pub const QUEUE_COMPUTE: u32 = 0x2u32;
pub const QUEUE_TRANSFER: u32 = 0x4u32;
pub const QUEUE_VIDEO_DECODE: u32 = 0x20u32;
pub const QUEUE_VIDEO_ENCODE: u32 = 0x40u32;

/// One queue family as the search judges it: how many queues it has, its
/// capability bits, and whether it can present to the window's surface.
#[derive(PartialEq, Eq, Structural, Clone, Copy, Debug)]
pub struct QueueFamily {
    pub queue_count: u32,
    pub queue_flags: u32,
    pub surface_support: bool,
}

/// What the driver reports of one queue family: how many queues it has and
/// their capability bits.
#[derive(PartialEq, Eq, Structural, Clone, Copy, Debug)]
pub struct QueueFamilyProperties {
    pub queue_count: u32,
    pub queue_flags: u32,
}

/// The queue family index chosen for each kind of work.
#[derive(PartialEq, Eq, Structural, Clone, Copy, Debug)]
pub struct Families {
    pub graphics: u32,
    pub compute: u32,
    pub transfer: u32,
}

/// The queue family indices found so far during the search.
#[derive(PartialEq, Eq, Structural, Clone, Copy, Debug)]
pub struct FamiliesInfo {
    pub graphics: Option<u32>,
    pub compute: Option<u32>,
    pub transfer: Option<u32>,
}

pub open spec fn has_flag(flags: u32, flag: u32) -> bool {
    flags & flag == flag
}

/// A family with queues, for transfers only: no graphics, compute or video.
pub open spec fn is_transfer_family(f: QueueFamily) -> bool {
    &&& f.queue_count > 0
    &&& !has_flag(f.queue_flags, QUEUE_GRAPHICS)
    &&& !has_flag(f.queue_flags, QUEUE_COMPUTE)
    &&& has_flag(f.queue_flags, QUEUE_TRANSFER)
    &&& !has_flag(f.queue_flags, QUEUE_VIDEO_DECODE)
    &&& !has_flag(f.queue_flags, QUEUE_VIDEO_ENCODE)
}

/// A family with queues for compute work but not for graphics.
pub open spec fn is_compute_family(f: QueueFamily) -> bool {
    &&& f.queue_count > 0
    &&& !has_flag(f.queue_flags, QUEUE_GRAPHICS)
    &&& has_flag(f.queue_flags, QUEUE_COMPUTE)
}

/// A family with queues for graphics and compute work that can present to
/// the surface.
pub open spec fn is_graphics_family(f: QueueFamily) -> bool {
    &&& f.queue_count > 0
    &&& has_flag(f.queue_flags, QUEUE_GRAPHICS)
    &&& has_flag(f.queue_flags, QUEUE_COMPUTE)
    &&& f.surface_support
}

/// A family with queues for graphics and compute work: the only kind whose
/// presentation support the search asks about.
pub open spec fn is_presentation_candidate(p: QueueFamilyProperties) -> bool {
    &&& p.queue_count > 0
    &&& has_flag(p.queue_flags, QUEUE_GRAPHICS)
    &&& has_flag(p.queue_flags, QUEUE_COMPUTE)
}

/// The families as the search sees them, where a family can present when
/// `answers` holds `true` for its index; a family that was not asked about
/// counts as unable to present.
pub open spec fn with_support(props: Seq<QueueFamilyProperties>, answers: Map<int, bool>) -> Seq<
    QueueFamily,
> {
    Seq::new(
        props.len(),
        |i: int|
            QueueFamily {
                queue_count: props[i].queue_count,
                queue_flags: props[i].queue_flags,
                surface_support: answers.contains_key(i) && answers[i],
            },
    )
}

/// Every recorded answer is one that `is_supported` may give for a
/// presentation candidate.
pub open spec fn answers_given<F: Fn(u32) -> bool>(
    props: Seq<QueueFamilyProperties>,
    answers: Map<int, bool>,
    is_supported: F,
) -> bool {
    forall|i: int| #[trigger]
        answers.contains_key(i) ==> {
            &&& 0 <= i < props.len()
            &&& is_presentation_candidate(props[i])
            &&& call_ensures(is_supported, (i as u32,), answers[i])
        }
}

/// The search state after looking at family `index`: a transfer family
/// replaces the transfer choice, else a compute family the compute choice,
/// else a presenting graphics family the graphics choice.
pub open spec fn step(info: FamiliesInfo, f: QueueFamily, index: int) -> FamiliesInfo {
    if is_transfer_family(f) {
        FamiliesInfo { transfer: Some(index as u32), ..info }
    } else if is_compute_family(f) {
        FamiliesInfo { compute: Some(index as u32), ..info }
    } else if is_graphics_family(f) {
        FamiliesInfo { graphics: Some(index as u32), ..info }
    } else {
        info
    }
}

/// The search over the families from `index` on, stopping as soon as all
/// three kinds have been found.
pub open spec fn scan(families: Seq<QueueFamily>, index: int, info: FamiliesInfo) -> FamiliesInfo
    decreases families.len() - index,
{
    if index < 0 || index >= families.len() || info.spec_is_complete() {
        info
    } else {
        scan(families, index + 1, step(info, families[index], index))
    }
}

/// The search state after the first `n` families, stopping as soon as all
/// three kinds have been found.
pub open spec fn scan_upto(families: Seq<QueueFamily>, n: int) -> FamiliesInfo
    decreases n,
{
    if n <= 0 {
        FamiliesInfo::spec_empty()
    } else {
        let prev = scan_upto(families, n - 1);
        if prev.spec_is_complete() {
            prev
        } else {
            step(prev, families[n - 1], n - 1)
        }
    }
}

/// The families chosen by the whole search, if it found all three kinds.
pub open spec fn chosen(families: Seq<QueueFamily>) -> Option<Families> {
    families_of(scan(families, 0, FamiliesInfo::spec_empty()))
}

pub open spec fn families_of(info: FamiliesInfo) -> Option<Families> {
    if info.spec_is_complete() {
        Some(
            Families {
                graphics: info.graphics.unwrap(),
                compute: info.compute.unwrap(),
                transfer: info.transfer.unwrap(),
            },
        )
    } else {
        None
    }
}

/// Every index recorded in `info` points at a family of the right kind.
pub open spec fn info_valid(families: Seq<QueueFamily>, info: FamiliesInfo) -> bool {
    &&& (info.transfer matches Some(i) ==> i < families.len() && is_transfer_family(
        families[i as int],
    ))
    &&& (info.compute matches Some(i) ==> i < families.len() && is_compute_family(
        families[i as int],
    ))
    &&& (info.graphics matches Some(i) ==> i < families.len() && is_graphics_family(
        families[i as int],
    ))
}

pub open spec fn has_transfer_family(families: Seq<QueueFamily>, from: int) -> bool {
    exists|j: int| from <= j < families.len() && is_transfer_family(#[trigger] families[j])
}

pub open spec fn has_compute_family(families: Seq<QueueFamily>, from: int) -> bool {
    exists|j: int| from <= j < families.len() && is_compute_family(#[trigger] families[j])
}

pub open spec fn has_graphics_family(families: Seq<QueueFamily>, from: int) -> bool {
    exists|j: int| from <= j < families.len() && is_graphics_family(#[trigger] families[j])
}

proof fn lemma_scan_valid(families: Seq<QueueFamily>, index: int, info: FamiliesInfo)
    requires
        0 <= index,
        families.len() <= u32::MAX,
        info_valid(families, info),
    ensures
        info_valid(families, scan(families, index, info)),
    decreases families.len() - index,
{
    if index < families.len() && !info.spec_is_complete() {
        lemma_scan_valid(families, index + 1, step(info, families[index], index));
    }
}

proof fn lemma_scan_finds(families: Seq<QueueFamily>, index: int, info: FamiliesInfo)
    requires
        0 <= index,
    ensures
        ({
            let r = scan(families, index, info);
            &&& r.transfer is Some <==> (info.transfer is Some || has_transfer_family(
                families,
                index,
            ) || (info.spec_is_complete()))
            &&& r.compute is Some <==> (info.compute is Some || has_compute_family(families, index)
                || (info.spec_is_complete()))
            &&& r.graphics is Some <==> (info.graphics is Some || has_graphics_family(
                families,
                index,
            ) || (info.spec_is_complete()))
        }),
    decreases families.len() - index,
{
    if index >= families.len() {
    } else if info.spec_is_complete() {
    } else {
        let next = step(info, families[index], index);
        lemma_scan_finds(families, index + 1, next);
        let f = families[index];
        if has_transfer_family(families, index) && !is_transfer_family(f) {
            let j = choose|j: int| index <= j < families.len() && is_transfer_family(
                #[trigger] families[j],
            );
            assert(index + 1 <= j);
        }
        if has_compute_family(families, index) && !is_compute_family(f) {
            let j = choose|j: int| index <= j < families.len() && is_compute_family(
                #[trigger] families[j],
            );
            assert(index + 1 <= j);
        }
        if has_graphics_family(families, index) && !is_graphics_family(f) {
            let j = choose|j: int| index <= j < families.len() && is_graphics_family(
                #[trigger] families[j],
            );
            assert(index + 1 <= j);
        }
        if has_transfer_family(families, index + 1) {
            let j = choose|j: int| index + 1 <= j < families.len() && is_transfer_family(
                #[trigger] families[j],
            );
            assert(index <= j);
        }
        if has_compute_family(families, index + 1) {
            let j = choose|j: int| index + 1 <= j < families.len() && is_compute_family(
                #[trigger] families[j],
            );
            assert(index <= j);
        }
        if has_graphics_family(families, index + 1) {
            let j = choose|j: int| index + 1 <= j < families.len() && is_graphics_family(
                #[trigger] families[j],
            );
            assert(index <= j);
        }
    }
}

proof fn lemma_scan_upto_prefix(a: Seq<QueueFamily>, b: Seq<QueueFamily>, n: int)
    requires
        forall|k: int| 0 <= k < n ==> a[k] == b[k],
    ensures
        scan_upto(a, n) == scan_upto(b, n),
    decreases n,
{
    if n > 0 {
        lemma_scan_upto_prefix(a, b, n - 1);
    }
}

proof fn lemma_scan_upto_stays_complete(families: Seq<QueueFamily>, a: int, b: int)
    requires
        0 <= a <= b,
        scan_upto(families, a).spec_is_complete(),
    ensures
        scan_upto(families, b).spec_is_complete(),
    decreases b - a,
{
    if a < b {
        lemma_scan_upto_stays_complete(families, a, b - 1);
    }
}

proof fn lemma_scan_from_upto(families: Seq<QueueFamily>, j: int)
    requires
        0 <= j <= families.len(),
    ensures
        scan(families, 0, FamiliesInfo::spec_empty()) == scan(families, j, scan_upto(families, j)),
    decreases j,
{
    if j > 0 {
        lemma_scan_from_upto(families, j - 1);
    }
}

proof fn lemma_scan_upto_is_scan(families: Seq<QueueFamily>, n: int)
    requires
        0 <= n <= families.len(),
        n == families.len() || scan_upto(families, n).spec_is_complete(),
    ensures
        scan(families, 0, FamiliesInfo::spec_empty()) == scan_upto(families, n),
{
    lemma_scan_from_upto(families, n);
}

impl FamiliesInfo {
    pub open spec fn spec_empty() -> FamiliesInfo {
        FamiliesInfo { graphics: None, compute: None, transfer: None }
    }

    pub open spec fn spec_is_complete(self) -> bool {
        self.graphics is Some && self.compute is Some && self.transfer is Some
    }

    /// All three kinds of family have been found.
    pub fn is_complete(&self) -> (r: bool)
        ensures
            r == self.spec_is_complete(),
    {
        self.graphics.is_some() && self.compute.is_some() && self.transfer.is_some()
    }
}

impl Default for FamiliesInfo {
    fn default() -> (r: Self)
        ensures
            r == FamiliesInfo::spec_empty(),
    {
        FamiliesInfo { graphics: None, compute: None, transfer: None }
    }
}

impl Families {
    /// The families of a finished search, or `None` where one kind is
    /// missing.
    pub fn try_from(value: FamiliesInfo) -> (r: Option<Families>)
        ensures
            r == families_of(value),
    {
        match (value.graphics, value.compute, value.transfer) {
            (Some(graphics), Some(compute), Some(transfer)) => Some(
                Families { graphics, compute, transfer },
            ),
            _ => None,
        }
    }

    /// Chooses the queue families: the last transfer-only family, the last
    /// compute family without graphics and the last graphics and compute
    /// family that can present, among those seen before all three kinds were
    /// found. `is_supported` tells whether a family can present to the
    /// surface; it is asked only of graphics and compute families with
    /// queues, in index order, until the search ends. `None` when a kind is
    /// missing from the device.
    pub fn find<F: Fn(u32) -> bool>(families: &Vec<QueueFamilyProperties>, is_supported: F) -> (r:
        Option<Families>)
        requires
            families@.len() <= u32::MAX,
            forall|i: int|
                0 <= i < families@.len() && #[trigger] is_presentation_candidate(families@[i])
                    ==> call_requires(is_supported, (i as u32,)),
        ensures
            exists|answers: Map<int, bool>|
                {
                    &&& answers_given(families@, answers, is_supported)
                    &&& forall|i: int|
                        0 <= i < families@.len() ==> (#[trigger] answers.contains_key(i) <==> (
                        is_presentation_candidate(families@[i]) && !scan_upto(
                            with_support(families@, answers),
                            i,
                        ).spec_is_complete()))
                    &&& r == chosen(with_support(families@, answers))
                    &&& r is Some <==> has_transfer_family(with_support(families@, answers), 0)
                        && has_compute_family(with_support(families@, answers), 0)
                        && has_graphics_family(with_support(families@, answers), 0)
                    &&& r matches Some(f) ==> {
                        &&& is_graphics_family(with_support(families@, answers)[f.graphics as int])
                        &&& is_compute_family(with_support(families@, answers)[f.compute as int])
                        &&& is_transfer_family(with_support(families@, answers)[f.transfer as int])
                    }
                },
            r matches Some(f) ==> {
                &&& f.graphics < families@.len()
                &&& f.compute < families@.len()
                &&& f.transfer < families@.len()
                &&& is_presentation_candidate(families@[f.graphics as int])
                &&& call_ensures(is_supported, (f.graphics,), true)
            },
    {
        let ghost props = families@;
        let ghost mut answers: Map<int, bool> = Map::empty();
        let mut found = FamiliesInfo::default();
        let n = families.len();
        let mut index: usize = 0;
        while index < n
            invariant_except_break
                !found.spec_is_complete(),
            invariant
                n == props.len(),
                props == families@,
                n <= u32::MAX,
                index <= n,
                forall|i: int|
                    0 <= i < props.len() && #[trigger] is_presentation_candidate(props[i])
                        ==> call_requires(is_supported, (i as u32,)),
                answers_given(props, answers, is_supported),
                forall|i: int| #[trigger] answers.contains_key(i) ==> i < index,
                forall|i: int|
                    0 <= i < index ==> (#[trigger] answers.contains_key(i) <==> (
                    is_presentation_candidate(props[i]) && !scan_upto(
                        with_support(props, answers),
                        i,
                    ).spec_is_complete())),
                found == scan_upto(with_support(props, answers), index as int),
            ensures
                forall|i: int| #[trigger] answers.contains_key(i) ==> i < index,
                forall|i: int|
                    0 <= i < index ==> (#[trigger] answers.contains_key(i) <==> (
                    is_presentation_candidate(props[i]) && !scan_upto(
                        with_support(props, answers),
                        i,
                    ).spec_is_complete())),
                index == n || found.spec_is_complete(),
                answers_given(props, answers, is_supported),
                found == scan_upto(with_support(props, answers), index as int),
            decreases n - index,
        {
            let family = families[index];
            let idx = index as u32;
            let g = family.queue_flags & QUEUE_GRAPHICS == QUEUE_GRAPHICS;
            let c = family.queue_flags & QUEUE_COMPUTE == QUEUE_COMPUTE;
            let t = family.queue_flags & QUEUE_TRANSFER == QUEUE_TRANSFER;
            let vd = family.queue_flags & QUEUE_VIDEO_DECODE == QUEUE_VIDEO_DECODE;
            let ve = family.queue_flags & QUEUE_VIDEO_ENCODE == QUEUE_VIDEO_ENCODE;
            let ghost before = found;
            let ghost old_answers = answers;
            if family.queue_count > 0 {
                if !g && !c && t && !vd && !ve {
                    found.transfer = Some(idx);
                } else if !g && c {
                    found.compute = Some(idx);
                } else if g && c {
                    assert(is_presentation_candidate(props[index as int]));
                    let supported = is_supported(idx);
                    proof {
                        answers = answers.insert(index as int, supported);
                    }
                    if supported {
                        found.graphics = Some(idx);
                    }
                }
            }
            proof {
                let s0 = with_support(props, old_answers);
                let s1 = with_support(props, answers);
                assert forall|k: int| 0 <= k < index implies s0[k] == s1[k] by {}
                lemma_scan_upto_prefix(s0, s1, index as int);
                assert forall|i: int| 0 <= i <= index implies scan_upto(s1, i) == scan_upto(s0, i) by {
                    lemma_scan_upto_prefix(s0, s1, i);
                }
                assert(answers.contains_key(index as int) <==> is_presentation_candidate(
                    props[index as int],
                ));
                assert(found == step(before, s1[index as int], index as int));
            }
            index = index + 1;
            if found.is_complete() {
                break;
            }
        }
        let ghost s = with_support(props, answers);
        proof {
            assert forall|i: int| index <= i < props.len() implies scan_upto(
                s,
                i,
            ).spec_is_complete() by {
                lemma_scan_upto_stays_complete(s, index as int, i);
            }
            lemma_scan_upto_is_scan(s, index as int);
            lemma_scan_valid(s, 0, FamiliesInfo::spec_empty());
            lemma_scan_finds(s, 0, FamiliesInfo::spec_empty());
        }
        let r = Self::try_from(found);
        proof {
            if r is Some {
                let f = r.unwrap();
                assert(answers.contains_key(f.graphics as int));
            }
        }
        r
    }

    /// The distinct family indices, one per queue that the device creates.
    pub fn unique(&self) -> (r: HashSet<u32>)
        ensures
            r@ == set![self.graphics, self.compute, self.transfer],
    {
        let mut set: HashSet<u32> = HashSet::new();
        set.insert(self.graphics);
        set.insert(self.compute);
        set.insert(self.transfer);
        set
    }
}

} // verus!
