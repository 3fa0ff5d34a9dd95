use std::cell::RefCell;

use renderer::queue::{
    Families, FamiliesInfo, QueueFamilyProperties, QUEUE_COMPUTE, QUEUE_GRAPHICS, QUEUE_TRANSFER,
    QUEUE_VIDEO_DECODE,
};

fn family(flags: u32) -> QueueFamilyProperties {
    QueueFamilyProperties { queue_count: 1, queue_flags: flags }
}

/// Runs the search with the given presenting families and returns its result
/// with the indices the surface was asked about, in order.
fn find_presenting(families: &Vec<QueueFamilyProperties>, presenting: &[u32]) -> (Option<Families>, Vec<u32>) {
    let asked = RefCell::new(Vec::new());
    let found = Families::find(families, |index| {
        asked.borrow_mut().push(index);
        presenting.contains(&index)
    });
    (found, asked.into_inner())
}

#[test]
fn finds_one_family_of_each_kind() {
    let families = vec![
        family(QUEUE_GRAPHICS | QUEUE_COMPUTE | QUEUE_TRANSFER),
        family(QUEUE_COMPUTE | QUEUE_TRANSFER),
        family(QUEUE_TRANSFER),
    ];
    let (found, asked) = find_presenting(&families, &[0]);
    assert_eq!(found, Some(Families { graphics: 0, compute: 1, transfer: 2 }));
    assert_eq!(asked, vec![0]);
}

#[test]
fn none_without_a_transfer_only_family() {
    let families = vec![
        family(QUEUE_GRAPHICS | QUEUE_COMPUTE | QUEUE_TRANSFER),
        family(QUEUE_COMPUTE | QUEUE_TRANSFER),
    ];
    assert_eq!(find_presenting(&families, &[0]).0, None);
}

#[test]
fn graphics_family_must_present() {
    let families = vec![
        family(QUEUE_GRAPHICS | QUEUE_COMPUTE | QUEUE_TRANSFER),
        family(QUEUE_COMPUTE),
        family(QUEUE_TRANSFER),
    ];
    let (found, asked) = find_presenting(&families, &[]);
    assert_eq!(found, None);
    assert_eq!(asked, vec![0]);
}

#[test]
fn only_graphics_and_compute_families_are_asked() {
    let families = vec![
        family(QUEUE_TRANSFER),
        family(QUEUE_GRAPHICS | QUEUE_TRANSFER),
        family(QUEUE_COMPUTE),
        QueueFamilyProperties { queue_count: 0, queue_flags: QUEUE_GRAPHICS | QUEUE_COMPUTE },
        family(QUEUE_GRAPHICS | QUEUE_COMPUTE),
        family(QUEUE_GRAPHICS | QUEUE_COMPUTE),
    ];
    let (found, asked) = find_presenting(&families, &[5]);
    assert_eq!(found, Some(Families { graphics: 5, compute: 2, transfer: 0 }));
    assert_eq!(asked, vec![4, 5]);
}

#[test]
fn families_after_the_search_ends_are_not_asked() {
    let families = vec![
        family(QUEUE_TRANSFER),
        family(QUEUE_COMPUTE),
        family(QUEUE_GRAPHICS | QUEUE_COMPUTE),
        family(QUEUE_GRAPHICS | QUEUE_COMPUTE),
    ];
    let (found, asked) = find_presenting(&families, &[2, 3]);
    assert_eq!(found, Some(Families { graphics: 2, compute: 1, transfer: 0 }));
    assert_eq!(asked, vec![2]);
}

#[test]
fn video_families_are_not_transfer_families() {
    let families = vec![
        family(QUEUE_TRANSFER | QUEUE_VIDEO_DECODE),
        family(QUEUE_GRAPHICS | QUEUE_COMPUTE),
        family(QUEUE_COMPUTE),
    ];
    assert_eq!(find_presenting(&families, &[1]).0, None);
}

#[test]
fn empty_families_are_skipped() {
    let families = vec![
        QueueFamilyProperties { queue_count: 0, queue_flags: QUEUE_TRANSFER },
        family(QUEUE_GRAPHICS | QUEUE_COMPUTE),
        family(QUEUE_COMPUTE),
    ];
    assert_eq!(find_presenting(&families, &[1]).0, None);
}

#[test]
fn later_family_of_a_kind_replaces_earlier_one_until_complete() {
    let families = vec![
        family(QUEUE_TRANSFER),
        family(QUEUE_TRANSFER),
        family(QUEUE_COMPUTE),
        family(QUEUE_GRAPHICS | QUEUE_COMPUTE),
        family(QUEUE_TRANSFER),
    ];
    let (found, _) = find_presenting(&families, &[3]);
    assert_eq!(found, Some(Families { graphics: 3, compute: 2, transfer: 1 }));
}

#[test]
fn no_families_gives_none() {
    let (found, asked) = find_presenting(&Vec::new(), &[0]);
    assert_eq!(found, None);
    assert!(asked.is_empty());
}

#[test]
fn unique_drops_repeated_indices() {
    let f = Families { graphics: 0, compute: 0, transfer: 2 };
    let unique = f.unique();
    assert_eq!(unique.len(), 2);
    assert!(unique.contains(&0));
    assert!(unique.contains(&2));
    let g = Families { graphics: 0, compute: 1, transfer: 2 };
    assert_eq!(g.unique().len(), 3);
}

#[test]
fn families_info_completion() {
    let mut info = FamiliesInfo::default();
    assert!(!info.is_complete());
    assert_eq!(Families::try_from(info), None);
    info.graphics = Some(4);
    info.compute = Some(5);
    assert!(!info.is_complete());
    info.transfer = Some(6);
    assert!(info.is_complete());
    assert_eq!(Families::try_from(info), Some(Families { graphics: 4, compute: 5, transfer: 6 }));
}
