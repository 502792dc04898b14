use rvkern::palloc::{Alloc, Page, PAGE_SIZE};

const HEAP: usize = 0x1000_0000;

fn snapshot(a: &Alloc) -> Vec<(bool, bool, usize)> {
    let mut v = Vec::new();
    let mut i = 0;
    while i < a.num_pages() {
        let p = a.page(i);
        v.push((p.taken(), p.last(), p.num_reserved()));
        i += 1;
    }
    v
}

#[test]
fn page_descriptor_bits() {
    let mut p = Page::empty();
    assert!(!p.taken());
    assert!(!p.last());
    assert_eq!(p.num_reserved(), 0);
    p.set_taken(true);
    p.set_num_reserved(5);
    assert!(p.taken());
    assert!(!p.last());
    assert_eq!(p.num_reserved(), 5);
    p.set_last(true);
    assert!(p.taken());
    assert!(p.last());
    assert_eq!(p.num_reserved(), 5);
    p.set_taken(false);
    p.set_num_reserved(0);
    assert!(!p.taken());
    assert!(p.last());
    assert_eq!(p.num_reserved(), 0);
}

#[test]
fn init_marks_only_the_final_descriptor() {
    let a = Alloc::init(HEAP, HEAP + 10 * PAGE_SIZE);
    assert_eq!(a.num_pages(), 10);
    for i in 0..10 {
        let p = a.page(i);
        assert!(!p.taken());
        assert_eq!(p.num_reserved(), 0);
        assert_eq!(p.last(), i == 9);
    }
}

#[test]
fn allocator_basic() {
    let mut a = Alloc::init(HEAP, HEAP + 10 * PAGE_SIZE);
    let pa = a.get(2).expect("two pages fit");
    let pb = a.get(2).expect("two more pages fit");
    let pc = a.get(2).expect("two more pages fit");
    assert_eq!(pb - pa, 2 * PAGE_SIZE);
    assert_eq!(pc - pb, 2 * PAGE_SIZE);
    a.free(pb);
    let pd = a.get(1).expect("freed pages are reusable");
    assert_eq!(pd, pb);
    let pe = a.get(1).expect("one more page fits");
    assert_eq!(pe, pb + PAGE_SIZE);
}

#[test]
fn allocator_exhaustion() {
    let mut a = Alloc::init(HEAP, HEAP + 4 * PAGE_SIZE);
    let _pa = a.get(4).expect("the whole heap fits");
    assert_eq!(a.get(1), None);
}

#[test]
fn taken_pages_match_recorded_run_lengths() {
    let mut a = Alloc::init(HEAP, HEAP + 12 * PAGE_SIZE);
    let p1 = a.get(3).expect("fits");
    let _p2 = a.get(1).expect("fits");
    let p3 = a.get(4).expect("fits");
    a.free(p1);
    let _p4 = a.get(2).expect("fits");
    a.free(p3);
    let mut taken = 0usize;
    let mut reserved = 0usize;
    for i in 0..a.num_pages() {
        let p = a.page(i);
        if p.taken() {
            taken += 1;
        }
        reserved += p.num_reserved();
    }
    assert_eq!(taken, reserved);
}

#[test]
fn free_after_get_restores_the_descriptors() {
    let mut a = Alloc::init(HEAP, HEAP + 8 * PAGE_SIZE);
    let _p1 = a.get(2).expect("fits");
    let before = snapshot(&a);
    let q = a.get(3).expect("fits");
    a.free(q);
    assert_eq!(snapshot(&a), before);
}

#[test]
fn allocations_do_not_overlap() {
    let mut a = Alloc::init(HEAP, HEAP + 10 * PAGE_SIZE);
    let p1 = a.get(3).expect("fits");
    let p2 = a.get(4).expect("fits");
    assert!(p1 + 3 * PAGE_SIZE <= p2 || p2 + 4 * PAGE_SIZE <= p1);
    let end = HEAP + 10 * PAGE_SIZE;
    assert!(HEAP < p1 && p1 + 3 * PAGE_SIZE <= end);
    assert!(HEAP < p2 && p2 + 4 * PAGE_SIZE <= end);
}

#[test]
fn single_page_heap() {
    let mut a = Alloc::init(HEAP, HEAP + PAGE_SIZE);
    assert_eq!(a.num_pages(), 1);
    assert!(a.page(0).last());
    let p = a.get(1).expect("the one page fits");
    assert_eq!(p, HEAP + PAGE_SIZE);
    assert_eq!(a.get(1), None);
    a.free(p);
    assert_eq!(a.get(1), Some(p));
}

#[test]
fn largest_recordable_run() {
    let mut a = Alloc::init(HEAP, HEAP + 80 * PAGE_SIZE);
    let p = a.get(63).expect("a 63-page run fits");
    assert_eq!(p, HEAP + PAGE_SIZE);
    let q = a.get(17).expect("the tail still fits");
    assert_eq!(q, HEAP + 64 * PAGE_SIZE);
    assert_eq!(a.get(1), None);
}

#[test]
fn first_fit_skips_over_allocations() {
    let mut a = Alloc::init(HEAP, HEAP + 6 * PAGE_SIZE);
    let p1 = a.get(1).expect("fits");
    let p2 = a.get(2).expect("fits");
    let _p3 = a.get(1).expect("fits");
    a.free(p1);
    a.free(p2);
    // Pages 0..3 are free again but a three-page run only fits at 0.
    let q = a.get(3).expect("coalesced space fits");
    assert_eq!(q, p1);
}
