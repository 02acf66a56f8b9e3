use skia_safe::refcnt::RefCount;

#[test]
fn clones_then_drops_destroy_once() {
    let mut rc = RefCount::new();
    assert!(rc.unique());
    for _ in 0..3 {
        let before = rc.count();
        rc.ref_cnt();
        assert!(rc.count() >= before);
    }
    assert_eq!(rc.count(), 4);
    assert!(!rc.unique());
    let mut destroyed = 0;
    for _ in 0..4 {
        if rc.unref() {
            destroyed += 1;
        }
    }
    assert_eq!(rc.count(), 0);
    assert_eq!(destroyed, 1);
    assert_eq!(rc.destructions(), 1);
}
