use raytrace::reflection::{reflection_depth, MAX_REFLECTION_DEPTH};

#[test]
fn reflection_goes_one_level_deeper_below_the_cap() {
    assert_eq!(reflection_depth(0), Some(1));
    assert_eq!(reflection_depth(3), Some(4));
}

#[test]
fn reflection_stops_at_the_cap() {
    assert_eq!(MAX_REFLECTION_DEPTH, 4);
    assert_eq!(reflection_depth(4), None);
    assert_eq!(reflection_depth(u32::MAX), None);
}

#[test]
fn mirror_chain_stops_after_four_bounces() {
    let mut depth = 0u32;
    let mut bounces = 0u32;
    while let Some(d) = reflection_depth(depth) {
        depth = d;
        bounces += 1;
        assert!(bounces <= 4);
    }
    assert_eq!(bounces, 4);
    assert_eq!(depth, 4);
}
