use raytrace::scene::{BoundedList, CapacityExceeded, Scene, MAX_LIGHTS, MAX_SPHERES};

#[test]
fn bounded_list_keeps_order_until_full() {
    let mut l: BoundedList<u32> = BoundedList::new(3);
    assert_eq!(l.push(7), Ok(()));
    assert_eq!(l.push(8), Ok(()));
    assert_eq!(l.push(9), Ok(()));
    assert_eq!(l.push(10), Err(CapacityExceeded { capacity: 3 }));
    assert_eq!(l.as_slice(), &[7, 8, 9]);
    assert_eq!(l.len(), 3);
    assert_eq!(l.capacity(), 3);
}

#[test]
fn bounded_list_of_capacity_zero_refuses_everything() {
    let mut l: BoundedList<u8> = BoundedList::new(0);
    assert_eq!(l.push(1), Err(CapacityExceeded { capacity: 0 }));
    assert_eq!(l.len(), 0);
}

#[test]
fn scene_accepts_sixty_four_spheres_then_refuses() {
    let mut s: Scene<u32, u32> = Scene::new();
    assert_eq!(MAX_SPHERES, 64);
    for i in 0..64u32 {
        assert_eq!(s.add_sphere(i), Ok(()));
    }
    assert_eq!(s.add_sphere(99), Err(CapacityExceeded { capacity: 64 }));
    assert_eq!(s.spheres().len(), 64);
    assert_eq!(s.spheres()[0], 0);
    assert_eq!(s.spheres()[63], 63);
    assert!(s.lights().is_empty());
}

#[test]
fn scene_accepts_ten_lights_then_refuses() {
    let mut s: Scene<u32, (i32, i32)> = Scene::new();
    assert_eq!(MAX_LIGHTS, 10);
    for i in 0..10i32 {
        assert_eq!(s.add_light((i, -i)), Ok(()));
    }
    assert_eq!(s.add_light((100, 100)), Err(CapacityExceeded { capacity: 10 }));
    assert_eq!(s.lights().len(), 10);
    assert_eq!(s.lights()[9], (9, -9));
    assert!(s.spheres().is_empty());
    assert_eq!(s.add_sphere(5), Ok(()));
    assert_eq!(s.spheres(), &[5]);
}
