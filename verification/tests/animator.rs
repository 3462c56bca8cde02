use hanoi::animator::{Anmiator, Vec3Milli};

fn v(x: i32, y: i32, z: i32) -> Vec3Milli {
    Vec3Milli { x, y, z }
}

#[test]
fn fresh_animator_is_idle_and_update_is_a_no_op() {
    let mut anim = Anmiator::new();
    assert!(!anim.is_in_animation());
    assert!(anim.update().is_none());
    assert!(!anim.is_in_animation());
}

#[test]
fn tween_steps_a_hundredth_of_the_distance_per_tick() {
    let mut anim = Anmiator::new();
    // one world unit along x, in milliunits
    anim.queue_animation(1, v(0, 0, 0), v(1000, 0, 0));
    assert!(anim.is_in_animation());

    let (disk, pos) = anim.update().unwrap();
    assert_eq!(disk, 1);
    assert_eq!(pos, v(10, 0, 0));

    let (_, pos) = anim.update().unwrap();
    assert_eq!(pos, v(20, 0, 0));
}

#[test]
fn tween_ends_when_it_enters_the_tolerance_box() {
    let mut anim = Anmiator::new();
    anim.queue_animation(1, v(0, 0, 0), v(1000, 0, 0));

    // 90 ticks bring x to 900, still a full tenth of a unit short
    for k in 1..=90 {
        let (_, pos) = anim.update().unwrap();
        assert_eq!(pos.x, 10 * k);
    }
    assert!(anim.is_in_animation());

    // the 91st tick reaches 910, strictly inside the box, and frees the slot
    let (_, pos) = anim.update().unwrap();
    assert_eq!(pos.x, 910);
    assert!(!anim.is_in_animation());
}

#[test]
fn start_equal_to_target_completes_on_the_first_tick() {
    let mut anim = Anmiator::new();
    anim.queue_animation(7, v(500, -200, 0), v(500, -200, 0));
    let (disk, pos) = anim.update().unwrap();
    assert_eq!(disk, 7);
    assert_eq!(pos, v(500, -200, 0));
    assert!(!anim.is_in_animation());
}

#[test]
fn any_flight_finishes_within_a_hundred_ticks() {
    let starts = [v(-987654, 13, 40001), v(999999, -999999, 77), v(3, 3, 3)];
    let targets = [v(123456, -654321, 999999), v(0, 0, 0), v(-7, 1000000, -3)];
    for (s, t) in starts.iter().zip(targets.iter()) {
        let mut anim = Anmiator::new();
        anim.queue_animation(2, *s, *t);
        let mut ticks = 0;
        while anim.is_in_animation() {
            let (_, pos) = anim.update().unwrap();
            ticks += 1;
            assert!(ticks <= 100);
            if !anim.is_in_animation() {
                assert!((pos.x - t.x).abs() < 100);
                assert!((pos.y - t.y).abs() < 100);
                assert!((pos.z - t.z).abs() < 100);
            }
        }
    }
}

#[test]
fn a_new_animation_overwrites_the_one_in_flight() {
    let mut anim = Anmiator::new();
    anim.queue_animation(1, v(0, 0, 0), v(1000, 0, 0));
    anim.update().unwrap();

    anim.queue_animation(2, v(0, 0, 0), v(0, 2000, 0));
    let (disk, pos) = anim.update().unwrap();
    assert_eq!(disk, 2);
    assert_eq!(pos, v(0, 20, 0));
}

#[test]
fn cancel_clears_the_slot_without_snapping() {
    let mut anim = Anmiator::new();
    anim.queue_animation(1, v(0, 0, 0), v(1000, 0, 0));
    let (_, pos) = anim.update().unwrap();
    assert_eq!(pos, v(10, 0, 0));

    anim.cancel();
    assert!(!anim.is_in_animation());
    assert!(anim.update().is_none());
}
