use hanoi::game_master::GameMaster;
use hanoi::solver::AutoGameMove;

/// Runs frames with no key until the animation in flight has finished.
fn drain_animation(master: &mut GameMaster) {
    let mut guard = 0;
    while master.animator.is_in_animation() {
        master.update(None);
        guard += 1;
        assert!(guard <= 200, "an animation must finish within 100 ticks");
    }
}

#[test]
fn initialize_stacks_all_disks_on_first_peg() {
    let mut master = GameMaster::new();
    master.initialize(5);
    assert_eq!(master.stack_one, vec![5, 4, 3, 2, 1]);
    assert!(master.stack_two.is_empty());
    assert!(master.stack_three.is_empty());
    assert_eq!(master.positions.len(), 5);
    // the widest disk lies on the ground plane of the first peg
    assert_eq!(master.positions[4].x, -15000);
    assert_eq!(master.positions[4].y, -6000);
    assert_eq!(master.positions[4].z, -12000);
    // the narrowest sits four stacking steps higher
    assert_eq!(master.positions[0].y, -6000 + 4 * 600);
    assert!(master.playing);
    assert!(!master.check_win_condition());
}

#[test]
fn single_disk_game_is_won_in_one_move() {
    let mut master = GameMaster::new();
    master.initialize(1);

    let first = master.update(Some('1'));
    assert!(first.attempted.is_none());
    assert!(!first.committed);

    let second = master.update(Some('3'));
    assert_eq!(second.attempted, Some(AutoGameMove { from: 0, to: 2 }));
    assert!(second.committed);

    assert!(master.stack_one.is_empty());
    assert_eq!(master.stack_three, vec![1]);
    assert!(master.check_win_condition());

    drain_animation(&mut master);
    let report = master.update(None);
    assert!(report.won_now);
    assert!(!master.playing);
}

#[test]
fn two_disk_interactive_game() {
    let mut master = GameMaster::new();
    master.initialize(2);

    for (a, b) in [('1', '2'), ('1', '3'), ('2', '3')] {
        master.update(Some(a));
        let report = master.update(Some(b));
        assert!(report.committed);
        drain_animation(&mut master);
    }

    assert_eq!(master.stack_three, vec![2, 1]);
    assert!(master.check_win_condition());
}

#[test]
fn auto_play_three_disks_solves_the_game() {
    let mut master = GameMaster::new();
    master.initialize(3);

    let latch = master.update(Some('A'));
    assert!(!latch.committed);
    assert!(master.auto_gamer);

    let mut committed: Vec<(u32, u32)> = Vec::new();
    let mut guard = 0;
    while master.playing {
        let report = master.update(None);
        if report.committed {
            let mv = report.attempted.unwrap();
            committed.push((mv.from, mv.to));
        }
        guard += 1;
        assert!(guard <= 5000, "auto-play must finish the game");
    }

    assert_eq!(
        committed,
        vec![(0, 2), (0, 1), (2, 1), (0, 2), (1, 0), (1, 2), (0, 2)]
    );
    assert_eq!(committed.len(), 7);
    assert_eq!(master.stack_three, vec![3, 2, 1]);
    assert!(master.check_win_condition());
}

#[test]
fn invalid_move_is_rejected_and_selection_cleared() {
    let mut master = GameMaster::new();
    master.initialize(3);

    assert!(!master.check_if_move_possible(0, 0));

    master.update(Some('1'));
    let report = master.update(Some('1'));
    assert_eq!(report.attempted, Some(AutoGameMove { from: 0, to: 0 }));
    assert!(!report.committed);
    assert!(master.button_choice_1.is_none());
    assert_eq!(master.stack_one, vec![3, 2, 1]);
    assert!(master.stack_two.is_empty());
    assert!(master.stack_three.is_empty());
    assert!(!master.animator.is_in_animation());
}

#[test]
fn moving_from_an_empty_peg_is_rejected() {
    let mut master = GameMaster::new();
    master.initialize(2);

    master.update(Some('2'));
    let report = master.update(Some('3'));
    assert!(!report.committed);
    assert_eq!(master.stack_one, vec![2, 1]);
}

#[test]
fn wider_disk_cannot_land_on_narrower() {
    let mut master = GameMaster::new();
    master.initialize(2);

    // disk 1 to the second peg, then try disk 2 onto it
    master.update(Some('1'));
    assert!(master.update(Some('2')).committed);
    drain_animation(&mut master);

    master.update(Some('1'));
    let report = master.update(Some('2'));
    assert!(!report.committed);
    assert_eq!(master.stack_one, vec![2]);
    assert_eq!(master.stack_two, vec![1]);
}

#[test]
fn disk_count_and_ordering_hold_after_every_move() {
    let mut master = GameMaster::new();
    master.initialize(3);
    master.update(Some('A'));

    let mut guard = 0;
    while master.playing {
        master.update(None);
        let total = master.stack_one.len() + master.stack_two.len() + master.stack_three.len();
        assert_eq!(total, 3);
        for stack in [&master.stack_one, &master.stack_two, &master.stack_three] {
            for pair in stack.windows(2) {
                assert!(pair[0] > pair[1]);
            }
        }
        guard += 1;
        assert!(guard <= 5000);
    }
}

#[test]
fn playing_stays_false_after_the_win() {
    let mut master = GameMaster::new();
    master.initialize(1);
    master.update(Some('1'));
    master.update(Some('3'));
    drain_animation(&mut master);
    let report = master.update(None);
    assert!(report.won_now);

    for _ in 0..50 {
        let later = master.update(Some('1'));
        assert!(!later.won_now);
        assert!(!master.playing);
    }
    assert_eq!(master.stack_three, vec![1]);
}

#[test]
fn committed_move_queues_flight_to_the_resting_place() {
    let mut master = GameMaster::new();
    master.initialize(2);

    master.update(Some('1'));
    assert!(master.update(Some('3')).committed);

    // disk 1 flies from its stacked spot on the first peg to the empty
    // third peg: column at x = 15, ground level, far depth (in milliunits)
    assert_eq!(master.animator.animated, Some(1));
    let start = master.animator.starting_pos.unwrap();
    assert_eq!((start.x, start.y, start.z), (-15000, -6000 + 600, -12000));
    let target = master.animator.target_pos.unwrap();
    assert_eq!((target.x, target.y, target.z), (15000, -6000, -12000));
}

#[test]
fn largest_allowed_game_initializes() {
    let mut master = GameMaster::new();
    master.initialize(1000);
    assert_eq!(master.stack_one.len(), 1000);
    assert_eq!(master.stack_one[0], 1000);
    assert_eq!(master.stack_one[999], 1);
    assert_eq!(master.positions.len(), 1000);
    // the top disk sits 999 stacking steps above the ground plane
    assert_eq!(master.positions[0].y, -6000 + 999 * 600);
    assert!(!master.check_win_condition());

    master.update(Some('1'));
    assert!(master.update(Some('2')).committed);
    assert_eq!(master.stack_two, vec![1]);
}

#[test]
fn keys_other_than_pegs_and_auto_are_ignored() {
    let mut master = GameMaster::new();
    master.initialize(2);

    let report = master.update(Some('x'));
    assert!(report.attempted.is_none());
    assert!(!report.committed);
    assert!(!master.auto_gamer);
    assert!(master.button_choice_1.is_none());
    assert_eq!(master.stack_one, vec![2, 1]);
}

#[test]
fn update_while_animating_only_ticks_the_animation() {
    let mut master = GameMaster::new();
    master.initialize(2);
    master.update(Some('1'));
    assert!(master.update(Some('3')).committed);
    assert!(master.animator.is_in_animation());

    // a key pressed mid-flight is not routed
    let report = master.update(Some('1'));
    assert!(report.attempted.is_none());
    assert!(master.button_choice_1.is_none());
}
