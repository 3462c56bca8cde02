use std::collections::VecDeque;

use hanoi::solver::{generate_moves, AutoGameMove};

fn moves_for(n: i32) -> Vec<(u32, u32)> {
    let mut queue: VecDeque<AutoGameMove> = VecDeque::new();
    generate_moves(&mut queue, n, 0, 2, 1);
    queue.iter().map(|m| (m.from, m.to)).collect()
}

#[test]
fn no_disks_no_moves() {
    assert!(moves_for(0).is_empty());
}

#[test]
fn one_disk_one_move() {
    assert_eq!(moves_for(1), vec![(0, 2)]);
}

#[test]
fn two_disks_three_moves() {
    assert_eq!(moves_for(2), vec![(0, 1), (0, 2), (1, 2)]);
}

#[test]
fn three_disks_classic_sequence() {
    assert_eq!(
        moves_for(3),
        vec![(0, 2), (0, 1), (2, 1), (0, 2), (1, 0), (1, 2), (0, 2)]
    );
}

#[test]
fn sequence_length_is_two_to_the_n_minus_one() {
    for n in 0..=10 {
        assert_eq!(moves_for(n).len(), (1usize << n) - 1);
    }
}

#[test]
fn generating_appends_to_the_back() {
    let mut queue: VecDeque<AutoGameMove> = VecDeque::new();
    queue.push_back(AutoGameMove { from: 2, to: 0 });
    generate_moves(&mut queue, 1, 0, 2, 1);
    assert_eq!(queue.pop_front(), Some(AutoGameMove { from: 2, to: 0 }));
    assert_eq!(queue.pop_front(), Some(AutoGameMove { from: 0, to: 2 }));
    assert!(queue.pop_front().is_none());
}

#[test]
fn peg_names_follow_the_arguments() {
    let mut queue: VecDeque<AutoGameMove> = VecDeque::new();
    generate_moves(&mut queue, 2, 1, 0, 2);
    let moves: Vec<(u32, u32)> = queue.iter().map(|m| (m.from, m.to)).collect();
    assert_eq!(moves, vec![(1, 2), (1, 0), (2, 0)]);
}
