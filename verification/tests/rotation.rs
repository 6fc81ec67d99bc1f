use rlr::rotation::Rotation;

#[test]
fn four_turns_come_back() {
    for start in [Rotation::E, Rotation::S, Rotation::W, Rotation::N] {
        let mut r = start;
        for _ in 0..4 {
            let _ = r.next();
        }
        assert_eq!(r, start);
    }
}

#[test]
fn turns_go_clockwise() {
    let mut r = Rotation::E;
    assert_eq!(r.next(), None);
    assert_eq!(r, Rotation::S);
    assert_eq!(r.next(), Some((Some(false), None)));
    assert_eq!(r, Rotation::W);
    assert_eq!(r.next(), Some((Some(true), Some(false))));
    assert_eq!(r, Rotation::N);
    assert_eq!(r.next(), Some((None, Some(true))));
    assert_eq!(r, Rotation::E);
}

#[test]
fn predicates_pair_up_as_documented() {
    assert_eq!((Rotation::E.is_rotated(), Rotation::E.is_reversed()), (false, false));
    assert_eq!((Rotation::S.is_rotated(), Rotation::S.is_reversed()), (true, false));
    assert_eq!((Rotation::W.is_rotated(), Rotation::W.is_reversed()), (false, true));
    assert_eq!((Rotation::N.is_rotated(), Rotation::N.is_reversed()), (true, true));
}

#[test]
fn each_predicate_holds_for_two_states() {
    let all = [Rotation::E, Rotation::S, Rotation::W, Rotation::N];
    assert_eq!(all.iter().filter(|r| r.is_rotated()).count(), 2);
    assert_eq!(all.iter().filter(|r| r.is_reversed()).count(), 2);
}

#[test]
fn flip_from_east_gives_west() {
    let mut r = Rotation::E;
    r.flip();
    assert_eq!(r, Rotation::W);
    assert!(r.is_reversed());
    assert!(!r.is_rotated());
}

#[test]
fn flip_from_south_gives_north() {
    let mut r = Rotation::S;
    r.flip();
    assert_eq!(r, Rotation::N);
    assert!(r.is_reversed());
    assert!(r.is_rotated());
}

#[test]
fn flip_twice_changes_nothing() {
    for start in [Rotation::E, Rotation::S, Rotation::W, Rotation::N] {
        let mut r = start;
        r.flip();
        assert_eq!(r.is_rotated(), start.is_rotated());
        assert_eq!(r.is_reversed(), !start.is_reversed());
        r.flip();
        assert_eq!(r, start);
    }
}
