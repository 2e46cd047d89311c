use kisan_ai::score::Score;

#[test]
fn zero_is_not_positive() {
    let zero = Score::zero();
    assert!(!zero.is_positive());
    assert_eq!(zero.to_halves(), Some(0));
    assert!(!zero.exceeds(&Score::zero()));
}

#[test]
fn plus_adds_half_points() {
    let score = Score::zero().plus(3).plus(4);
    assert_eq!(score.to_halves(), Some(7));
    assert!(score.is_positive());
    assert!(score.exceeds(&Score::zero().plus(6)));
    assert!(!score.exceeds(&Score::zero().plus(7)));
    assert!(!score.exceeds(&Score::zero().plus(8)));
}

#[test]
fn plus_carries_instead_of_wrapping() {
    let full = Score::zero().plus(u128::MAX);
    assert_eq!(full.to_halves(), Some(u128::MAX));
    let over = full.plus(1);
    assert_eq!(over.to_halves(), None);
    assert!(over.is_positive());
    assert!(over.exceeds(&full));
    assert!(!full.exceeds(&over));
    let more = over.plus(5);
    assert!(more.exceeds(&over));
    let twice = full.plus(u128::MAX);
    assert!(twice.exceeds(&more));
    assert!(!more.exceeds(&twice));
}
