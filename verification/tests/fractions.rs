//! The exact unit-interval fractions.

use zss::frac::Frac;
use zss::program::Program;

#[test]
fn equal_values_in_different_terms() {
    let a = Frac::new(1, 2);
    let b = Frac::new(2073600, 4147200);
    assert!(a.eq_value(&b));
    assert!(b.eq_value(&a));
    assert!(!a.eq_value(&Frac::new(1, 3)));
}

#[test]
fn order_by_value() {
    let third = Frac::new(1, 3);
    let half = Frac::new(1, 2);
    assert!(third.le_value(&half));
    assert!(!half.le_value(&third));
    assert!(half.le_value(&half));
}

#[test]
fn zero_and_one_are_the_endpoints() {
    let z = Frac::zero();
    let o = Frac::one();
    assert!(z.le_value(&o));
    assert!(z.eq_value(&Frac::new(0, 7)));
    assert!(o.eq_value(&Frac::new(9, 9)));
}

#[test]
fn program_keeps_its_handles() {
    let p = Program::new(42, 3);
    assert_eq!(p.id(), 42);
    assert_eq!(p.tex_offset_location(), 3);
}
