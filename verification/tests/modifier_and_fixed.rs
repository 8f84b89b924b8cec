use fleethub_core::fixed::Fixed;
use fleethub_core::modifier::AttackPowerModifier;

fn units(n: i64) -> Fixed {
    Fixed::from_units(n)
}

fn scaled(raw: i64) -> Fixed {
    Fixed::from_scaled(raw)
}

#[test]
fn test_fixed_arithmetic() {
    assert_eq!(units(2).add(units(3)), units(5));
    assert_eq!(units(2).sub(units(3)), scaled(-10000));
    assert_eq!(units(6).mul(scaled(15000)), units(9));
    assert_eq!(scaled(12000).mul(scaled(13000)), scaled(15600));
    assert!(units(3).gt(units(2)));
    assert!(!units(2).gt(units(2)));
}

#[test]
fn test_fixed_floor() {
    assert_eq!(scaled(15000).floor(), units(1));
    assert_eq!(units(2).floor(), units(2));
    // floor rounds toward negative infinity
    assert_eq!(scaled(-15000).floor(), units(-2));
    assert!(scaled(15000).floor().is_integral());
    assert!(!scaled(15000).is_integral());
}

#[test]
fn test_fixed_sqrt() {
    assert_eq!(units(9).sqrt(), units(3));
    assert_eq!(units(2).sqrt(), scaled(14142));
    assert_eq!(units(20).sqrt(), scaled(44721));
    assert_eq!(Fixed::zero().sqrt(), Fixed::zero());
}

#[test]
fn test_modifier_apply() {
    let m = AttackPowerModifier::new(scaled(12000), units(3));
    assert_eq!(m.apply(units(10)), units(15));
    let id = AttackPowerModifier::identity();
    assert_eq!(id.apply(scaled(123456)), scaled(123456));
    assert_eq!(AttackPowerModifier::default(), id);
}

#[test]
fn test_modifier_compose() {
    let first = AttackPowerModifier::new(scaled(12000), units(3));
    let second = AttackPowerModifier::new(scaled(13000), units(2));
    let composed = first.compose(second);
    // a = 1.2 * 1.3, b = 3 * 1.3 + 2
    assert_eq!(composed.a, scaled(15600));
    assert_eq!(composed.b, scaled(59000));
    // applying the composition is applying the parts in turn
    assert_eq!(composed.apply(units(10)), second.apply(first.apply(units(10))));
}

#[test]
fn test_compose_associative_on_grid() {
    // whole-unit components keep every product on the grid, where
    // composition is associative
    let m1 = AttackPowerModifier::new(units(2), units(3));
    let m2 = AttackPowerModifier::new(units(5), units(7));
    let m3 = AttackPowerModifier::new(units(4), units(1));
    let left = m1.compose(m2).compose(m3);
    let right = m1.compose(m2.compose(m3));
    assert_eq!(left, right);
}
