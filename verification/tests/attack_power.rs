use fleethub_core::attack_power::{
    AttackPower, AttackPowerParams, CustomPowerModifiers, HitType, SpecialEnemyModifiers,
};
use fleethub_core::fixed::Fixed;
use fleethub_core::modifier::AttackPowerModifier;

fn units(n: i64) -> Fixed {
    Fixed::from_units(n)
}

fn scaled(raw: i64) -> Fixed {
    Fixed::from_scaled(raw)
}

fn mult(a_raw: i64) -> AttackPowerModifier {
    AttackPowerModifier::new(scaled(a_raw), Fixed::zero())
}

#[test]
fn test_attack_power() {
    let precap = AttackPowerParams {
        basic: units(150),
        precap_mod: mult(12000),
        custom_mods: CustomPowerModifiers { precap_mod: mult(13000), ..Default::default() },
        ..Default::default()
    }
    .calc();

    assert_eq!(precap.normal, units(150).mul(scaled(12000)).mul(scaled(13000)));

    let postcap = AttackPowerParams {
        basic: units(200),
        cap: units(180),
        postcap_mod: mult(12000),
        custom_mods: CustomPowerModifiers { postcap_mod: mult(13000), ..Default::default() },
        ..Default::default()
    }
    .calc();

    assert_eq!(
        postcap.normal,
        units(180).add(units(20).sqrt()).floor().mul(scaled(13000)).mul(scaled(12000))
    );
}

#[test]
fn test_soft_cap_metadata() {
    let power = AttackPowerParams {
        basic: units(200),
        cap: units(180),
        postcap_mod: mult(12000),
        custom_mods: CustomPowerModifiers { postcap_mod: mult(13000), ..Default::default() },
        ..Default::default()
    }
    .calc();

    assert!(power.is_capped);
    assert_eq!(power.precap, units(200));
    assert_eq!(power.capped, units(180).add(units(20).sqrt()));

    let below = AttackPowerParams { basic: units(170), cap: units(180), ..Default::default() }
        .calc();
    assert!(!below.is_capped);
    assert_eq!(below.capped, units(170));
    assert_eq!(below.normal, units(170));
}

#[test]
fn test_critical_is_floored_product() {
    let power = AttackPowerParams {
        basic: units(100),
        ap_shell_mod: Some(scaled(10800)),
        balloon_mod: scaled(10200),
        proficiency_critical_mod: scaled(13700),
        ..Default::default()
    }
    .calc();

    let expected = power.normal.mul(scaled(13700)).mul(scaled(15000)).floor();
    assert_eq!(power.critical, expected);
    assert!(power.critical.is_integral());

    let other = AttackPowerParams {
        basic: scaled(73300),
        proficiency_critical_mod: scaled(11060),
        ..Default::default()
    }
    .calc();
    assert_eq!(other.critical, other.normal.mul(scaled(11060)).mul(scaled(15000)).floor());
    assert!(other.critical.is_integral());
}

#[test]
fn test_cutin_order_differs() {
    let base = AttackPowerParams {
        basic: units(100),
        ap_shell_mod: Some(scaled(10800)),
        balloon_mod: scaled(10200),
        ..Default::default()
    };

    let cutin = AttackPowerParams { is_cutin: true, ..base }.calc();
    let normal = AttackPowerParams { is_cutin: false, ..base }.calc();

    // cutin: balloon first, then the AP-shell product floored
    assert_eq!(cutin.normal, units(100).mul(scaled(10200)).mul(scaled(10800)).floor());
    // otherwise: the AP-shell product floored first, then the balloon factor
    assert_eq!(normal.normal, units(100).mul(scaled(10800)).floor().mul(scaled(10200)));
    assert_ne!(cutin.normal, normal.normal);
}

#[test]
fn test_aerial_power_override() {
    let power = AttackPowerParams {
        basic: units(10),
        aerial_power: Some(units(5)),
        ..Default::default()
    }
    .calc();
    assert_eq!(power.precap, units(10).add(units(5)).mul(scaled(15000)).floor().add(units(25)));
    assert_eq!(power.precap, units(47));

    // the floor inside the branch drops the fractional carry-in too
    let fractional = AttackPowerParams {
        basic: scaled(101000),
        aerial_power: Some(units(5)),
        ..Default::default()
    }
    .calc();
    assert_eq!(fractional.precap, units(47));
}

#[test]
fn test_special_enemy_precap_chain() {
    let power = AttackPowerParams {
        basic: units(100),
        special_enemy_mods: SpecialEnemyModifiers {
            stype_mod: AttackPowerModifier::new(scaled(12000), units(3)),
            precap_general_mod: AttackPowerModifier::new(scaled(11000), units(7)),
            ..Default::default()
        },
        ..Default::default()
    }
    .calc();
    // (100 * 1.2 + 3) * 1.1 + 7
    assert_eq!(power.precap, units(100).mul(scaled(12000)).add(units(3)).mul(scaled(11000)).add(units(7)));
}

#[test]
fn test_pt_mod_recomputes_normal() {
    let pt = AttackPowerModifier::new(scaled(12000), units(1));
    let power = AttackPowerParams {
        basic: units(100),
        special_enemy_mods: SpecialEnemyModifiers { pt_mod: Some(pt), ..Default::default() },
        ..Default::default()
    }
    .calc();
    // pt applies to 0.3 * x + sqrt(x) + 10 with x = 100
    let inner = units(100).mul(scaled(3000)).add(units(100).sqrt()).add(units(10));
    assert_eq!(power.normal, inner.mul(scaled(12000)).add(units(1)));
}

#[test]
fn test_get_attack_term() {
    let power = AttackPowerParams { basic: units(120), ..Default::default() }.calc();
    assert_eq!(power.get_attack_term(HitType::Miss), Fixed::zero());
    assert_eq!(power.get_attack_term(HitType::Normal), power.normal);
    assert_eq!(power.get_attack_term(HitType::Critical), power.critical);
}

#[test]
fn test_default_params() {
    let d = AttackPowerParams::default();
    assert!(!d.is_cutin);
    assert_eq!(d.basic, Fixed::zero());
    assert_eq!(d.cap, Fixed::max_value());
    assert_eq!(d.proficiency_critical_mod, Fixed::one());
    assert_eq!(d.remaining_ammo_mod, Fixed::one());
    assert_eq!(d.balloon_mod, Fixed::one());
    assert!(d.ap_shell_mod.is_none());
    assert!(d.aerial_power.is_none());

    let power = d.calc();
    assert_eq!(power.normal, Fixed::zero());
    assert!(!power.is_capped);

    let out: AttackPower = power;
    assert_eq!(out.armor_penetration, Fixed::zero());
    assert_eq!(out.remaining_ammo_mod, Fixed::one());
}

#[test]
fn test_passthrough_fields() {
    let power = AttackPowerParams {
        basic: units(50),
        armor_penetration: scaled(12500),
        remaining_ammo_mod: scaled(8000),
        ..Default::default()
    }
    .calc();
    assert_eq!(power.armor_penetration, scaled(12500));
    assert_eq!(power.remaining_ammo_mod, scaled(8000));
}
