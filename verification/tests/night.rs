use fleethub_core::attack_power::{AttackPowerParams, CustomPowerModifiers, SpecialEnemyModifiers};
use fleethub_core::fixed::Fixed;
use fleethub_core::modifier::AttackPowerModifier;
use fleethub_core::night::{
    AntiPtImpAccuracyModifiers, AttackParams, DefenseParams, FormationParams, HistoricalParams,
    NightAttackParams, NightAttackStyle, NightAttackType, NightAttacker, NightConditions,
    NightContactModifiers, NightFleetConditions, NightPhaseAttackParams, NightPhaseAttackStyle,
    NightTarget, ProficiencyModifiers, ShipType, Side, TargetDefense,
};

fn units(n: i64) -> Fixed {
    Fixed::from_units(n)
}

fn scaled(raw: i64) -> Fixed {
    Fixed::from_scaled(raw)
}

fn attacker() -> NightAttacker {
    NightAttacker {
        side: Side::Player,
        level: 99,
        firepower: Some(units(80)),
        torpedo: Some(units(60)),
        night_power_ibonus: Fixed::zero(),
        night_accuracy_ibonus: Fixed::zero(),
        night_aerial_power: None,
        night_aerial_power_anti_inst: None,
        night_swordfish_power: None,
        night_swordfish_power_anti_inst: None,
        damage_state_power_mod: Fixed::one(),
        cruiser_fit_bonus: units(2),
        remaining_ammo_mod: Fixed::one(),
        model_d_small_gun_mod: Fixed::one(),
        basic_accuracy_term: Some(units(20)),
        accuracy: scaled(15000),
        morale_accuracy_mod: scaled(14000),
        gunfit_accuracy: scaled(25000),
        proficiency_modifiers: ProficiencyModifiers::default(),
        special_enemy_mods: SpecialEnemyModifiers::default(),
        custom_power_mods: CustomPowerModifiers::default(),
    }
}

fn target() -> NightTarget {
    NightTarget {
        ship_type: ShipType::DD,
        is_installation: false,
        is_new_supply_depot: false,
        has_searchlight: false,
        morale_hit_rate_mod: scaled(12000),
        evasion_term: Some(scaled(123000)),
        defense: TargetDefense {
            basic_defense_power: units(40),
            current_hp: 35,
            max_hp: 37,
            overkill_protection: true,
            sinkable: false,
        },
    }
}

fn conditions() -> NightConditions {
    let player = NightFleetConditions {
        night_contact_mods: NightContactModifiers {
            power_mod: units(5),
            accuracy_mod: scaled(11000),
            critical_rate_constant: scaled(15700),
        },
        starshell_accuracy_mod: units(5),
        searchlight_accuracy_mod: units(7),
    };
    let enemy = NightFleetConditions {
        night_contact_mods: NightContactModifiers {
            power_mod: Fixed::zero(),
            accuracy_mod: Fixed::one(),
            critical_rate_constant: scaled(15000),
        },
        starshell_accuracy_mod: Fixed::zero(),
        searchlight_accuracy_mod: Fixed::zero(),
    };
    NightConditions { player, enemy }
}

fn style() -> NightAttackStyle {
    NightAttackStyle {
        attack_type: NightAttackType::Normal,
        is_cutin: false,
        has_model_d_small_gun_mod: false,
        power_mod: scaled(13000),
        accuracy_mod: scaled(13000),
        hits: scaled(15000),
    }
}

fn params() -> NightAttackParams {
    NightAttackParams {
        style: style(),
        attacker: attacker(),
        target: target(),
        formation_params: FormationParams {
            power_mod: scaled(12000),
            accuracy_mod: scaled(12000),
            target_evasion_mod: Fixed::one(),
        },
        historical_params: HistoricalParams {
            power_mod: AttackPowerModifier::identity(),
            accuracy_mod: scaled(11000),
            target_evasion_mod: scaled(11000),
            armor_penetration: units(3),
        },
        night_conditions: conditions(),
        pt_accuracy_mods: AntiPtImpAccuracyModifiers::default(),
    }
}

#[test]
fn test_night_power_params_normal() {
    let p = params();
    let power_params = p.calc_attack_power_params(None).unwrap();

    // firepower + torpedo + equipment bonus + contact
    assert_eq!(power_params.basic, units(80 + 60 + 0 + 5));
    // damage * formation * cutin, with the fit bonus as the additive part
    assert_eq!(power_params.precap_mod.a, Fixed::one().mul(scaled(12000)).mul(scaled(13000)));
    assert_eq!(power_params.precap_mod.b, units(2));
    assert_eq!(power_params.cap, units(360));
    assert_eq!(power_params.armor_penetration, units(3));
    assert_eq!(power_params.proficiency_critical_mod, Fixed::one());
    assert!(!power_params.is_cutin);

    // 145 * 1.56 + 2 = 228.2, uncapped, floored to 228 after the cap
    let power = power_params.calc();
    assert_eq!(power.precap, scaled(2282000));
    assert!(!power.is_capped);
    assert_eq!(power.normal, units(228));
    assert_eq!(power.critical, units(342));
}

#[test]
fn test_missing_firepower_yields_absent_power() {
    let mut p = params();
    p.attacker.firepower = None;
    assert!(p.calc_attack_power_params(None).is_none());

    let attack_params = p.calc_attack_params();
    assert!(attack_params.attack_power_params.is_none());
    // the hit-rate side is still derived
    assert!(attack_params.hit_rate_params.is_some());
    // without a power result the armor penetration reported is zero
    assert_eq!(attack_params.defense_params.armor_penetration, Fixed::zero());
}

#[test]
fn test_missing_torpedo_only_counts_when_effective() {
    let mut p = params();
    p.attacker.torpedo = None;
    assert!(p.calc_attack_power_params(None).is_none());

    // against a plain installation the torpedo is zeroed, so its absence
    // no longer withholds the result
    p.target.is_installation = true;
    let power_params = p.calc_attack_power_params(None).unwrap();
    assert_eq!(power_params.basic, units(80 + 0 + 0 + 5));
}

#[test]
fn test_aerial_type_uses_derived_stat() {
    let mut p = params();
    p.style.attack_type = NightAttackType::Aerial;
    p.attacker.night_aerial_power = Some(units(90));
    p.attacker.night_aerial_power_anti_inst = Some(units(70));
    p.attacker.proficiency_modifiers = ProficiencyModifiers {
        critical_power_mod: scaled(11200),
        hit_percentage_bonus: units(9),
        critical_percentage_bonus: units(12),
    };

    let prof = Some(p.attacker.proficiency_modifiers);
    let power_params = p.calc_attack_power_params(prof).unwrap();
    assert_eq!(power_params.basic, units(90 + 5));
    assert_eq!(power_params.proficiency_critical_mod, scaled(11200));

    p.target.is_installation = true;
    let anti_inst = p.calc_attack_power_params(prof).unwrap();
    assert_eq!(anti_inst.basic, units(70 + 5));

    p.attacker.night_aerial_power_anti_inst = None;
    assert!(p.calc_attack_power_params(prof).is_none());
}

#[test]
fn test_accuracy_term_floor_positions() {
    let p = params();
    let term = p.calc_accuracy_term().unwrap();

    // (69 + 5) * 1.1 + 20 + 1.5 + 0 + 0 = 102.9, floored to 102
    let inner = units(69)
        .add(units(5))
        .mul(scaled(11000))
        .add(units(20))
        .add(scaled(15000))
        .floor();
    assert_eq!(inner, units(102));
    // 102 * 1.2 * 1.4 * 1.3 + 7 + 2.5 = 232.268, floored to 232
    let mid = inner
        .mul(scaled(12000))
        .mul(scaled(14000))
        .mul(scaled(13000))
        .add(units(7))
        .add(scaled(25000))
        .floor();
    assert_eq!(mid, units(232));
    // 232 * 1.1 = 255.2, floored to 255
    let outer = mid.mul(scaled(11000)).floor();
    assert_eq!(outer, units(255));

    assert_eq!(term, outer);
}

#[test]
fn test_accuracy_term_absent_without_basic_term() {
    let mut p = params();
    p.attacker.basic_accuracy_term = None;
    assert!(p.calc_accuracy_term().is_none());
    assert!(p.calc_hit_rate_params(None).is_none());
}

#[test]
fn test_hit_rate_params() {
    let p = params();
    let hr = p.calc_hit_rate_params(None).unwrap();
    assert_eq!(hr.accuracy_term, units(255));
    assert_eq!(hr.evasion_term, scaled(123000));
    assert_eq!(hr.target_morale_mod, scaled(12000));
    assert_eq!(hr.critical_rate_constant, scaled(15700));
    assert_eq!(hr.hit_percentage_bonus, Fixed::zero());
    assert_eq!(hr.critical_percentage_bonus, Fixed::zero());

    let prof = ProficiencyModifiers {
        critical_power_mod: scaled(11200),
        hit_percentage_bonus: units(9),
        critical_percentage_bonus: units(12),
    };
    let with_prof = p.calc_hit_rate_params(Some(prof)).unwrap();
    assert_eq!(with_prof.hit_percentage_bonus, units(9));
    assert_eq!(with_prof.critical_percentage_bonus, units(12));

    let mut no_evasion = p;
    no_evasion.target.evasion_term = None;
    assert!(no_evasion.calc_hit_rate_params(None).is_none());
}

#[test]
fn test_evasion_factors() {
    let mut p = params();
    p.target.ship_type = ShipType::CA;
    p.target.has_searchlight = true;
    let factors = p.calc_evasion_factors();
    assert_eq!(factors.formation_mod, Fixed::one());
    assert_eq!(factors.ship_type_additive, units(5));
    // 0.2 * 1.1
    assert_eq!(factors.postcap_multiplicative, scaled(2200));

    p.target.ship_type = ShipType::DD;
    p.target.has_searchlight = false;
    let plain = p.calc_evasion_factors();
    assert_eq!(plain.ship_type_additive, Fixed::zero());
    assert_eq!(plain.postcap_multiplicative, scaled(11000));
}

#[test]
fn test_hits_floored_below_experience_threshold() {
    let mut p = params();
    p.attacker.level = 79;
    assert_eq!(p.calc_attack_params().hits, units(1));
    p.attacker.level = 80;
    assert_eq!(p.calc_attack_params().hits, scaled(15000));
}

#[test]
fn test_attack_params_assembly() {
    let p = params();
    let attack_params = p.calc_attack_params();
    assert_eq!(attack_params.attack_power_params, p.calc_attack_power_params(None));
    assert_eq!(attack_params.hit_rate_params, p.calc_hit_rate_params(None));
    assert_eq!(attack_params.defense_params.armor_penetration, units(3));
    assert_eq!(attack_params.defense_params.basic_defense_power, units(40));
    assert_eq!(attack_params.defense_params.current_hp, 35);
    assert_eq!(attack_params.defense_params.max_hp, 37);
    assert!(attack_params.defense_params.overkill_protection);
    assert!(!attack_params.defense_params.sinkable);
}

fn phase_params(style: NightPhaseAttackStyle) -> NightPhaseAttackParams {
    let p = params();
    NightPhaseAttackParams {
        style,
        attacker: p.attacker,
        target: p.target,
        formation_params: p.formation_params,
        historical_params: p.historical_params,
        night_conditions: p.night_conditions,
        pt_accuracy_mods: p.pt_accuracy_mods,
        asw_attack_params: None,
    }
}

#[test]
fn test_night_phase_dispatch_night() {
    let phase = phase_params(NightPhaseAttackStyle::Night(style()));
    assert_eq!(phase.calc_attack_params(), params().calc_attack_params());
}

#[test]
fn test_night_phase_dispatch_asw() {
    let asw_result = AttackParams {
        attack_power_params: None,
        hit_rate_params: None,
        defense_params: DefenseParams::from_target(&target(), Fixed::zero()),
        hits: units(1),
    };
    let mut phase = phase_params(NightPhaseAttackStyle::Asw);
    phase.asw_attack_params = Some(asw_result);
    assert_eq!(phase.calc_attack_params(), asw_result);
}

#[test]
fn test_to_attack_runs_pipeline() {
    let phase = phase_params(NightPhaseAttackStyle::Night(style()));
    let attack = phase.to_attack();
    let expected_power = params().calc_attack_power_params(None).unwrap().calc();
    assert_eq!(attack.attack_power, Some(expected_power));
    assert_eq!(attack.hit_rate_params, params().calc_hit_rate_params(None));
    assert_eq!(attack.hits, scaled(15000));
}

#[test]
fn test_model_d_small_gun_mod_only_when_flagged() {
    let mut p = params();
    p.attacker.model_d_small_gun_mod = scaled(11500);
    let without = p.calc_attack_power_params(None).unwrap();
    assert_eq!(without.precap_mod.a, Fixed::one().mul(scaled(12000)).mul(scaled(13000)));

    p.style.has_model_d_small_gun_mod = true;
    let with = p.calc_attack_power_params(None).unwrap();
    assert_eq!(
        with.precap_mod.a,
        Fixed::one().mul(scaled(12000)).mul(scaled(13000)).mul(scaled(11500))
    );
}

#[test]
fn test_attacker_night_conditions_side() {
    let p = params();
    let conds = p.attacker_night_conditions();
    assert_eq!(conds.starshell_accuracy_mod, units(5));

    let mut enemy_side = p;
    enemy_side.attacker.side = Side::Enemy;
    let enemy_conds = enemy_side.attacker_night_conditions();
    assert_eq!(enemy_conds.starshell_accuracy_mod, Fixed::zero());
}
