//! Night-battle derivation and dispatch.
//!
//! From resolved snapshots of the attacker and the target, a night attack
//! style and the shared fleet conditions, the derivation builds the power
//! pipeline's input, the accuracy and evasion terms and the hit-rate
//! parameters. The phase dispatch selects between this night-gun derivation
//! and the anti-submarine derivation, whose own computation is a collaborator
//! outside this crate and is handed in as a resolved result.

use vstd::prelude::*;

verus! {

use crate::attack_power::AttackPower;
use crate::attack_power::AttackPowerParams;
use crate::attack_power::SpecialEnemyModifiers;
use crate::attack_power::CustomPowerModifiers;
use crate::attack_power::calc_fits;
use crate::attack_power::spec_calc;
use crate::fixed::Fixed;
use crate::fixed::SCALE;
use crate::fixed::floor_raw;
use crate::fixed::in_range;
use crate::fixed::mul_raw;
use crate::modifier::AttackPowerModifier;

/// The attack power cap of night battle: 360 units.
pub const NIGHT_POWER_CAP: i64 = 3600000;

/// The base constant of the night accuracy term: 69 units.
pub const NIGHT_ACCURACY_CONSTANT: i64 = 690000;

/// Attacker level at which a fractional nominal hit count is kept
/// instead of floored.
pub const EXPERIENCE_THRESHOLD: u16 = 80;

/// Flat evasion bonus of heavy-cruiser-class targets: 5 units.
pub const EVASION_SHIP_TYPE_BONUS: i64 = 50000;

/// Evasion multiplier of a target that carries a searchlight: 0.2.
pub const SEARCHLIGHT_EVASION_MULT: i64 = 2000;

/// Which fleet a unit belongs to.
#[derive(Clone, Copy, Debug, PartialEq)]
pub enum Side {
    Player,
    Enemy,
}

/// The target's ship type, as far as the night derivation reads it.
#[derive(Clone, Copy, Debug, PartialEq)]
pub enum ShipType {
    DD,
    CL,
    CLT,
    CA,
    CAV,
    BB,
    CV,
    SS,
    Other,
}

/// The kind of night attack a style performs.
#[derive(Clone, Copy, Debug, PartialEq)]
pub enum NightAttackType {
    Normal,
    Aerial,
    Swordfish,
}

/// A night attack style: its kind, its flags and its own modifiers.
#[derive(Clone, Copy, Debug, PartialEq)]
pub struct NightAttackStyle {
    pub attack_type: NightAttackType,
    /// whether the style is a cutin (a special attack with altered
    /// postcap step ordering)
    pub is_cutin: bool,
    /// whether the gun-model small-gun correction applies to this style
    pub has_model_d_small_gun_mod: bool,
    pub power_mod: Fixed,
    pub accuracy_mod: Fixed,
    /// nominal hit count; may be fractional
    pub hits: Fixed,
}

/// Crew aviation proficiency bonuses.
#[derive(Clone, Copy, Debug, PartialEq)]
pub struct ProficiencyModifiers {
    pub critical_power_mod: Fixed,
    pub hit_percentage_bonus: Fixed,
    pub critical_percentage_bonus: Fixed,
}

impl Default for ProficiencyModifiers {
    /// No proficiency: unit critical power modifier, no percentage bonuses.
    fn default() -> (r: Self)
        ensures
            r.critical_power_mod.raw == SCALE,
            r.hit_percentage_bonus.raw == 0,
            r.critical_percentage_bonus.raw == 0,
    {
        ProficiencyModifiers {
            critical_power_mod: Fixed::one(),
            hit_percentage_bonus: Fixed::zero(),
            critical_percentage_bonus: Fixed::zero(),
        }
    }
}

/// Modifiers from having established night contact.
#[derive(Clone, Copy, Debug, PartialEq)]
pub struct NightContactModifiers {
    pub power_mod: Fixed,
    pub accuracy_mod: Fixed,
    pub critical_rate_constant: Fixed,
}

/// One fleet's night conditions: contact, starshell and searchlight.
#[derive(Clone, Copy, Debug, PartialEq)]
pub struct NightFleetConditions {
    pub night_contact_mods: NightContactModifiers,
    pub starshell_accuracy_mod: Fixed,
    pub searchlight_accuracy_mod: Fixed,
}

/// Both fleets' night conditions.
#[derive(Clone, Copy, Debug, PartialEq)]
pub struct NightConditions {
    pub player: NightFleetConditions,
    pub enemy: NightFleetConditions,
}

/// The night conditions of the fleet on `side`.
pub open spec fn spec_fleet_conditions(nc: NightConditions, side: Side) -> NightFleetConditions {
    match side {
        Side::Player => nc.player,
        Side::Enemy => nc.enemy,
    }
}

impl NightConditions {
    /// The night conditions of the fleet on `side`.
    pub fn night_fleet_conditions(&self, side: Side) -> (r: NightFleetConditions)
        ensures
            r == spec_fleet_conditions(*self, side),
    {
        match side {
            Side::Player => self.player,
            Side::Enemy => self.enemy,
        }
    }
}

/// Formation modifiers, resolved by the fleet layer.
#[derive(Clone, Copy, Debug, PartialEq)]
pub struct FormationParams {
    pub power_mod: Fixed,
    pub accuracy_mod: Fixed,
    pub target_evasion_mod: Fixed,
}

/// Historical tuning corrections, resolved by the event layer.
#[derive(Clone, Copy, Debug, PartialEq)]
pub struct HistoricalParams {
    pub power_mod: AttackPowerModifier,
    pub accuracy_mod: Fixed,
    pub target_evasion_mod: Fixed,
    pub armor_penetration: Fixed,
}

/// Anti-PT-boat accuracy corrections, resolved from the attacker's and the
/// target's equipment by the unit layer.
#[derive(Clone, Copy, Debug, PartialEq)]
pub struct AntiPtImpAccuracyModifiers {
    pub amagiri_mod: Fixed,
    pub multiplicative: Fixed,
    pub additive: Fixed,
    pub ship_type_mod: Fixed,
    pub equipment_mod: Fixed,
    pub night_mod: Fixed,
}

impl Default for AntiPtImpAccuracyModifiers {
    /// No correction: unit factors, zero additive terms.
    fn default() -> (r: Self)
        ensures
            r.amagiri_mod.raw == 0,
            r.multiplicative.raw == SCALE,
            r.additive.raw == 0,
            r.ship_type_mod.raw == SCALE,
            r.equipment_mod.raw == SCALE,
            r.night_mod.raw == SCALE,
    {
        AntiPtImpAccuracyModifiers {
            amagiri_mod: Fixed::zero(),
            multiplicative: Fixed::one(),
            additive: Fixed::zero(),
            ship_type_mod: Fixed::one(),
            equipment_mod: Fixed::one(),
            night_mod: Fixed::one(),
        }
    }
}

/// What the night derivation reads of the attacking unit: scalar stats and
/// modifiers resolved by the unit layer. An absent stat means the unit does
/// not have it at all.
#[derive(Clone, Copy, Debug, PartialEq)]
pub struct NightAttacker {
    pub side: Side,
    pub level: u16,
    pub firepower: Option<Fixed>,
    pub torpedo: Option<Fixed>,
    /// equipment bonus sum on night power
    pub night_power_ibonus: Fixed,
    /// equipment bonus sum on night accuracy
    pub night_accuracy_ibonus: Fixed,
    /// derived night aerial power against a non-installation target
    pub night_aerial_power: Option<Fixed>,
    /// derived night aerial power against an installation target
    pub night_aerial_power_anti_inst: Option<Fixed>,
    /// derived night swordfish power against a non-installation target
    pub night_swordfish_power: Option<Fixed>,
    /// derived night swordfish power against an installation target
    pub night_swordfish_power_anti_inst: Option<Fixed>,
    pub damage_state_power_mod: Fixed,
    pub cruiser_fit_bonus: Fixed,
    pub remaining_ammo_mod: Fixed,
    pub model_d_small_gun_mod: Fixed,
    pub basic_accuracy_term: Option<Fixed>,
    pub accuracy: Fixed,
    pub morale_accuracy_mod: Fixed,
    pub gunfit_accuracy: Fixed,
    pub proficiency_modifiers: ProficiencyModifiers,
    /// special-enemy corrections against this derivation's target
    pub special_enemy_mods: SpecialEnemyModifiers,
    pub custom_power_mods: CustomPowerModifiers,
}

/// The target's defense scalars, resolved by the unit layer.
#[derive(Clone, Copy, Debug, PartialEq)]
pub struct TargetDefense {
    pub basic_defense_power: Fixed,
    pub current_hp: u16,
    pub max_hp: u16,
    pub overkill_protection: bool,
    pub sinkable: bool,
}

/// What the night derivation reads of the target unit.
#[derive(Clone, Copy, Debug, PartialEq)]
pub struct NightTarget {
    pub ship_type: ShipType,
    pub is_installation: bool,
    pub is_new_supply_depot: bool,
    pub has_searchlight: bool,
    pub morale_hit_rate_mod: Fixed,
    /// the target's base evasion computation — a capability of the target
    /// outside this crate — evaluated at this derivation's evasion factors
    /// (see `calc_evasion_factors`); absent when the underlying stat is
    /// unavailable
    pub evasion_term: Option<Fixed>,
    pub defense: TargetDefense,
}

/// Defense parameters handed to the outcome resolver: the target's defense
/// scalars plus the attack's armor penetration.
#[derive(Clone, Copy, Debug, PartialEq)]
pub struct DefenseParams {
    pub basic_defense_power: Fixed,
    pub current_hp: u16,
    pub max_hp: u16,
    pub overkill_protection: bool,
    pub sinkable: bool,
    pub armor_penetration: Fixed,
}

impl DefenseParams {
    /// The target's defense scalars combined with the attack's armor
    /// penetration.
    pub fn from_target(target: &NightTarget, armor_penetration: Fixed) -> (r: DefenseParams)
        ensures
            r == spec_defense_params(*target, armor_penetration),
    {
        DefenseParams {
            basic_defense_power: target.defense.basic_defense_power,
            current_hp: target.defense.current_hp,
            max_hp: target.defense.max_hp,
            overkill_protection: target.defense.overkill_protection,
            sinkable: target.defense.sinkable,
            armor_penetration,
        }
    }
}

/// The defense parameters for `target` under `armor_penetration`.
pub open spec fn spec_defense_params(target: NightTarget, armor_penetration: Fixed) -> DefenseParams {
    DefenseParams {
        basic_defense_power: target.defense.basic_defense_power,
        current_hp: target.defense.current_hp,
        max_hp: target.defense.max_hp,
        overkill_protection: target.defense.overkill_protection,
        sinkable: target.defense.sinkable,
        armor_penetration,
    }
}

/// Hit-rate parameters handed to the outcome resolver.
#[derive(Clone, Copy, Debug, PartialEq)]
pub struct HitRateParams {
    pub accuracy_term: Fixed,
    pub evasion_term: Fixed,
    pub target_morale_mod: Fixed,
    pub critical_rate_constant: Fixed,
    pub hit_percentage_bonus: Fixed,
    pub critical_percentage_bonus: Fixed,
}

/// The uniform result of an attack derivation.
#[derive(Clone, Copy, Debug, PartialEq)]
pub struct AttackParams {
    pub attack_power_params: Option<AttackPowerParams>,
    pub hit_rate_params: Option<HitRateParams>,
    pub defense_params: DefenseParams,
    pub hits: Fixed,
}

/// An attack with its power pipeline already run.
#[derive(Clone, Copy, Debug, PartialEq)]
pub struct Attack {
    pub attack_power: Option<AttackPower>,
    pub hit_rate_params: Option<HitRateParams>,
    pub defense_params: DefenseParams,
    pub hits: Fixed,
}

/// The attack value of `params`: the power pipeline run on its input, the
/// rest carried over.
pub open spec fn spec_into_attack(params: AttackParams) -> Attack {
    Attack {
        attack_power: match params.attack_power_params {
            Some(pp) => Some(spec_calc(pp)),
            None => None,
        },
        hit_rate_params: params.hit_rate_params,
        defense_params: params.defense_params,
        hits: params.hits,
    }
}

impl AttackParams {
    /// Runs the power pipeline on the power input, when there is one, and
    /// carries the rest over.
    pub fn into_attack(self) -> (r: Attack)
        requires
            match self.attack_power_params {
                Some(pp) => calc_fits(pp),
                None => true,
            },
        ensures
            r == spec_into_attack(self),
    {
        let attack_power = match &self.attack_power_params {
            Some(pp) => Some(pp.calc()),
            None => None,
        };
        Attack {
            attack_power,
            hit_rate_params: self.hit_rate_params,
            defense_params: self.defense_params,
            hits: self.hits,
        }
    }
}

/// Input of the night-gun attack derivation.
#[derive(Clone, Copy, Debug, PartialEq)]
pub struct NightAttackParams {
    pub style: NightAttackStyle,
    pub attacker: NightAttacker,
    pub target: NightTarget,
    pub formation_params: FormationParams,
    pub historical_params: HistoricalParams,
    pub night_conditions: NightConditions,
    /// anti-PT-boat accuracy corrections for this attacker/target pair,
    /// resolved by the unit layer
    pub pt_accuracy_mods: AntiPtImpAccuracyModifiers,
}

/// Whether the torpedo stat contributes: it is zeroed against an
/// installation target unless that target is a new supply depot.
pub open spec fn spec_torpedo_effective(p: NightAttackParams) -> bool {
    !p.target.is_installation || p.target.is_new_supply_depot
}

/// Whether the style's attack type carries proficiency modifiers: only the
/// two aerial-class types do.
pub open spec fn spec_uses_proficiency(p: NightAttackParams) -> bool {
    p.style.attack_type is Aerial || p.style.attack_type is Swordfish
}

/// The proficiency modifiers the derivation passes on: the attacker's for
/// an aerial-class style, none otherwise.
pub open spec fn spec_proficiency_mods(p: NightAttackParams) -> Option<ProficiencyModifiers> {
    if spec_uses_proficiency(p) {
        Some(p.attacker.proficiency_modifiers)
    } else {
        None
    }
}

/// Raw `a` of the night precap modifier: the product of the damage-state
/// power modifier, the formation power modifier, the style's own cutin
/// power modifier, and the small-gun model correction where the style
/// carries it.
pub open spec fn night_precap_mod_a(p: NightAttackParams) -> int {
    let dm = p.attacker.damage_state_power_mod.raw as int;
    let fm = p.formation_params.power_mod.raw as int;
    let cm = p.style.power_mod.raw as int;
    let md = if p.style.has_model_d_small_gun_mod {
        p.attacker.model_d_small_gun_mod.raw as int
    } else {
        SCALE as int
    };
    mul_raw(mul_raw(mul_raw(dm, fm), cm), md)
}

/// Raw basic night power, by attack type; `None` when a stat the type
/// needs is unavailable.
pub open spec fn night_basic_power(p: NightAttackParams) -> Option<int> {
    let contact = spec_fleet_conditions(
        p.night_conditions,
        p.attacker.side,
    ).night_contact_mods.power_mod.raw as int;
    match p.style.attack_type {
        NightAttackType::Normal => match p.attacker.firepower {
            Some(fp) => {
                if spec_torpedo_effective(p) {
                    match p.attacker.torpedo {
                        Some(tp) => Some(
                            fp.raw + tp.raw + p.attacker.night_power_ibonus.raw + contact,
                        ),
                        None => None,
                    }
                } else {
                    Some(fp.raw + p.attacker.night_power_ibonus.raw + contact)
                }
            },
            None => None,
        },
        NightAttackType::Aerial => {
            let stat = if p.target.is_installation {
                p.attacker.night_aerial_power_anti_inst
            } else {
                p.attacker.night_aerial_power
            };
            match stat {
                Some(v) => Some(v.raw + contact),
                None => None,
            }
        },
        NightAttackType::Swordfish => {
            let stat = if p.target.is_installation {
                p.attacker.night_swordfish_power_anti_inst
            } else {
                p.attacker.night_swordfish_power
            };
            match stat {
                Some(v) => Some(v.raw + contact),
                None => None,
            }
        },
    }
}

/// The power pipeline input the night derivation builds around a basic
/// power value.
pub open spec fn night_base_params(p: NightAttackParams, basic: int) -> AttackPowerParams {
    AttackPowerParams {
        is_cutin: p.style.is_cutin,
        basic: Fixed { raw: basic as i64 },
        cap: Fixed { raw: NIGHT_POWER_CAP },
        precap_mod: AttackPowerModifier {
            a: Fixed { raw: night_precap_mod_a(p) as i64 },
            b: p.attacker.cruiser_fit_bonus,
        },
        postcap_mod: AttackPowerModifier { a: Fixed { raw: SCALE }, b: Fixed { raw: 0 } },
        ap_shell_mod: None,
        aerial_power: None,
        proficiency_critical_mod: match spec_proficiency_mods(p) {
            Some(m) => m.critical_power_mod,
            None => Fixed { raw: SCALE },
        },
        armor_penetration: p.historical_params.armor_penetration,
        remaining_ammo_mod: p.attacker.remaining_ammo_mod,
        balloon_mod: Fixed { raw: SCALE },
        special_enemy_mods: p.attacker.special_enemy_mods,
        historical_mod: p.historical_params.power_mod,
        custom_mods: p.attacker.custom_power_mods,
    }
}

/// The night derivation's power pipeline input; `None` when the basic
/// power cannot be derived.
pub open spec fn night_attack_power_params(p: NightAttackParams) -> Option<AttackPowerParams> {
    match night_basic_power(p) {
        Some(basic) => Some(night_base_params(p, basic)),
        None => None,
    }
}

/// The intermediates of the night power derivation are representable.
pub open spec fn night_power_fits(p: NightAttackParams) -> bool {
    let dm = p.attacker.damage_state_power_mod.raw as int;
    let fm = p.formation_params.power_mod.raw as int;
    let cm = p.style.power_mod.raw as int;
    let md = if p.style.has_model_d_small_gun_mod {
        p.attacker.model_d_small_gun_mod.raw as int
    } else {
        SCALE as int
    };
    let contact = spec_fleet_conditions(
        p.night_conditions,
        p.attacker.side,
    ).night_contact_mods.power_mod.raw as int;
    &&& in_range(mul_raw(dm, fm))
    &&& in_range(mul_raw(mul_raw(dm, fm), cm))
    &&& in_range(mul_raw(mul_raw(mul_raw(dm, fm), cm), md))
    &&& match p.style.attack_type {
        NightAttackType::Normal => match p.attacker.firepower {
            Some(fp) => {
                let tp = if spec_torpedo_effective(p) {
                    match p.attacker.torpedo {
                        Some(tp) => tp.raw as int,
                        None => 0,
                    }
                } else {
                    0
                };
                &&& in_range(fp.raw + tp)
                &&& in_range(fp.raw + tp + p.attacker.night_power_ibonus.raw)
                &&& in_range(fp.raw + tp + p.attacker.night_power_ibonus.raw + contact)
            },
            None => true,
        },
        NightAttackType::Aerial => {
            let stat = if p.target.is_installation {
                p.attacker.night_aerial_power_anti_inst
            } else {
                p.attacker.night_aerial_power
            };
            match stat {
                Some(v) => in_range(v.raw + contact),
                None => true,
            }
        },
        NightAttackType::Swordfish => {
            let stat = if p.target.is_installation {
                p.attacker.night_swordfish_power_anti_inst
            } else {
                p.attacker.night_swordfish_power
            };
            match stat {
                Some(v) => in_range(v.raw + contact),
                None => true,
            }
        },
    }
}

/// Raw night accuracy term; `None` when the attacker has no basic accuracy
/// term. Three floors stand at fixed places: after the contact product and
/// the additive stats; after the formation, morale, cutin and PT products
/// and the flat bonuses; and after the PT classification products and the
/// historical correction.
pub open spec fn night_accuracy_term(p: NightAttackParams) -> Option<int> {
    match p.attacker.basic_accuracy_term {
        Some(bat) => {
            let conds = spec_fleet_conditions(p.night_conditions, p.attacker.side);
            let pt = p.pt_accuracy_mods;
            let inner = floor_raw(
                mul_raw(
                    NIGHT_ACCURACY_CONSTANT + conds.starshell_accuracy_mod.raw,
                    conds.night_contact_mods.accuracy_mod.raw as int,
                ) + bat.raw + p.attacker.accuracy.raw + p.attacker.night_accuracy_ibonus.raw
                    + pt.amagiri_mod.raw,
            );
            let mid = floor_raw(
                mul_raw(
                    mul_raw(
                        mul_raw(
                            mul_raw(inner, p.formation_params.accuracy_mod.raw as int),
                            p.attacker.morale_accuracy_mod.raw as int,
                        ),
                        p.style.accuracy_mod.raw as int,
                    ),
                    pt.multiplicative.raw as int,
                ) + conds.searchlight_accuracy_mod.raw + p.attacker.gunfit_accuracy.raw
                    + pt.additive.raw,
            );
            Some(
                floor_raw(
                    mul_raw(
                        mul_raw(
                            mul_raw(
                                mul_raw(mid, pt.ship_type_mod.raw as int),
                                pt.equipment_mod.raw as int,
                            ),
                            pt.night_mod.raw as int,
                        ),
                        p.historical_params.accuracy_mod.raw as int,
                    ),
                ),
            )
        },
        None => None,
    }
}

/// The intermediates of the night accuracy term are representable.
pub open spec fn night_accuracy_fits(p: NightAttackParams) -> bool {
    match p.attacker.basic_accuracy_term {
        Some(bat) => {
            let conds = spec_fleet_conditions(p.night_conditions, p.attacker.side);
            let pt = p.pt_accuracy_mods;
            let c0 = NIGHT_ACCURACY_CONSTANT + conds.starshell_accuracy_mod.raw;
            let c1 = mul_raw(c0, conds.night_contact_mods.accuracy_mod.raw as int);
            let c2 = c1 + bat.raw;
            let c3 = c2 + p.attacker.accuracy.raw;
            let c4 = c3 + p.attacker.night_accuracy_ibonus.raw;
            let c5 = c4 + pt.amagiri_mod.raw;
            let inner = floor_raw(c5);
            let m1 = mul_raw(inner, p.formation_params.accuracy_mod.raw as int);
            let m2 = mul_raw(m1, p.attacker.morale_accuracy_mod.raw as int);
            let m3 = mul_raw(m2, p.style.accuracy_mod.raw as int);
            let m4 = mul_raw(m3, pt.multiplicative.raw as int);
            let m5 = m4 + conds.searchlight_accuracy_mod.raw;
            let m6 = m5 + p.attacker.gunfit_accuracy.raw;
            let m7 = m6 + pt.additive.raw;
            let mid = floor_raw(m7);
            let f1 = mul_raw(mid, pt.ship_type_mod.raw as int);
            let f2 = mul_raw(f1, pt.equipment_mod.raw as int);
            let f3 = mul_raw(f2, pt.night_mod.raw as int);
            let f4 = mul_raw(f3, p.historical_params.accuracy_mod.raw as int);
            &&& in_range(c0)
            &&& in_range(c1)
            &&& in_range(c2)
            &&& in_range(c3)
            &&& in_range(c4)
            &&& in_range(c5)
            &&& in_range(inner)
            &&& in_range(m1)
            &&& in_range(m2)
            &&& in_range(m3)
            &&& in_range(m4)
            &&& in_range(m5)
            &&& in_range(m6)
            &&& in_range(m7)
            &&& in_range(mid)
            &&& in_range(f1)
            &&& in_range(f2)
            &&& in_range(f3)
            &&& in_range(f4)
            &&& in_range(floor_raw(f4))
        },
        None => true,
    }
}

/// The evasion factors the derivation hands to the target's base evasion
/// computation.
#[derive(Clone, Copy, Debug, PartialEq)]
pub struct EvasionTermFactors {
    pub formation_mod: Fixed,
    /// flat bonus of 5 for the two heavy-cruiser classes, else 0
    pub ship_type_additive: Fixed,
    /// 0.2 when the target carries a searchlight (else 1), times the
    /// historical evasion correction
    pub postcap_multiplicative: Fixed,
}

/// The evasion factors for `p`.
pub open spec fn spec_evasion_factors(p: NightAttackParams) -> EvasionTermFactors {
    EvasionTermFactors {
        formation_mod: p.formation_params.target_evasion_mod,
        ship_type_additive: Fixed {
            raw: if p.target.ship_type is CA || p.target.ship_type is CAV {
                EVASION_SHIP_TYPE_BONUS
            } else {
                0
            },
        },
        postcap_multiplicative: Fixed {
            raw: mul_raw(
                if p.target.has_searchlight {
                    SEARCHLIGHT_EVASION_MULT as int
                } else {
                    SCALE as int
                },
                p.historical_params.target_evasion_mod.raw as int,
            ) as i64,
        },
    }
}

/// The searchlight product of the evasion factors is representable.
pub open spec fn evasion_factors_fit(p: NightAttackParams) -> bool {
    in_range(
        mul_raw(
            if p.target.has_searchlight {
                SEARCHLIGHT_EVASION_MULT as int
            } else {
                SCALE as int
            },
            p.historical_params.target_evasion_mod.raw as int,
        ),
    )
}

/// The hit-rate parameters; `None` when the accuracy term or the evasion
/// term cannot be derived.
pub open spec fn spec_hit_rate_params(
    p: NightAttackParams,
    proficiency_mods: Option<ProficiencyModifiers>,
) -> Option<HitRateParams> {
    match night_accuracy_term(p) {
        Some(acc) => match p.target.evasion_term {
            Some(ev) => Some(
                HitRateParams {
                    accuracy_term: Fixed { raw: acc as i64 },
                    evasion_term: ev,
                    target_morale_mod: p.target.morale_hit_rate_mod,
                    critical_rate_constant: spec_fleet_conditions(
                        p.night_conditions,
                        p.attacker.side,
                    ).night_contact_mods.critical_rate_constant,
                    hit_percentage_bonus: match proficiency_mods {
                        Some(m) => m.hit_percentage_bonus,
                        None => Fixed { raw: 0 },
                    },
                    critical_percentage_bonus: match proficiency_mods {
                        Some(m) => m.critical_percentage_bonus,
                        None => Fixed { raw: 0 },
                    },
                },
            ),
            None => None,
        },
        None => None,
    }
}

/// The effective hit count: the style's nominal count, floored below the
/// experience threshold.
pub open spec fn spec_hits(p: NightAttackParams) -> Fixed {
    if p.attacker.level >= EXPERIENCE_THRESHOLD {
        p.style.hits
    } else {
        Fixed { raw: floor_raw(p.style.hits.raw as int) as i64 }
    }
}

/// The armor penetration the derivation reports: the power input's, or zero
/// when there is none.
pub open spec fn spec_armor_penetration(p: NightAttackParams) -> Fixed {
    match night_attack_power_params(p) {
        Some(pp) => pp.armor_penetration,
        None => Fixed { raw: 0 },
    }
}

/// The night derivation's whole result.
pub open spec fn spec_night_attack_params(p: NightAttackParams) -> AttackParams {
    AttackParams {
        attack_power_params: night_attack_power_params(p),
        hit_rate_params: spec_hit_rate_params(p, spec_proficiency_mods(p)),
        defense_params: spec_defense_params(p.target, spec_armor_penetration(p)),
        hits: spec_hits(p),
    }
}

/// Every intermediate of the night derivation is representable.
pub open spec fn night_fits(p: NightAttackParams) -> bool {
    &&& night_power_fits(p)
    &&& night_accuracy_fits(p)
    &&& in_range(floor_raw(p.style.hits.raw as int))
}

impl NightAttackParams {
    /// The night conditions of the attacker's own fleet.
    pub fn attacker_night_conditions(&self) -> (r: NightFleetConditions)
        ensures
            r == spec_fleet_conditions(self.night_conditions, self.attacker.side),
    {
        self.night_conditions.night_fleet_conditions(self.attacker.side)
    }

    /// Derives the power pipeline input. Yields `None` — an absent result,
    /// not an error — exactly when a stat the attack type needs is
    /// unavailable: the firepower (or the torpedo stat, where it counts)
    /// for a normal attack, the derived night aerial or swordfish power
    /// for the aerial types.
    pub fn calc_attack_power_params(
        &self,
        proficiency_mods: Option<ProficiencyModifiers>,
    ) -> (r: Option<AttackPowerParams>)
        requires
            night_power_fits(*self),
            proficiency_mods == spec_proficiency_mods(*self),
        ensures
            r == night_attack_power_params(*self),
            self.style.attack_type is Normal && self.attacker.firepower is None ==> r is None,
    {
        let anti_inst = self.target.is_installation;
        let torpedo_effective = !anti_inst || self.target.is_new_supply_depot;
        let contact_mod = self.attacker_night_conditions().night_contact_mods.power_mod;

        let damage_mod = self.attacker.damage_state_power_mod;
        let formation_mod = self.formation_params.power_mod;
        let cutin_mod = self.style.power_mod;

        let model_d_small_gun_mod = if self.style.has_model_d_small_gun_mod {
            self.attacker.model_d_small_gun_mod
        } else {
            Fixed::one()
        };

        let a14 = damage_mod.mul(formation_mod).mul(cutin_mod).mul(model_d_small_gun_mod);
        let b14 = self.attacker.cruiser_fit_bonus;

        let precap_mod = AttackPowerModifier::new(a14, b14);
        let proficiency_critical_mod = match &proficiency_mods {
            Some(mods) => mods.critical_power_mod,
            None => Fixed::one(),
        };

        let basic = match self.style.attack_type {
            NightAttackType::Normal => {
                let firepower = match self.attacker.firepower {
                    Some(v) => v,
                    None => {
                        return None;
                    },
                };
                let torpedo = if torpedo_effective {
                    match self.attacker.torpedo {
                        Some(v) => v,
                        None => {
                            return None;
                        },
                    }
                } else {
                    Fixed::zero()
                };
                let ibonus = self.attacker.night_power_ibonus;
                firepower.add(torpedo).add(ibonus).add(contact_mod)
            },
            NightAttackType::Aerial => {
                let night_aerial_power = if anti_inst {
                    self.attacker.night_aerial_power_anti_inst
                } else {
                    self.attacker.night_aerial_power
                };
                match night_aerial_power {
                    Some(v) => v.add(contact_mod),
                    None => {
                        return None;
                    },
                }
            },
            NightAttackType::Swordfish => {
                let night_swordfish_power = if anti_inst {
                    self.attacker.night_swordfish_power_anti_inst
                } else {
                    self.attacker.night_swordfish_power
                };
                match night_swordfish_power {
                    Some(v) => v.add(contact_mod),
                    None => {
                        return None;
                    },
                }
            },
        };

        Some(
            AttackPowerParams {
                is_cutin: self.style.is_cutin,
                basic,
                cap: Fixed::from_scaled(NIGHT_POWER_CAP),
                precap_mod,
                postcap_mod: AttackPowerModifier::identity(),
                ap_shell_mod: None,
                aerial_power: None,
                proficiency_critical_mod,
                armor_penetration: self.historical_params.armor_penetration,
                remaining_ammo_mod: self.attacker.remaining_ammo_mod,
                balloon_mod: Fixed::one(),
                special_enemy_mods: self.attacker.special_enemy_mods,
                historical_mod: self.historical_params.power_mod,
                custom_mods: self.attacker.custom_power_mods,
            },
        )
    }

    /// Derives the accuracy term with its three fixed floor positions;
    /// `None` when the attacker has no basic accuracy term.
    pub fn calc_accuracy_term(&self) -> (r: Option<Fixed>)
        requires
            night_accuracy_fits(*self),
        ensures
            r == match night_accuracy_term(*self) {
                Some(acc) => Some(Fixed { raw: acc as i64 }),
                None => None::<Fixed>,
            },
    {
        let basic_accuracy_term = match self.attacker.basic_accuracy_term {
            Some(v) => v,
            None => {
                return None;
            },
        };
        let conds = self.attacker_night_conditions();
        let starshell_mod = conds.starshell_accuracy_mod;
        let searchlight_mod = conds.searchlight_accuracy_mod;
        let contact_mod = conds.night_contact_mods.accuracy_mod;

        let accuracy = self.attacker.accuracy;
        let ibonus = self.attacker.night_accuracy_ibonus;

        let formation_mod = self.formation_params.accuracy_mod;
        let morale_mod = self.attacker.morale_accuracy_mod;
        let cutin_mod = self.style.accuracy_mod;
        let gunfit_accuracy = self.attacker.gunfit_accuracy;
        let pt_mods = self.pt_accuracy_mods;
        let historical_mod = self.historical_params.accuracy_mod;

        // floored before the formation product
        let multiplicand = Fixed::from_scaled(NIGHT_ACCURACY_CONSTANT).add(starshell_mod).mul(
            contact_mod,
        ).add(basic_accuracy_term).add(accuracy).add(ibonus).add(pt_mods.amagiri_mod).floor();

        // the cutin accuracy correction sits with the formation correction
        let post_formation_mod = multiplicand.mul(formation_mod).mul(morale_mod).mul(cutin_mod)
            .mul(pt_mods.multiplicative).add(searchlight_mod).add(gunfit_accuracy).add(
            pt_mods.additive,
        ).floor();

        let accuracy_term = post_formation_mod.mul(pt_mods.ship_type_mod).mul(
            pt_mods.equipment_mod,
        ).mul(pt_mods.night_mod).mul(historical_mod).floor();

        Some(accuracy_term)
    }

    /// The factors this derivation hands to the target's base evasion
    /// computation: the formation evasion modifier, a flat bonus of 5 for
    /// the two heavy-cruiser classes, and a postcap factor of 0.2 for a
    /// searchlight carrier (else 1) times the historical evasion
    /// correction.
    pub fn calc_evasion_factors(&self) -> (r: EvasionTermFactors)
        requires
            evasion_factors_fit(*self),
        ensures
            r == spec_evasion_factors(*self),
    {
        let ship_type_additive = match self.target.ship_type {
            ShipType::CA => Fixed::from_scaled(EVASION_SHIP_TYPE_BONUS),
            ShipType::CAV => Fixed::from_scaled(EVASION_SHIP_TYPE_BONUS),
            _ => Fixed::zero(),
        };

        let searchlight_evasion_mod = if self.target.has_searchlight {
            Fixed::from_scaled(SEARCHLIGHT_EVASION_MULT)
        } else {
            Fixed::one()
        };

        EvasionTermFactors {
            formation_mod: self.formation_params.target_evasion_mod,
            ship_type_additive,
            postcap_multiplicative: searchlight_evasion_mod.mul(
                self.historical_params.target_evasion_mod,
            ),
        }
    }

    /// The target's base evasion computation — a capability of the target
    /// outside this crate — at this derivation's evasion factors; `None`
    /// when the underlying stat is unavailable.
    pub fn calc_evasion_term(&self) -> (r: Option<Fixed>)
        ensures
            r == self.target.evasion_term,
    {
        self.target.evasion_term
    }

    /// Assembles the hit-rate parameters; `None` when the accuracy term or
    /// the evasion term cannot be derived.
    pub fn calc_hit_rate_params(
        &self,
        proficiency_mods: Option<ProficiencyModifiers>,
    ) -> (r: Option<HitRateParams>)
        requires
            night_accuracy_fits(*self),
        ensures
            r == spec_hit_rate_params(*self, proficiency_mods),
    {
        let accuracy_term = match self.calc_accuracy_term() {
            Some(v) => v,
            None => {
                return None;
            },
        };
        let evasion_term = match self.calc_evasion_term() {
            Some(v) => v,
            None => {
                return None;
            },
        };
        let conds = self.attacker_night_conditions();

        let critical_rate_constant = conds.night_contact_mods.critical_rate_constant;

        let hit_percentage_bonus = match &proficiency_mods {
            Some(mods) => mods.hit_percentage_bonus,
            None => Fixed::zero(),
        };

        let critical_percentage_bonus = match &proficiency_mods {
            Some(mods) => mods.critical_percentage_bonus,
            None => Fixed::zero(),
        };

        Some(
            HitRateParams {
                accuracy_term,
                evasion_term,
                target_morale_mod: self.target.morale_hit_rate_mod,
                critical_rate_constant,
                hit_percentage_bonus,
                critical_percentage_bonus,
            },
        )
    }

    /// Runs the whole night derivation: power input, hit-rate parameters,
    /// defense parameters and the effective hit count.
    pub fn calc_attack_params(&self) -> (r: AttackParams)
        requires
            night_fits(*self),
        ensures
            r == spec_night_attack_params(*self),
    {
        let proficiency_mods = match self.style.attack_type {
            NightAttackType::Aerial => Some(self.attacker.proficiency_modifiers),
            NightAttackType::Swordfish => Some(self.attacker.proficiency_modifiers),
            NightAttackType::Normal => None,
        };

        let attack_power_params = self.calc_attack_power_params(proficiency_mods);
        let hit_rate_params = self.calc_hit_rate_params(proficiency_mods);

        let armor_penetration = match &attack_power_params {
            Some(pp) => pp.armor_penetration,
            None => Fixed::zero(),
        };
        let defense_params = DefenseParams::from_target(&self.target, armor_penetration);

        let hits = if self.attacker.level >= EXPERIENCE_THRESHOLD {
            self.style.hits
        } else {
            self.style.hits.floor()
        };

        AttackParams { attack_power_params, hit_rate_params, defense_params, hits }
    }
}

/// The style of a night-phase attack: the night-gun derivation's own style,
/// or an anti-submarine attack, whose derivation is a collaborator outside
/// this crate.
#[derive(Clone, Copy, Debug, PartialEq)]
pub enum NightPhaseAttackStyle {
    Night(NightAttackStyle),
    Asw,
}

/// Input of the night-phase dispatch.
#[derive(Clone, Copy, Debug, PartialEq)]
pub struct NightPhaseAttackParams {
    pub style: NightPhaseAttackStyle,
    pub attacker: NightAttacker,
    pub target: NightTarget,
    pub formation_params: FormationParams,
    pub historical_params: HistoricalParams,
    pub night_conditions: NightConditions,
    /// anti-PT-boat accuracy corrections for this attacker/target pair,
    /// resolved by the unit layer
    pub pt_accuracy_mods: AntiPtImpAccuracyModifiers,
    /// the anti-submarine derivation's result for the same context,
    /// supplied by that collaborator; consulted only for an `Asw` style
    pub asw_attack_params: Option<AttackParams>,
}

/// The night-gun derivation's input for a `Night` style.
pub open spec fn spec_night_params(
    p: NightPhaseAttackParams,
    style: NightAttackStyle,
) -> NightAttackParams {
    NightAttackParams {
        style,
        attacker: p.attacker,
        target: p.target,
        formation_params: p.formation_params,
        historical_params: p.historical_params,
        night_conditions: p.night_conditions,
        pt_accuracy_mods: p.pt_accuracy_mods,
    }
}

/// The dispatch's result: the night-gun derivation for a `Night` style, the
/// anti-submarine collaborator's result for an `Asw` style.
pub open spec fn spec_night_phase_attack_params(p: NightPhaseAttackParams) -> AttackParams {
    match p.style {
        NightPhaseAttackStyle::Night(style) => spec_night_attack_params(spec_night_params(p, style)),
        NightPhaseAttackStyle::Asw => p.asw_attack_params->Some_0,
    }
}

/// The dispatch's inputs are well formed: the night derivation's
/// intermediates are representable for a `Night` style, and the
/// anti-submarine result is present for an `Asw` style.
pub open spec fn night_phase_fits(p: NightPhaseAttackParams) -> bool {
    match p.style {
        NightPhaseAttackStyle::Night(style) => night_fits(spec_night_params(p, style)),
        NightPhaseAttackStyle::Asw => p.asw_attack_params is Some,
    }
}

impl NightPhaseAttackParams {
    /// Dispatches on the style tag: a `Night` style runs the night-gun
    /// derivation, an `Asw` style yields the anti-submarine collaborator's
    /// result. Both produce the same uniform shape.
    pub fn calc_attack_params(&self) -> (r: AttackParams)
        requires
            night_phase_fits(*self),
        ensures
            r == spec_night_phase_attack_params(*self),
    {
        match self.style {
            NightPhaseAttackStyle::Night(style) => NightAttackParams {
                style,
                attacker: self.attacker,
                target: self.target,
                formation_params: self.formation_params,
                historical_params: self.historical_params,
                night_conditions: self.night_conditions,
                pt_accuracy_mods: self.pt_accuracy_mods,
            }.calc_attack_params(),
            NightPhaseAttackStyle::Asw => self.asw_attack_params.unwrap(),
        }
    }

    /// The dispatched result with its power pipeline already run.
    pub fn to_attack(&self) -> (r: Attack)
        requires
            night_phase_fits(*self),
            match spec_night_phase_attack_params(*self).attack_power_params {
                Some(pp) => calc_fits(pp),
                None => true,
            },
        ensures
            r == spec_into_attack(spec_night_phase_attack_params(*self)),
    {
        self.calc_attack_params().into_attack()
    }
}

} // verus!
