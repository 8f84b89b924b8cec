//! The attack-power pipeline: precap modifiers, the soft cap, and postcap
//! modifiers.
//!
//! `AttackPowerParams::calc` takes a basic power value through the pre-cap
//! modifier chain, compresses any excess above the cap by a square root,
//! and applies the post-cap chain to the floored capped value, producing
//! the normal and critical attack power.

use vstd::prelude::*;

verus! {

use vstd::arithmetic::div_mod::lemma_mod_multiples_basic;
use crate::fixed::Fixed;
use crate::fixed::SCALE;
use crate::fixed::floor_raw;
use crate::fixed::in_range;
use crate::fixed::mul_raw;
use crate::fixed::sqrt_raw;
use crate::fixed::lemma_floor_raw_nonneg;
use crate::fixed::lemma_mul_raw_nonneg;
use crate::fixed::lemma_sqrt_raw_nonneg;
use crate::modifier::AttackPowerModifier;
use crate::modifier::apply_fits;
use crate::modifier::lemma_apply_nonneg;
use crate::modifier::lemma_compose_apply_nonneg;
use crate::modifier::nonneg_modifier;
use crate::modifier::compose_apply;
use crate::modifier::compose_apply_fits;
use crate::modifier::spec_apply;

/// Raw count for the multiplier 1.5.
pub const ONE_AND_A_HALF: i64 = 15000;

/// Raw count for the multiplier 0.3 of the anti-PT-boat correction.
pub const PT_BASE_MULT: i64 = 3000;

/// Raw count for the additive term 10 of the anti-PT-boat correction.
pub const PT_BASE_ADD: i64 = 100000;

/// Raw count for the additive term 25 of the aerial night power formula.
pub const AERIAL_POWER_ADD: i64 = 250000;

/// Corrections keyed by the target's special-enemy classification.
/// Each field defaults to the identity (or to absence): no correction.
#[derive(Clone, Copy, Debug, PartialEq)]
pub struct SpecialEnemyModifiers {
    pub precap_general_mod: AttackPowerModifier,
    pub stype_mod: AttackPowerModifier,
    pub landing_craft_synergy_mod: AttackPowerModifier,
    pub toku_daihatsu_tank_mod: AttackPowerModifier,
    pub m4a1dd_mod: AttackPowerModifier,
    pub honi_mod: AttackPowerModifier,
    pub postcap_general_mod: AttackPowerModifier,
    pub pt_mod: Option<AttackPowerModifier>,
}

impl SpecialEnemyModifiers {
    /// No corrections at all: every modifier is the identity and the
    /// anti-PT-boat correction is absent.
    pub open spec fn is_absent(self) -> bool {
        &&& self.precap_general_mod.is_identity()
        &&& self.stype_mod.is_identity()
        &&& self.landing_craft_synergy_mod.is_identity()
        &&& self.toku_daihatsu_tank_mod.is_identity()
        &&& self.m4a1dd_mod.is_identity()
        &&& self.honi_mod.is_identity()
        &&& self.postcap_general_mod.is_identity()
        &&& self.pt_mod is None
    }
}

impl Default for SpecialEnemyModifiers {
    /// No corrections: every modifier is the identity, the anti-PT-boat
    /// correction is absent.
    fn default() -> (r: Self)
        ensures
            r.is_absent(),
    {
        SpecialEnemyModifiers {
            precap_general_mod: AttackPowerModifier::identity(),
            stype_mod: AttackPowerModifier::identity(),
            landing_craft_synergy_mod: AttackPowerModifier::identity(),
            toku_daihatsu_tank_mod: AttackPowerModifier::identity(),
            m4a1dd_mod: AttackPowerModifier::identity(),
            honi_mod: AttackPowerModifier::identity(),
            postcap_general_mod: AttackPowerModifier::identity(),
            pt_mod: None,
        }
    }
}

/// User-supplied override modifiers, layered on the computed ones at fixed
/// pipeline points. Each defaults to the identity.
#[derive(Clone, Copy, Debug, PartialEq)]
pub struct CustomPowerModifiers {
    pub basic_power_mod: AttackPowerModifier,
    pub precap_mod: AttackPowerModifier,
    pub postcap_mod: AttackPowerModifier,
    pub historical_mod: AttackPowerModifier,
}

impl CustomPowerModifiers {
    /// No overrides: every modifier is the identity.
    pub open spec fn is_absent(self) -> bool {
        &&& self.basic_power_mod.is_identity()
        &&& self.precap_mod.is_identity()
        &&& self.postcap_mod.is_identity()
        &&& self.historical_mod.is_identity()
    }
}

impl Default for CustomPowerModifiers {
    /// No overrides: every modifier is the identity.
    fn default() -> (r: Self)
        ensures
            r.is_absent(),
    {
        CustomPowerModifiers {
            basic_power_mod: AttackPowerModifier::identity(),
            precap_mod: AttackPowerModifier::identity(),
            postcap_mod: AttackPowerModifier::identity(),
            historical_mod: AttackPowerModifier::identity(),
        }
    }
}

/// Input of the power pipeline.
#[derive(Clone, Copy, Debug, PartialEq)]
pub struct AttackPowerParams {
    pub is_cutin: bool,
    pub basic: Fixed,
    pub cap: Fixed,
    pub precap_mod: AttackPowerModifier,
    pub postcap_mod: AttackPowerModifier,
    pub ap_shell_mod: Option<Fixed>,
    pub aerial_power: Option<Fixed>,
    pub proficiency_critical_mod: Fixed,
    pub armor_penetration: Fixed,
    pub remaining_ammo_mod: Fixed,
    pub balloon_mod: Fixed,
    pub special_enemy_mods: SpecialEnemyModifiers,
    pub historical_mod: AttackPowerModifier,
    pub custom_mods: CustomPowerModifiers,
}

/// Output of the power pipeline.
#[derive(Clone, Copy, Debug, PartialEq)]
pub struct AttackPower {
    pub precap: Fixed,
    pub is_capped: bool,
    pub capped: Fixed,
    pub normal: Fixed,
    pub critical: Fixed,
    pub armor_penetration: Fixed,
    pub remaining_ammo_mod: Fixed,
}

/// How a hit landed: the outcome resolver picks the matching power term.
#[derive(Clone, Copy, Debug, PartialEq)]
pub enum HitType {
    Miss,
    Normal,
    Critical,
}

/// The special-enemy part of the pre-cap stage applied to `x0`: ship-type
/// class correction, the general multiplicative term, the landing-craft,
/// tank and gun-model corrections in their fixed order, and the general
/// additive term.
pub open spec fn precap_special(p: AttackPowerParams, x0: int) -> int {
    let sp = p.special_enemy_mods;
    let x1 = spec_apply(sp.stype_mod, x0);
    let x2 = mul_raw(x1, sp.precap_general_mod.a.raw as int);
    let x3 = spec_apply(sp.toku_daihatsu_tank_mod, x2);
    let x4 = spec_apply(sp.m4a1dd_mod, x3);
    let x5 = spec_apply(sp.honi_mod, x4);
    let x6 = spec_apply(sp.landing_craft_synergy_mod, x5);
    x6 + sp.precap_general_mod.b.raw
}

/// The pre-cap value just before the aerial-power branch: the special-enemy
/// part followed by the custom basic-power override.
pub open spec fn precap_before_aerial(p: AttackPowerParams, x0: int) -> int {
    spec_apply(p.custom_mods.basic_power_mod, precap_special(p, x0))
}

/// The pre-cap value after the aerial-power branch: when an aerial power
/// override is present the running value is replaced by
/// `floor((value + aerial_power) * 1.5) + 25`.
pub open spec fn precap_after_aerial(p: AttackPowerParams, x0: int) -> int {
    match p.aerial_power {
        Some(v) => floor_raw(mul_raw(precap_before_aerial(p, x0) + v.raw, ONE_AND_A_HALF as int))
            + AERIAL_POWER_ADD,
        None => precap_before_aerial(p, x0),
    }
}

/// The full pre-cap value of `x0`: the chain above followed by the
/// composition of the caller's precap modifier and the custom override.
pub open spec fn precap_value(p: AttackPowerParams, x0: int) -> int {
    compose_apply(p.precap_mod, p.custom_mods.precap_mod, precap_after_aerial(p, x0))
}

/// Every intermediate of the pre-cap stage is representable.
pub open spec fn precap_fits(p: AttackPowerParams, x0: int) -> bool {
    let sp = p.special_enemy_mods;
    let x1 = spec_apply(sp.stype_mod, x0);
    let x2 = mul_raw(x1, sp.precap_general_mod.a.raw as int);
    let x3 = spec_apply(sp.toku_daihatsu_tank_mod, x2);
    let x4 = spec_apply(sp.m4a1dd_mod, x3);
    let x5 = spec_apply(sp.honi_mod, x4);
    let x6 = spec_apply(sp.landing_craft_synergy_mod, x5);
    let x7 = x6 + sp.precap_general_mod.b.raw;
    let x8 = spec_apply(p.custom_mods.basic_power_mod, x7);
    &&& apply_fits(sp.stype_mod, x0)
    &&& in_range(x2)
    &&& apply_fits(sp.toku_daihatsu_tank_mod, x2)
    &&& apply_fits(sp.m4a1dd_mod, x3)
    &&& apply_fits(sp.honi_mod, x4)
    &&& apply_fits(sp.landing_craft_synergy_mod, x5)
    &&& in_range(x7)
    &&& apply_fits(p.custom_mods.basic_power_mod, x7)
    &&& match p.aerial_power {
        Some(v) => {
            &&& in_range(x8 + v.raw)
            &&& in_range(mul_raw(x8 + v.raw, ONE_AND_A_HALF as int))
            &&& in_range(floor_raw(mul_raw(x8 + v.raw, ONE_AND_A_HALF as int)))
            &&& in_range(precap_after_aerial(p, x0))
        },
        None => true,
    }
    &&& compose_apply_fits(p.precap_mod, p.custom_mods.precap_mod, precap_after_aerial(p, x0))
}

/// The capped value: power above the cap is compressed by a square root,
/// not clamped.
pub open spec fn capped_value(p: AttackPowerParams, precap: int) -> int {
    if precap > p.cap.raw {
        p.cap.raw + sqrt_raw(precap - p.cap.raw)
    } else {
        precap
    }
}

/// The capping step's intermediates are representable.
pub open spec fn cap_fits(p: AttackPowerParams, precap: int) -> bool {
    precap > p.cap.raw ==> {
        &&& in_range(precap - p.cap.raw)
        &&& in_range(p.cap.raw + sqrt_raw(precap - p.cap.raw))
    }
}

/// The post-cap value after the caller's postcap modifier (composed with
/// the custom override) is applied to the floored capped value.
pub open spec fn post_modifier(p: AttackPowerParams, capped: int) -> int {
    compose_apply(p.postcap_mod, p.custom_mods.postcap_mod, floor_raw(capped))
}

/// The post-cap value after the balloon and AP-shell corrections. Their
/// order, and the position of the floor, depend on whether the attack is a
/// cutin: for a cutin the balloon multiplier comes first and the AP-shell
/// product is floored after it; otherwise the AP-shell product is floored
/// first and the balloon multiplier follows.
pub open spec fn post_cutin(p: AttackPowerParams, capped: int) -> int {
    let x = post_modifier(p, capped);
    if p.is_cutin {
        let y = mul_raw(x, p.balloon_mod.raw as int);
        match p.ap_shell_mod {
            Some(v) => floor_raw(mul_raw(y, v.raw as int)),
            None => y,
        }
    } else {
        let y = match p.ap_shell_mod {
            Some(v) => floor_raw(mul_raw(x, v.raw as int)),
            None => x,
        };
        mul_raw(y, p.balloon_mod.raw as int)
    }
}

/// The post-cap value after the special-enemy postcap general modifier.
pub open spec fn post_special(p: AttackPowerParams, capped: int) -> int {
    spec_apply(p.special_enemy_mods.postcap_general_mod, post_cutin(p, capped))
}

/// The post-cap value after the historical modifier (composed with the
/// custom override).
pub open spec fn post_historical(p: AttackPowerParams, capped: int) -> int {
    compose_apply(p.historical_mod, p.custom_mods.historical_mod, post_special(p, capped))
}

/// The normal attack power: the post-historical value, recomputed through
/// the anti-PT-boat correction when one is present.
pub open spec fn normal_value(p: AttackPowerParams, capped: int) -> int {
    let ph = post_historical(p, capped);
    match p.special_enemy_mods.pt_mod {
        Some(m) => spec_apply(
            m,
            mul_raw(ph, PT_BASE_MULT as int) + sqrt_raw(ph) + PT_BASE_ADD,
        ),
        None => ph,
    }
}

/// The critical attack power: `floor(normal * proficiency_critical_mod * 1.5)`.
pub open spec fn critical_value(p: AttackPowerParams, capped: int) -> int {
    floor_raw(
        mul_raw(
            mul_raw(normal_value(p, capped), p.proficiency_critical_mod.raw as int),
            ONE_AND_A_HALF as int,
        ),
    )
}

/// Every intermediate of the post-cap stage is representable.
pub open spec fn postcap_fits(p: AttackPowerParams, capped: int) -> bool {
    let x = post_modifier(p, capped);
    let ph = post_historical(p, capped);
    let nv = normal_value(p, capped);
    &&& in_range(floor_raw(capped))
    &&& compose_apply_fits(p.postcap_mod, p.custom_mods.postcap_mod, floor_raw(capped))
    &&& if p.is_cutin {
        let y = mul_raw(x, p.balloon_mod.raw as int);
        &&& in_range(y)
        &&& match p.ap_shell_mod {
            Some(v) => in_range(mul_raw(y, v.raw as int)) && in_range(
                floor_raw(mul_raw(y, v.raw as int)),
            ),
            None => true,
        }
    } else {
        let y = match p.ap_shell_mod {
            Some(v) => floor_raw(mul_raw(x, v.raw as int)),
            None => x,
        };
        &&& match p.ap_shell_mod {
            Some(v) => in_range(mul_raw(x, v.raw as int)) && in_range(
                floor_raw(mul_raw(x, v.raw as int)),
            ),
            None => true,
        }
        &&& in_range(mul_raw(y, p.balloon_mod.raw as int))
    }
    &&& apply_fits(p.special_enemy_mods.postcap_general_mod, post_cutin(p, capped))
    &&& compose_apply_fits(p.historical_mod, p.custom_mods.historical_mod, post_special(p, capped))
    &&& match p.special_enemy_mods.pt_mod {
        Some(m) => {
            &&& ph >= 0
            &&& in_range(mul_raw(ph, PT_BASE_MULT as int))
            &&& in_range(mul_raw(ph, PT_BASE_MULT as int) + sqrt_raw(ph))
            &&& in_range(mul_raw(ph, PT_BASE_MULT as int) + sqrt_raw(ph) + PT_BASE_ADD)
            &&& apply_fits(m, mul_raw(ph, PT_BASE_MULT as int) + sqrt_raw(ph) + PT_BASE_ADD)
        },
        None => true,
    }
    &&& in_range(mul_raw(nv, p.proficiency_critical_mod.raw as int))
    &&& in_range(mul_raw(mul_raw(nv, p.proficiency_critical_mod.raw as int), ONE_AND_A_HALF as int))
    &&& in_range(critical_value(p, capped))
}

/// Every intermediate of the whole pipeline is representable.
pub open spec fn calc_fits(p: AttackPowerParams) -> bool {
    &&& precap_fits(p, p.basic.raw as int)
    &&& cap_fits(p, precap_value(p, p.basic.raw as int))
    &&& postcap_fits(p, capped_value(p, precap_value(p, p.basic.raw as int)))
}

/// The pipeline's whole output as a value.
pub open spec fn spec_calc(p: AttackPowerParams) -> AttackPower {
    let precap = precap_value(p, p.basic.raw as int);
    let capped = capped_value(p, precap);
    AttackPower {
        precap: Fixed { raw: precap as i64 },
        is_capped: precap > p.cap.raw,
        capped: Fixed { raw: capped as i64 },
        normal: Fixed { raw: normal_value(p, capped) as i64 },
        critical: Fixed { raw: critical_value(p, capped) as i64 },
        armor_penetration: p.armor_penetration,
        remaining_ammo_mod: p.remaining_ammo_mod,
    }
}

impl AttackPower {
    /// The power term the resolver consumes for a hit of the given kind:
    /// zero for a miss, else the normal or critical power.
    pub fn get_attack_term(&self, hit_type: HitType) -> (r: Fixed)
        ensures
            r == match hit_type {
                HitType::Miss => Fixed { raw: 0 },
                HitType::Normal => self.normal,
                HitType::Critical => self.critical,
            },
    {
        match hit_type {
            HitType::Miss => Fixed::zero(),
            HitType::Normal => self.normal,
            HitType::Critical => self.critical,
        }
    }
}

impl AttackPowerParams {
    /// Runs the pipeline: the pre-cap chain, the soft cap, the post-cap
    /// chain. The critical power is always a whole number of units.
    pub fn calc(&self) -> (r: AttackPower)
        requires
            calc_fits(*self),
        ensures
            r == spec_calc(*self),
            r.critical.raw as int % (SCALE as int) == 0,
    {
        let cap = self.cap;
        let precap = self.apply_precap_mods(self.basic);

        let is_capped = precap.gt(cap);

        let capped = if is_capped {
            cap.add(precap.sub(cap).sqrt())
        } else {
            precap
        };

        let (normal, critical) = self.apply_postcap_mods(capped);

        proof {
            let capped_spec = capped_value(*self, precap.raw as int);
            lemma_mod_multiples_basic(
                mul_raw(
                    mul_raw(normal_value(*self, capped_spec), self.proficiency_critical_mod.raw as int),
                    ONE_AND_A_HALF as int,
                ) / (SCALE as int),
                SCALE as int,
            );
        }

        AttackPower {
            precap,
            is_capped,
            capped,
            normal,
            critical,
            armor_penetration: self.armor_penetration,
            remaining_ammo_mod: self.remaining_ammo_mod,
        }
    }

    fn apply_precap_mods(&self, basic: Fixed) -> (r: Fixed)
        requires
            precap_fits(*self, basic.raw as int),
        ensures
            r.raw as int == precap_value(*self, basic.raw as int),
    {
        let sp = &self.special_enemy_mods;

        let mut precap = basic;
        precap = sp.stype_mod.apply(precap);
        precap = precap.mul(sp.precap_general_mod.a);
        precap = sp.toku_daihatsu_tank_mod.apply(precap);
        precap = sp.m4a1dd_mod.apply(precap);
        precap = sp.honi_mod.apply(precap);
        precap = sp.landing_craft_synergy_mod.apply(precap);
        precap = precap.add(sp.precap_general_mod.b);

        precap = self.custom_mods.basic_power_mod.apply(precap);

        if let Some(v) = self.aerial_power {
            precap = precap.add(v).mul(Fixed::from_scaled(ONE_AND_A_HALF)).floor().add(
                Fixed::from_scaled(AERIAL_POWER_ADD),
            );
        }

        precap = self.precap_mod.compose(self.custom_mods.precap_mod).apply(precap);

        precap
    }

    fn apply_postcap_mods(&self, capped: Fixed) -> (r: (Fixed, Fixed))
        requires
            postcap_fits(*self, capped.raw as int),
        ensures
            r.0.raw as int == normal_value(*self, capped.raw as int),
            r.1.raw as int == critical_value(*self, capped.raw as int),
    {
        let sp = &self.special_enemy_mods;

        let mut postcap = capped.floor();

        postcap = self.postcap_mod.compose(self.custom_mods.postcap_mod).apply(postcap);

        if self.is_cutin {
            postcap = postcap.mul(self.balloon_mod);

            if let Some(v) = self.ap_shell_mod {
                postcap = postcap.mul(v).floor();
            }
        } else {
            if let Some(v) = self.ap_shell_mod {
                postcap = postcap.mul(v).floor();
            }

            postcap = postcap.mul(self.balloon_mod);
        }

        postcap = sp.postcap_general_mod.apply(postcap);

        let post_historical_power = self.historical_mod.compose(
            self.custom_mods.historical_mod,
        ).apply(postcap);

        let post_pt_power = if let Some(pt_mod) = sp.pt_mod {
            pt_mod.apply(
                post_historical_power.mul(Fixed::from_scaled(PT_BASE_MULT)).add(
                    post_historical_power.sqrt(),
                ).add(Fixed::from_scaled(PT_BASE_ADD)),
            )
        } else {
            post_historical_power
        };

        let normal = post_pt_power;

        let critical = normal.mul(self.proficiency_critical_mod).mul(
            Fixed::from_scaled(ONE_AND_A_HALF),
        ).floor();

        (normal, critical)
    }
}

impl Default for AttackPowerParams {
    /// The implicit identity for every unset optional behaviour: no cutin,
    /// zero basic power, a cap so large that nothing is capped, identity
    /// modifiers, and unit scalar factors.
    fn default() -> (r: Self)
        ensures
            r.is_cutin == false,
            r.basic.raw == 0,
            r.cap.raw == i64::MAX,
            r.precap_mod.is_identity(),
            r.postcap_mod.is_identity(),
            r.ap_shell_mod is None,
            r.aerial_power is None,
            r.proficiency_critical_mod.raw == SCALE,
            r.armor_penetration.raw == 0,
            r.remaining_ammo_mod.raw == SCALE,
            r.balloon_mod.raw == SCALE,
            r.special_enemy_mods.is_absent(),
            r.historical_mod.is_identity(),
            r.custom_mods.is_absent(),
    {
        AttackPowerParams {
            is_cutin: false,
            basic: Fixed::zero(),
            cap: Fixed::max_value(),
            precap_mod: AttackPowerModifier::identity(),
            postcap_mod: AttackPowerModifier::identity(),
            ap_shell_mod: None,
            aerial_power: None,
            proficiency_critical_mod: Fixed::one(),
            armor_penetration: Fixed::zero(),
            remaining_ammo_mod: Fixed::one(),
            balloon_mod: Fixed::one(),
            special_enemy_mods: SpecialEnemyModifiers::default(),
            historical_mod: AttackPowerModifier::identity(),
            custom_mods: CustomPowerModifiers::default(),
        }
    }
}

/// Every scalar and every modifier component handed to the pipeline is
/// non-negative.
pub open spec fn nonneg_inputs(p: AttackPowerParams) -> bool {
    &&& p.basic.raw >= 0
    &&& p.cap.raw >= 0
    &&& nonneg_modifier(p.precap_mod)
    &&& nonneg_modifier(p.postcap_mod)
    &&& match p.ap_shell_mod {
        Some(v) => v.raw >= 0,
        None => true,
    }
    &&& match p.aerial_power {
        Some(v) => v.raw >= 0,
        None => true,
    }
    &&& p.proficiency_critical_mod.raw >= 0
    &&& p.balloon_mod.raw >= 0
    &&& nonneg_modifier(p.special_enemy_mods.precap_general_mod)
    &&& nonneg_modifier(p.special_enemy_mods.stype_mod)
    &&& nonneg_modifier(p.special_enemy_mods.landing_craft_synergy_mod)
    &&& nonneg_modifier(p.special_enemy_mods.toku_daihatsu_tank_mod)
    &&& nonneg_modifier(p.special_enemy_mods.m4a1dd_mod)
    &&& nonneg_modifier(p.special_enemy_mods.honi_mod)
    &&& nonneg_modifier(p.special_enemy_mods.postcap_general_mod)
    &&& match p.special_enemy_mods.pt_mod {
        Some(m) => nonneg_modifier(m),
        None => true,
    }
    &&& nonneg_modifier(p.historical_mod)
    &&& nonneg_modifier(p.custom_mods.basic_power_mod)
    &&& nonneg_modifier(p.custom_mods.precap_mod)
    &&& nonneg_modifier(p.custom_mods.postcap_mod)
    &&& nonneg_modifier(p.custom_mods.historical_mod)
}

/// Law: with non-negative inputs every stage of the pipeline is
/// non-negative — in particular the pre-cap, capped, normal and critical
/// power values.
pub proof fn lemma_nonneg_power(p: AttackPowerParams)
    requires
        nonneg_inputs(p),
    ensures
        precap_value(p, p.basic.raw as int) >= 0,
        capped_value(p, precap_value(p, p.basic.raw as int)) >= 0,
        normal_value(p, capped_value(p, precap_value(p, p.basic.raw as int))) >= 0,
        critical_value(p, capped_value(p, precap_value(p, p.basic.raw as int))) >= 0,
{
    let x0 = p.basic.raw as int;
    let sp = p.special_enemy_mods;
    lemma_apply_nonneg(sp.stype_mod, x0);
    let x1 = spec_apply(sp.stype_mod, x0);
    lemma_mul_raw_nonneg(x1, sp.precap_general_mod.a.raw as int);
    let x2 = mul_raw(x1, sp.precap_general_mod.a.raw as int);
    lemma_apply_nonneg(sp.toku_daihatsu_tank_mod, x2);
    let x3 = spec_apply(sp.toku_daihatsu_tank_mod, x2);
    lemma_apply_nonneg(sp.m4a1dd_mod, x3);
    let x4 = spec_apply(sp.m4a1dd_mod, x3);
    lemma_apply_nonneg(sp.honi_mod, x4);
    let x5 = spec_apply(sp.honi_mod, x4);
    lemma_apply_nonneg(sp.landing_craft_synergy_mod, x5);
    let x6 = spec_apply(sp.landing_craft_synergy_mod, x5);
    let x7 = x6 + sp.precap_general_mod.b.raw;
    lemma_apply_nonneg(p.custom_mods.basic_power_mod, x7);
    let x8 = spec_apply(p.custom_mods.basic_power_mod, x7);
    let x9 = precap_after_aerial(p, x0);
    match p.aerial_power {
        Some(v) => {
            lemma_mul_raw_nonneg(x8 + v.raw, ONE_AND_A_HALF as int);
            lemma_floor_raw_nonneg(mul_raw(x8 + v.raw, ONE_AND_A_HALF as int));
        },
        None => {},
    }
    assert(x9 >= 0);
    lemma_compose_apply_nonneg(p.precap_mod, p.custom_mods.precap_mod, x9);
    let precap = precap_value(p, x0);
    let capped = capped_value(p, precap);
    if precap > p.cap.raw {
        lemma_sqrt_raw_nonneg(precap - p.cap.raw);
    }
    assert(capped >= 0);
    lemma_floor_raw_nonneg(capped);
    lemma_compose_apply_nonneg(p.postcap_mod, p.custom_mods.postcap_mod, floor_raw(capped));
    let y0 = post_modifier(p, capped);
    if p.is_cutin {
        lemma_mul_raw_nonneg(y0, p.balloon_mod.raw as int);
        let y1 = mul_raw(y0, p.balloon_mod.raw as int);
        match p.ap_shell_mod {
            Some(v) => {
                lemma_mul_raw_nonneg(y1, v.raw as int);
                lemma_floor_raw_nonneg(mul_raw(y1, v.raw as int));
            },
            None => {},
        }
    } else {
        match p.ap_shell_mod {
            Some(v) => {
                lemma_mul_raw_nonneg(y0, v.raw as int);
                lemma_floor_raw_nonneg(mul_raw(y0, v.raw as int));
                lemma_mul_raw_nonneg(
                    floor_raw(mul_raw(y0, v.raw as int)),
                    p.balloon_mod.raw as int,
                );
            },
            None => {
                lemma_mul_raw_nonneg(y0, p.balloon_mod.raw as int);
            },
        }
    }
    assert(post_cutin(p, capped) >= 0);
    lemma_apply_nonneg(sp.postcap_general_mod, post_cutin(p, capped));
    lemma_compose_apply_nonneg(
        p.historical_mod,
        p.custom_mods.historical_mod,
        post_special(p, capped),
    );
    let ph = post_historical(p, capped);
    match sp.pt_mod {
        Some(m) => {
            lemma_mul_raw_nonneg(ph, PT_BASE_MULT as int);
            lemma_sqrt_raw_nonneg(ph);
            lemma_apply_nonneg(m, mul_raw(ph, PT_BASE_MULT as int) + sqrt_raw(ph) + PT_BASE_ADD);
        },
        None => {},
    }
    let nv = normal_value(p, capped);
    lemma_mul_raw_nonneg(nv, p.proficiency_critical_mod.raw as int);
    lemma_mul_raw_nonneg(
        mul_raw(nv, p.proficiency_critical_mod.raw as int),
        ONE_AND_A_HALF as int,
    );
    lemma_floor_raw_nonneg(
        mul_raw(mul_raw(nv, p.proficiency_critical_mod.raw as int), ONE_AND_A_HALF as int),
    );
}

/// Law: when an aerial power value `v` is present, the pre-cap value is
/// `floor((value-before-the-branch + v) * 1.5) + 25` handed to the final
/// precap composition — nothing else of the chain touches it.
pub proof fn lemma_aerial_precap(p: AttackPowerParams, x0: int, v: Fixed)
    requires
        p.aerial_power == Some(v),
    ensures
        precap_value(p, x0) == compose_apply(
            p.precap_mod,
            p.custom_mods.precap_mod,
            floor_raw(mul_raw(precap_before_aerial(p, x0) + v.raw, ONE_AND_A_HALF as int))
                + AERIAL_POWER_ADD,
        ),
{
}

} // verus!
