use azurge_core::fx::{
    cos_fx, fx_add, fx_clamp, fx_div, fx_mul, fx_neg, fx_sub, isqrt_u128, sin_fx, wrap_deg, FX_ONE,
    FX_TURN,
};
use azurge_core::math::{v3_normalize, Vec3Fx};

#[test]
fn fx_mul_is_exact_on_unit_multiples() {
    assert_eq!(fx_mul(FX_ONE, FX_ONE), FX_ONE);
    assert_eq!(fx_mul(2 * FX_ONE, 3 * FX_ONE), 6 * FX_ONE);
    assert_eq!(fx_mul(-2 * FX_ONE, 3 * FX_ONE), -6 * FX_ONE);
    assert_eq!(fx_mul(500000, 500000), 250000);
}

#[test]
fn fx_mul_truncates_toward_zero() {
    // 0.000001 * 0.5 rounds to zero from either side.
    assert_eq!(fx_mul(1, 500000), 0);
    assert_eq!(fx_mul(-1, 500000), 0);
}

#[test]
fn fx_div_is_exact_and_total() {
    assert_eq!(fx_div(FX_ONE, 2 * FX_ONE), 500000);
    assert_eq!(fx_div(16 * FX_ONE, 9 * FX_ONE), 1777777);
    assert_eq!(fx_div(-16 * FX_ONE, 9 * FX_ONE), -1777777);
    assert_eq!(fx_div(FX_ONE, 0), 0);
}

#[test]
fn fx_add_saturates_at_the_ends() {
    assert_eq!(fx_add(i64::MAX, 1), i64::MAX);
    assert_eq!(fx_add(i64::MIN, -1), i64::MIN);
    assert_eq!(fx_sub(i64::MIN, 1), i64::MIN);
    assert_eq!(fx_neg(i64::MIN), i64::MAX);
    assert_eq!(fx_add(FX_ONE, FX_ONE), 2 * FX_ONE);
}

#[test]
fn fx_clamp_pins_both_ends() {
    assert_eq!(fx_clamp(5, -2, 3), 3);
    assert_eq!(fx_clamp(-5, -2, 3), -2);
    assert_eq!(fx_clamp(1, -2, 3), 1);
}

#[test]
fn wrap_deg_lands_in_one_turn() {
    assert_eq!(wrap_deg(0), 0);
    assert_eq!(wrap_deg(FX_TURN), 0);
    assert_eq!(wrap_deg(-90 * FX_ONE), 270 * FX_ONE);
    assert_eq!(wrap_deg(450 * FX_ONE), 90 * FX_ONE);
}

#[test]
fn sine_and_cosine_hit_the_exact_points() {
    assert_eq!(sin_fx(0), 0);
    assert_eq!(sin_fx(90 * FX_ONE), FX_ONE);
    assert_eq!(sin_fx(180 * FX_ONE), 0);
    assert_eq!(sin_fx(-90 * FX_ONE), -FX_ONE);
    assert_eq!(sin_fx(30 * FX_ONE), 500000);
    assert_eq!(cos_fx(0), FX_ONE);
    assert_eq!(cos_fx(90 * FX_ONE), 0);
    assert_eq!(cos_fx(180 * FX_ONE), -FX_ONE);
    assert_eq!(cos_fx(60 * FX_ONE), 500000);
}

#[test]
fn isqrt_rounds_down() {
    assert_eq!(isqrt_u128(0), 0);
    assert_eq!(isqrt_u128(1), 1);
    assert_eq!(isqrt_u128(35), 5);
    assert_eq!(isqrt_u128(36), 6);
    assert_eq!(isqrt_u128(1000000000000), 1000000);
}

#[test]
fn normalize_rescales_a_pythagorean_triple() {
    let v = Vec3Fx { x: 3 * FX_ONE, y: 0, z: 4 * FX_ONE };
    let n = v3_normalize(v);
    assert_eq!(n, Vec3Fx { x: 600000, y: 0, z: 800000 });
    let zero = v3_normalize(Vec3Fx { x: 0, y: 0, z: 0 });
    assert_eq!(zero, Vec3Fx { x: 0, y: 0, z: 0 });
}
