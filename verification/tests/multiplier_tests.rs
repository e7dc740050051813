//! Tests for the per-block fee multiplier update.

use fee_engine::fixed::Fixed64;
use fee_engine::multiplier::{FeeMultiplierUpdateHandler, MAX_BLOCK_WEIGHT, TARGET_BLOCK_WEIGHT};
use fee_engine::Weight;

fn max() -> Weight {
    MAX_BLOCK_WEIGHT
}

fn target() -> Weight {
    TARGET_BLOCK_WEIGHT
}

// poc reference implementation.
fn fee_multiplier_update(block_weight: Weight, previous: Fixed64) -> Fixed64 {
    let block_weight = block_weight as f32;
    let v: f32 = 0.00004;

    // maximum tx weight
    let m = max() as f32;
    // Ideal saturation in terms of weight
    let ss = target() as f32;
    // Current saturation in terms of weight
    let s = block_weight;

    let fm = (v * (s / m - ss / m)) + (v.powi(2) * (s / m - ss / m).powi(2)) / 2.0;
    let addition_fm = Fixed64::from_parts((fm * 1_000_000_000_f32) as i64);
    previous.saturating_add(addition_fm)
}

fn fm(parts: i64) -> Fixed64 {
    Fixed64::from_parts(parts)
}

#[test]
fn fee_multiplier_update_poc_works() {
    let fm = Fixed64::from_rational(0, 1);
    let test_set = vec![
        (100, fm.clone()),
        (target(), fm.clone()),
        (max() / 2, fm.clone()),
        (max(), fm.clone()),
    ];
    test_set.into_iter().for_each(|(w, fm)| {
        assert_eq!(
            fee_multiplier_update(w, fm),
            FeeMultiplierUpdateHandler::convert((w, fm)),
            "failed for weight {} and prev fm {:?}",
            w,
            fm,
        );
    })
}

#[test]
fn empty_chain_simulation() {
    // just a few txs per_block.
    let block_weight = 1000;
    let mut fm = Fixed64::default();
    let mut iterations: u64 = 0;
    loop {
        let next = FeeMultiplierUpdateHandler::convert((block_weight, fm));
        fm = next;
        if fm == Fixed64::from_rational(-1, 1) {
            break;
        }
        iterations += 1;
    }
    println!(
        "iteration {}, new fm = {:?}. Weight fee is now zero",
        iterations, fm
    );
}

#[test]
fn stateless_weight_mul() {
    // Light block. Fee is reduced a little.
    assert_eq!(
        FeeMultiplierUpdateHandler::convert((target() / 4, Fixed64::default())),
        fm(-7500)
    );
    // a bit more. Fee is decreased less, meaning that the fee increases as the block grows.
    assert_eq!(
        FeeMultiplierUpdateHandler::convert((target() / 2, Fixed64::default())),
        fm(-5000)
    );
    // ideal. Original fee. No changes.
    assert_eq!(
        FeeMultiplierUpdateHandler::convert((target(), Fixed64::default())),
        fm(0)
    );
    // More than ideal. Fee is increased.
    assert_eq!(
        FeeMultiplierUpdateHandler::convert((target() * 2, Fixed64::default())),
        fm(10000)
    );
}

#[test]
fn stateful_weight_mul_grow_to_infinity() {
    assert_eq!(
        FeeMultiplierUpdateHandler::convert((target() * 2, Fixed64::default())),
        fm(10000)
    );
    assert_eq!(
        FeeMultiplierUpdateHandler::convert((target() * 2, fm(10000))),
        fm(20000)
    );
    assert_eq!(
        FeeMultiplierUpdateHandler::convert((target() * 2, fm(20000))),
        fm(30000)
    );
    // ...
    assert_eq!(
        FeeMultiplierUpdateHandler::convert((target() * 2, fm(1_000_000_000))),
        fm(1_000_000_000 + 10000)
    );
}

#[test]
fn stateful_weight_mil_collapse_to_minus_one() {
    assert_eq!(
        FeeMultiplierUpdateHandler::convert((0, Fixed64::default())),
        fm(-10000)
    );
    assert_eq!(
        FeeMultiplierUpdateHandler::convert((0, fm(-10000))),
        fm(-20000)
    );
    assert_eq!(
        FeeMultiplierUpdateHandler::convert((0, fm(-20000))),
        fm(-30000)
    );
    // ...
    assert_eq!(
        FeeMultiplierUpdateHandler::convert((0, fm(1_000_000_000 * -1))),
        fm(-1_000_000_000)
    );
}

#[test]
fn weight_to_fee_should_not_overflow_on_large_weights() {
    let kb = 1024 as Weight;
    let mb = kb * kb;
    let max_fm = Fixed64::from_natural(i64::max_value());

    vec![
        0,
        1,
        10,
        1000,
        kb,
        10 * kb,
        100 * kb,
        mb,
        10 * mb,
        Weight::max_value() / 2,
        Weight::max_value(),
    ]
    .into_iter()
    .for_each(|i| {
        FeeMultiplierUpdateHandler::convert((i, Fixed64::default()));
    });

    // Some values that are all above the target and will cause an increase.
    let t = target();
    vec![t + 100, t * 2, t * 4].into_iter().for_each(|i| {
        let fm = FeeMultiplierUpdateHandler::convert((i, max_fm));
        // won't grow. The convert saturates everything.
        assert_eq!(fm, max_fm);
    });
}

#[test]
fn below_target_never_raises_examples() {
    // Any weight below the target lowers the multiplier, but never past -1.0.
    for &w in &[0, 1, target() / 3, target() - 1] {
        let next = FeeMultiplierUpdateHandler::convert((w, fm(5000)));
        assert!(next.parts <= 5000, "weight {} raised the multiplier", w);
        assert!(next.parts >= -1_000_000_000);
    }
    // Already at the floor: the floor is a fixed point.
    assert_eq!(
        FeeMultiplierUpdateHandler::convert((0, fm(-1_000_000_000))),
        fm(-1_000_000_000)
    );
}

#[test]
fn above_target_never_lowers_examples() {
    for &w in &[target(), target() + 1, max(), Weight::max_value()] {
        let next = FeeMultiplierUpdateHandler::convert((w, fm(-2000)));
        assert!(next.parts >= -2000, "weight {} lowered the multiplier", w);
    }
}

#[test]
fn at_target_multiplier_unchanged() {
    for &parts in &[i64::MIN, -1_000_000_000, -1, 0, 1, 987_654_321, i64::MAX] {
        assert_eq!(
            FeeMultiplierUpdateHandler::convert((target(), fm(parts))),
            fm(parts)
        );
    }
}
