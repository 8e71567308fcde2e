use cp_swap::fees::{get_transfer_fee, get_transfer_inverse_fee, TransferFeeConfig};

fn cfg(bps: u16, max: u64) -> TransferFeeConfig {
    TransferFeeConfig {
        transfer_fee_basis_points: bps,
        maximum_fee: max,
    }
}

#[test]
fn forward_fee_zero_rate_is_free() {
    assert_eq!(get_transfer_fee(&TransferFeeConfig::exempt(), u64::MAX), 0);
    assert_eq!(get_transfer_fee(&cfg(0, 5000), 123456), 0);
}

#[test]
fn forward_fee_rounds_down_and_caps() {
    // 1% of 10000
    assert_eq!(get_transfer_fee(&cfg(100, 5000), 10000), 100);
    // 1% of 99 rounds down to 0
    assert_eq!(get_transfer_fee(&cfg(100, 5000), 99), 0);
    // 1% of 1_000_000 is 10000, capped at 5000
    assert_eq!(get_transfer_fee(&cfg(100, 5000), 1_000_000), 5000);
}

#[test]
fn inverse_fee_exact_round_trip() {
    // gross of 10000 at 1% loses exactly 100
    let fee = get_transfer_inverse_fee(&cfg(100, 5000), 9900);
    assert_eq!(fee, 100);
    let gross = 9900 + fee;
    assert_eq!(gross - get_transfer_fee(&cfg(100, 5000), gross), 9900);
}

#[test]
fn inverse_fee_when_cap_binds() {
    let c = cfg(100, 50);
    let fee = get_transfer_inverse_fee(&c, 9900);
    assert_eq!(fee, 50);
    let gross = 9900 + fee;
    assert_eq!(get_transfer_fee(&c, gross), 50);
    assert_eq!(gross - get_transfer_fee(&c, gross), 9900);
}

#[test]
fn inverse_fee_full_rate_is_the_cap() {
    let c = cfg(10000, 77);
    let fee = get_transfer_inverse_fee(&c, 500);
    assert_eq!(fee, 77);
    let gross = 500 + fee;
    assert_eq!(get_transfer_fee(&c, gross), 77);
    assert_eq!(gross - get_transfer_fee(&c, gross), 500);
}

#[test]
fn inverse_then_forward_never_undershoots() {
    let cases: [(u16, u64, u64); 6] = [
        (1, u64::MAX, 1),
        (1, u64::MAX, 9999),
        (9999, u64::MAX, 12345),
        (30, 7, 1_000_000),
        (2500, 10_000_000, 123_456_789),
        (0, 0, 42),
    ];
    for (bps, max, net) in cases {
        let c = cfg(bps, max);
        let fee = get_transfer_inverse_fee(&c, net);
        let gross = net.checked_add(fee).unwrap();
        let delivered = gross - get_transfer_fee(&c, gross);
        assert!(delivered >= net, "bps {bps} max {max} net {net}");
    }
}
