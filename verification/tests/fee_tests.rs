use stake_pool::fee::{Fee, SharedFee};

#[test]
fn fee_validity() {
    assert!(Fee { numerator: 1, denominator: 10 }.is_valid());
    assert!(!Fee { numerator: 0, denominator: 10 }.is_valid());
    assert!(!Fee { numerator: 10, denominator: 10 }.is_valid());
    assert!(!Fee { numerator: 11, denominator: 10 }.is_valid());
    assert!(!Fee { numerator: 1, denominator: 0 }.is_valid());
}

#[test]
fn fee_multiply_rounds_down() {
    let fee = Fee { numerator: 1, denominator: 3 };
    assert_eq!(fee.multiply(10), 3);
    assert_eq!(fee.multiply(2), 0);
    let fee = Fee { numerator: 1, denominator: 10 };
    assert_eq!(fee.multiply(1_000_000), 100_000);
}

#[test]
fn shared_fee_split_without_partner() {
    let fee = SharedFee { self_fee: Fee { numerator: 1, denominator: 10 }, partner_fee: None };
    assert_eq!(fee.split(100), (10, 0));
    // Output never exceeds input.
    assert!(10 + 0 <= 100);
}

#[test]
fn shared_fee_partner_takes_from_self_cut() {
    // Fee-of-fee: the partner's half comes out of the 10% cut, not the principal.
    let fee = SharedFee {
        self_fee: Fee { numerator: 1, denominator: 10 },
        partner_fee: Some(Fee { numerator: 1, denominator: 2 }),
    };
    let (self_cut, partner_cut) = fee.split(100);
    assert_eq!(self_cut, 5);
    assert_eq!(partner_cut, 5);
    assert!(partner_cut <= self_cut);
}

#[test]
fn shared_fee_greedy_partner_outweighs_self_cut() {
    // With a partner fraction above one half the partner's cut exceeds the
    // pool's own, though the sum still never exceeds the raw cut.
    let fee = SharedFee {
        self_fee: Fee { numerator: 1, denominator: 10 },
        partner_fee: Some(Fee { numerator: 99, denominator: 100 }),
    };
    let (self_cut, partner_cut) = fee.split(1000);
    assert_eq!(partner_cut, 99);
    assert_eq!(self_cut, 1);
    assert!(self_cut + partner_cut <= 1000);
}

#[test]
fn shared_fee_zero_raw_cut_gives_partner_nothing() {
    let fee = SharedFee {
        self_fee: Fee { numerator: 1, denominator: 10 },
        partner_fee: Some(Fee { numerator: 1, denominator: 2 }),
    };
    assert_eq!(fee.split(5), (0, 0));
}
