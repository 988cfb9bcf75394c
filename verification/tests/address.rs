use lm75::Address;

#[test]
fn default_address_matches_alternative_all_false() {
    assert_eq!(Address::default(), Address::from((false, false, false)))
}

#[test]
fn can_generate_alternative_addresses() {
    assert_eq!(Address::from(0b100_1000), Address::from((false, false, false)));
    assert_eq!(Address::from(0b100_1001), Address::from((false, false, true)));
    assert_eq!(Address::from(0b100_1010), Address::from((false, true, false)));
    assert_eq!(Address::from(0b100_1100), Address::from((true, false, false)));
    assert_eq!(Address::from(0b100_1111), Address::from((true, true, true)));
}

#[test]
fn all_pins_high_sets_the_three_low_bits() {
    assert_eq!(Address::from((true, true, true)), Address(0b100_1111));
}

#[test]
fn custom_address_is_kept_unchanged() {
    let all_pins_floating = 0x37;
    assert_eq!(Address::from(all_pins_floating), Address(0x37));
}
