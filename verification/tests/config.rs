use uart_control::config::{DataBits, Parity, StopBits};

#[test]
fn data_bits_counts() {
    assert_eq!(DataBits::Five.bit_count(), 5);
    assert_eq!(DataBits::Six.bit_count(), 6);
    assert_eq!(DataBits::Seven.bit_count(), 7);
    assert_eq!(DataBits::Eight.bit_count(), 8);
}

#[test]
fn stop_bits_counts() {
    assert_eq!(StopBits::One.bit_count(), 1);
    assert_eq!(StopBits::Two.bit_count(), 2);
}

#[test]
fn parity_variants_are_distinct() {
    assert_ne!(Parity::Even, Parity::Odd);
    assert_ne!(Parity::Even, Parity::NoParity);
    assert_ne!(Parity::Odd, Parity::NoParity);
}
