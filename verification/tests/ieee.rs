use pvlc_decoder_sessions::ieee::narrow;

#[test]
fn narrowing_agrees_with_the_cast() {
    for value in [0.0_f64, 1.0, 1e-5, 1e-6, -3.5, 1e300, 1e-40, 1e-45, 7e-46, 3.4028235677973366e38] {
        assert_eq!(narrow(value.to_bits()), (value as f32).to_bits());
    }
}
