use vrf_lottery::vrf_args::extra_args_for_native_payment;

#[test]
fn native_payment_payload_layout() {
    let args = extra_args_for_native_payment();
    assert_eq!(args.len(), 64);
    assert_eq!(&args[0..4], &[0x92, 0xfd, 0x13, 0x38]);
    for i in 4..64 {
        if i == 35 {
            assert_eq!(args[i], 0x01);
        } else {
            assert_eq!(args[i], 0x00);
        }
    }
}
