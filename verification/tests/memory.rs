use vulcor::memory::get_memory_type_index;

#[test]
fn first_admitted_type_with_required_flags_wins() {
    // Types 1 and 2 are admitted by the mask; type 1 lacks the flag.
    let bits: u32 = 0b0110;
    let flags = vec![0b111, 0b001, 0b011];
    assert_eq!(get_memory_type_index(bits, &flags, 0b010), Some(2));
}

#[test]
fn admitted_type_must_carry_every_required_flag() {
    let bits: u32 = 0b1111;
    let flags = vec![0b001, 0b110, 0b111];
    assert_eq!(get_memory_type_index(bits, &flags, 0b011), Some(2));
}

#[test]
fn no_suitable_memory_type_yields_none() {
    let bits: u32 = 0b0001;
    let flags = vec![0b000, 0b111];
    assert_eq!(get_memory_type_index(bits, &flags, 0b100), None);

    let empty: Vec<u32> = vec![];
    assert_eq!(get_memory_type_index(0xFFFF_FFFF, &empty, 0), None);
}
