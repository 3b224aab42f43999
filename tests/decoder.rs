use communications::decoder::unpack;

fn pack(s: &str) -> u64 {
    let mut value: u64 = 0;
    for (i, c) in s.chars().enumerate() {
        value += ((c as u64) - 31) << (6 * i);
    }
    value
}

fn text(chars: Vec<char>) -> String {
    chars.into_iter().collect()
}

#[test]
fn zero_code_is_empty() {
    assert!(unpack(0).is_empty());
}

#[test]
fn single_letter() {
    // 'A' is 65, stored as 34
    assert_eq!(unpack(34), vec!['A']);
}

#[test]
fn calibration_word_round_trip() {
    let code = pack("PARIS");
    assert_eq!(code, 49 + (34 << 6) + (51 << 12) + (42 << 18) + (52 << 24));
    assert_eq!(text(unpack(code)), "PARIS");
}

#[test]
fn eight_slots_round_trip() {
    assert_eq!(text(unpack(pack("LFPG 26R"))), "LFPG 26R");
    assert_eq!(text(unpack(pack("^^^^^^^^"))), "^^^^^^^^");
}

#[test]
fn empty_slots_are_skipped() {
    // slot 1 empty between 'I' and 'S'
    let code = (('I' as u64) - 31) + ((('S' as u64) - 31) << 12);
    assert_eq!(text(unpack(code)), "IS");
}

#[test]
fn bits_beyond_eight_slots_are_ignored() {
    let code = pack("VOR") | (1u64 << 48) | (7u64 << 60);
    assert_eq!(text(unpack(code)), "VOR");
    assert!(unpack(1u64 << 48).is_empty());
}

#[test]
fn full_slot_mask() {
    // every slot 63: character 94 eight times
    assert_eq!(text(unpack((1u64 << 48) - 1)), "^^^^^^^^");
}
