use maikor_vm_core::flags::{has_overflowed_byte, has_overflowed_word};
use maikor_vm_core::mem::{
    is_inside_atlas1_bank, is_inside_atlas4_bank, is_inside_code_bank, is_inside_code_bank_1,
    is_inside_code_bank_2, is_inside_ram_bank, is_inside_save_bank,
};
use maikor_vm_core::types::math::{
    add_byte, add_word, and_byte, and_word, carrying_add_byte, carrying_add_word,
    carrying_sub_byte, carrying_sub_word, div_byte, div_word, divs_byte, divs_word, mul_byte,
    mul_word, muls_byte, muls_word, or_byte, or_word, sub_byte, sub_word, xor_byte, xor_word,
};
use maikor_vm_core::types::{
    is_first_bit_set_byte, is_first_bit_set_word, is_last_bit_set_byte, Address, Byte, Word,
};

#[test]
fn first_bit_is_the_sign_bit() {
    for b in 0..=255u8 {
        assert_eq!(is_first_bit_set_byte(b), b >= 128);
        assert_eq!(Byte(b).is_first_bit_set(), b >= 128);
        assert_eq!(is_last_bit_set_byte(b), b & 1 == 1);
    }
    for w in 0..=65535u16 {
        assert_eq!(is_first_bit_set_word(w), w >= 32768);
    }
}

#[test]
fn words_round_trip_through_their_bytes() {
    for w in 0..=65535u16 {
        let bytes = Word(w).to_be_bytes();
        assert_eq!([bytes[0].0, bytes[1].0], w.to_be_bytes());
        assert_eq!(Word::from_be_bytes(bytes), Word(w));
    }
    assert_eq!(Word(0x1234).to_be_bytes(), [Byte(0x12), Byte(0x34)]);
    assert_eq!(Word(0xABCD).to_address(), Address(0xABCD));
}

#[test]
fn wrapping_arithmetic_is_modular() {
    for a in 0..=255u8 {
        for b in 0..=255u8 {
            assert_eq!(Byte(a).wrapping_add(Byte(b)).0, a.wrapping_add(b));
            assert_eq!(Byte(a).wrapping_sub(Byte(b)).0, a.wrapping_sub(b));
        }
    }
    assert_eq!(Word(65535).wrapping_add(Word(2)), Word(1));
    assert_eq!(Word(1).wrapping_sub(Word(2)), Word(65535));
    assert_eq!(Byte(7).as_usize(), 7);
    assert_eq!(Address(65535).offset_by(2), Address(1));
    assert_eq!(Address(10).offset_by(65536 + 5), Address(15));
    assert_eq!(Byte::zero(), Byte(0));
    assert_eq!(Word::one(), Word(1));
}

#[test]
fn byte_primitives_are_those_of_the_integers() {
    for a in 0..=255u8 {
        for b in 0..=255u8 {
            let (x, y) = (Byte(a), Byte(b));
            let expect = |r: (u8, bool)| (Byte(r.0), r.1);
            assert_eq!(add_byte(x, y, false), expect(a.overflowing_add(b)));
            assert_eq!(sub_byte(x, y, true), expect(a.overflowing_sub(b)));
            assert_eq!(mul_byte(x, y, false), expect(a.overflowing_mul(b)));
            assert_eq!(and_byte(x, y, true), (Byte(a & b), false));
            assert_eq!(or_byte(x, y, true), (Byte(a | b), false));
            assert_eq!(xor_byte(x, y, true), (Byte(a ^ b), false));
            let (r, o) = (a as i8).overflowing_mul(b as i8);
            assert_eq!(muls_byte(x, y, false), (Byte(r as u8), o));
            if b != 0 {
                assert_eq!(div_byte(x, y, false), (Byte(a / b), false));
                let (r, o) = (a as i8).overflowing_div(b as i8);
                assert_eq!(divs_byte(x, y, false), (Byte(r as u8), o));
            }
            for carry in [false, true] {
                let (p, o1) = a.overflowing_add(b);
                let (r, o2) = p.overflowing_add(carry as u8);
                assert_eq!(carrying_add_byte(x, y, carry), (Byte(r), o1 | o2));
                let (p, o1) = a.overflowing_sub(b);
                let (r, o2) = p.overflowing_sub(carry as u8);
                assert_eq!(carrying_sub_byte(x, y, carry), (Byte(r), o1 | o2));
            }
            assert_eq!(has_overflowed_byte(a, b), (a >= 128) != (b >= 128));
        }
    }
}

#[test]
fn word_primitives_are_those_of_the_integers() {
    let samples: [u16; 14] = [
        0, 1, 2, 3, 255, 256, 257, 12345, 32767, 32768, 32769, 40000, 65534, 65535,
    ];
    for a in samples {
        for b in samples {
            let (x, y) = (Word(a), Word(b));
            let expect = |r: (u16, bool)| (Word(r.0), r.1);
            assert_eq!(add_word(x, y, false), expect(a.overflowing_add(b)));
            assert_eq!(sub_word(x, y, false), expect(a.overflowing_sub(b)));
            assert_eq!(mul_word(x, y, false), expect(a.overflowing_mul(b)));
            assert_eq!(and_word(x, y, false), (Word(a & b), false));
            assert_eq!(or_word(x, y, false), (Word(a | b), false));
            assert_eq!(xor_word(x, y, false), (Word(a ^ b), false));
            let (r, o) = (a as i16).overflowing_mul(b as i16);
            assert_eq!(muls_word(x, y, false), (Word(r as u16), o));
            if b != 0 {
                assert_eq!(div_word(x, y, false), (Word(a / b), false));
                let (r, o) = (a as i16).overflowing_div(b as i16);
                assert_eq!(divs_word(x, y, false), (Word(r as u16), o));
            }
            for carry in [false, true] {
                let (p, o1) = a.overflowing_add(b);
                let (r, o2) = p.overflowing_add(carry as u16);
                assert_eq!(carrying_add_word(x, y, carry), (Word(r), o1 | o2));
                let (p, o1) = a.overflowing_sub(b);
                let (r, o2) = p.overflowing_sub(carry as u16);
                assert_eq!(carrying_sub_word(x, y, carry), (Word(r), o1 | o2));
            }
            assert_eq!(has_overflowed_word(a, b), (a >= 32768) != (b >= 32768));
        }
    }
}

#[test]
fn adding_one_to_ff_gives_zero_and_a_carry() {
    assert_eq!(add_byte(Byte(0xFF), Byte(0x01), false), (Byte(0x00), true));
    assert_eq!(divs_byte(Byte(0x80), Byte(0xFF), false), (Byte(0x80), true));
    assert_eq!(divs_byte(Byte(0xF9), Byte(2), false), (Byte(0xFD), false));
    assert_eq!(muls_byte(Byte(0xFF), Byte(5), false), (Byte(0xFB), false));
    assert_eq!(Byte(0x0F).not(), Byte(0xF0));
    assert_eq!(Byte(0x0F).xor(Byte(0xFF)), Byte(0xF0));
    assert_eq!(Word(0x0F0F).and(Word(0x00FF)), Word(0x000F));
    assert_eq!(Word(0x0F0F).or(Word(0x00FF)), Word(0x0FFF));
    assert_eq!(Word(0).not(), Word(0xFFFF));
}

#[test]
fn windows_are_half_open_ranges() {
    assert!(!is_inside_code_bank_1(8999));
    assert!(is_inside_code_bank_1(9000));
    assert!(is_inside_code_bank_1(13199));
    assert!(!is_inside_code_bank_1(13200));
    assert!(is_inside_code_bank_2(13200));
    assert!(is_inside_code_bank(9000) && is_inside_code_bank(17399));
    assert!(!is_inside_code_bank(17400));
    assert!(is_inside_ram_bank(26400) && is_inside_ram_bank(34799));
    assert!(!is_inside_ram_bank(26399) && !is_inside_ram_bank(34800));
    assert!(is_inside_save_bank(0x8811) && !is_inside_save_bank(0x8810));
    assert!(is_inside_save_bank(0x9810) && !is_inside_save_bank(0x9811));
    assert!(is_inside_atlas1_bank(0x9811));
    assert!(is_inside_atlas4_bank(0xD690) && !is_inside_atlas4_bank(0xD691));
}
