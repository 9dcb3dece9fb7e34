use conv::errors::UnwrapOk;
use conv::{NoError, Overflow, TryFrom, TryInto, Unrepresentable};

#[test]
fn a_character_converts_to_its_code_point() {
    assert_eq!(<u32 as TryFrom<char>>::try_from('a').unwrap_ok(), 97);
    assert_eq!(<u32 as TryFrom<char>>::try_from('\u{10FFFF}').unwrap_ok(), 0x10FFFF);
    assert_eq!(<i32 as TryFrom<char>>::try_from('\u{10FFFF}').unwrap_ok(), 0x10FFFF);
    assert_eq!(<u64 as TryFrom<char>>::try_from('\u{E000}').unwrap_ok(), 0xE000);
    assert_eq!(<i64 as TryFrom<char>>::try_from('\0').unwrap_ok(), 0);
    assert_eq!(<usize as TryFrom<char>>::try_from('\u{D7FF}').unwrap_ok(), 0xD7FF);
    assert_eq!(<isize as TryFrom<char>>::try_from('é').unwrap_ok(), 0xE9);
    let code: Result<u32, NoError> = TryInto::<u32>::try_into('z');
    assert_eq!(code, Ok(122));
}

#[test]
fn a_narrow_type_overflows_on_a_large_code_point() {
    assert_eq!(<u8 as TryFrom<char>>::try_from('a'), Ok(97));
    assert_eq!(<u8 as TryFrom<char>>::try_from('\u{FF}'), Ok(255));
    assert_eq!(<u8 as TryFrom<char>>::try_from('\u{100}'), Err(Overflow));
    assert_eq!(<i8 as TryFrom<char>>::try_from('\u{7F}'), Ok(127));
    assert_eq!(<i8 as TryFrom<char>>::try_from('\u{80}'), Err(Overflow));
    assert_eq!(<u16 as TryFrom<char>>::try_from('\u{FFFF}'), Ok(0xFFFF));
    assert_eq!(<u16 as TryFrom<char>>::try_from('\u{10000}'), Err(Overflow));
    assert_eq!(<i16 as TryFrom<char>>::try_from('\u{7FFF}'), Ok(0x7FFF));
    assert_eq!(<i16 as TryFrom<char>>::try_from('\u{8000}'), Err(Overflow));
}

#[test]
fn an_integer_converts_to_the_character_of_that_code_point() {
    assert_eq!(<char as TryFrom<u8>>::try_from(0x41).unwrap_ok(), 'A');
    assert_eq!(<char as TryFrom<u8>>::try_from(0xFF).unwrap_ok(), 'ÿ');
    assert_eq!(<char as TryFrom<u16>>::try_from(0x41), Ok('A'));
    assert_eq!(<char as TryFrom<u32>>::try_from(0x41), Ok('A'));
    assert_eq!(<char as TryFrom<u32>>::try_from(0x10FFFF), Ok('\u{10FFFF}'));
    assert_eq!(<char as TryFrom<u32>>::try_from(0xD7FF), Ok('\u{D7FF}'));
    assert_eq!(<char as TryFrom<u32>>::try_from(0xE000), Ok('\u{E000}'));
    assert_eq!(<char as TryFrom<i8>>::try_from(0x41), Ok('A'));
    assert_eq!(<char as TryFrom<i16>>::try_from(0x41), Ok('A'));
    assert_eq!(<char as TryFrom<i32>>::try_from(0x1F600), Ok('\u{1F600}'));
    assert_eq!(<char as TryFrom<i64>>::try_from(0x1F600), Ok('\u{1F600}'));
    assert_eq!(<char as TryFrom<u64>>::try_from(0x1F600), Ok('\u{1F600}'));
    assert_eq!(<char as TryFrom<isize>>::try_from(0x1F600), Ok('\u{1F600}'));
    assert_eq!(<char as TryFrom<usize>>::try_from(0x1F600), Ok('\u{1F600}'));
}

#[test]
fn an_integer_that_is_no_code_point_is_reported() {
    assert_eq!(<char as TryFrom<u16>>::try_from(0xD800), Err(Unrepresentable(0xD800u16)));
    assert_eq!(<char as TryFrom<u16>>::try_from(0xDFFF), Err(Unrepresentable(0xDFFFu16)));
    assert_eq!(<char as TryFrom<u32>>::try_from(0xD800), Err(Unrepresentable(0xD800u32)));
    assert_eq!(<char as TryFrom<u32>>::try_from(0xDFFF), Err(Unrepresentable(0xDFFFu32)));
    assert_eq!(<char as TryFrom<u32>>::try_from(0x110000), Err(Unrepresentable(0x110000u32)));
    assert_eq!(<char as TryFrom<u32>>::try_from(u32::MAX), Err(Unrepresentable(u32::MAX)));
    assert_eq!(<char as TryFrom<i8>>::try_from(-1), Err(Unrepresentable(-1i8)));
    assert_eq!(<char as TryFrom<i16>>::try_from(-1), Err(Unrepresentable(-1i16)));
    assert_eq!(<char as TryFrom<i32>>::try_from(-1), Err(Unrepresentable(-1i32)));
    assert_eq!(<char as TryFrom<i32>>::try_from(0xDABC), Err(Unrepresentable(0xDABCi32)));
    assert_eq!(<char as TryFrom<i64>>::try_from(1 << 40), Err(Unrepresentable(1i64 << 40)));
    assert_eq!(<char as TryFrom<i64>>::try_from(i64::MIN), Err(Unrepresentable(i64::MIN)));
    assert_eq!(<char as TryFrom<u64>>::try_from(u64::MAX), Err(Unrepresentable(u64::MAX)));
    assert_eq!(<char as TryFrom<isize>>::try_from(-5), Err(Unrepresentable(-5isize)));
    assert_eq!(<char as TryFrom<usize>>::try_from(0x110000), Err(Unrepresentable(0x110000usize)));
}

#[test]
fn characters_and_code_points_convert_back_and_forth() {
    for code in (0..0x11_0000u32).step_by(7).chain([0xD7FF, 0xD800, 0xDFFF, 0xE000, 0x10FFFF]) {
        match <char as TryFrom<u32>>::try_from(code) {
            Ok(c) => {
                assert_eq!(Some(c), std::char::from_u32(code));
                assert_eq!(<u32 as TryFrom<char>>::try_from(c).unwrap_ok(), code);
                assert_eq!(<char as TryFrom<i64>>::try_from(code as i64), Ok(c));
            }
            Err(Unrepresentable(rejected)) => {
                assert_eq!(rejected, code);
                assert_eq!(std::char::from_u32(code), None);
            }
        }
    }
}
