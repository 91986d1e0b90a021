use chordy::arith::{wrap_letters, wrap_octave};
use chordy::text::{
    char_is_digit, chars_of, digit_str, integer_to_string, natural_to_string, read_digits, read_i8,
    read_u8,
};
use chordy::{
    AddedNote, AlteredFifthType, AlteredNinthType, ChordExtension, EleventhType, Interval,
    NinthType, OmittedNote, SeventhType, SuspendedType, ThirteenthType,
};

#[test]
fn test_wrapping() {
    assert_eq!(wrap_octave(0), 0);
    assert_eq!(wrap_octave(11), 11);
    assert_eq!(wrap_octave(12), 0);
    assert_eq!(wrap_octave(-1), 11);
    assert_eq!(wrap_octave(-12), 0);
    assert_eq!(wrap_octave(-13), 11);
    assert_eq!(wrap_octave(i32::MAX), 7);
    assert_eq!(wrap_octave(i32::MIN), 4);
    assert_eq!(wrap_letters(0), 0);
    assert_eq!(wrap_letters(7), 0);
    assert_eq!(wrap_letters(-1), 6);
    assert_eq!(wrap_letters(-7), 0);
    assert_eq!(wrap_letters(20), 6);
}

#[test]
fn test_writing_numbers() {
    assert_eq!(natural_to_string(0), "0");
    assert_eq!(natural_to_string(9), "9");
    assert_eq!(natural_to_string(10), "10");
    assert_eq!(natural_to_string(1203), "1203");
    assert_eq!(natural_to_string(u32::MAX), "4294967295");
    assert_eq!(integer_to_string(0), "0");
    assert_eq!(integer_to_string(-1), "-1");
    assert_eq!(integer_to_string(-128), "-128");
    assert_eq!(integer_to_string(127), "127");
    assert_eq!(integer_to_string(i32::MAX), "2147483647");
    assert_eq!(integer_to_string(i32::MIN + 1), "-2147483647");
    for digit in 0u8..10 {
        assert_eq!(digit_str(digit), digit.to_string());
    }
}

#[test]
fn test_reading_numbers() {
    let chars = |text: &str| -> Vec<char> { text.chars().collect() };
    let u8_of = |text: &str| {
        let c = chars(text);
        read_u8(&c, 0, c.len())
    };
    let i8_of = |text: &str| {
        let c = chars(text);
        read_i8(&c, 0, c.len())
    };
    assert_eq!(u8_of("0"), Some(0));
    assert_eq!(u8_of("7"), Some(7));
    assert_eq!(u8_of("007"), Some(7));
    assert_eq!(u8_of("+7"), Some(7));
    assert_eq!(u8_of("255"), Some(255));
    assert_eq!(u8_of("256"), None);
    assert_eq!(u8_of("99999999999999999999"), None);
    assert_eq!(u8_of(""), None);
    assert_eq!(u8_of("+"), None);
    assert_eq!(u8_of("-7"), None);
    assert_eq!(u8_of("-0"), None);
    assert_eq!(u8_of("++7"), None);
    assert_eq!(u8_of("7 "), None);
    assert_eq!(u8_of(" 7"), None);
    assert_eq!(u8_of("7a"), None);
    assert_eq!(u8_of("٣"), None);
    assert_eq!(u8_of("2560"), None);
    assert_eq!(u8_of("25x"), None);
    assert_eq!(i8_of("0"), Some(0));
    assert_eq!(i8_of("-0"), Some(0));
    assert_eq!(i8_of("+0"), Some(0));
    assert_eq!(i8_of("127"), Some(127));
    assert_eq!(i8_of("+127"), Some(127));
    assert_eq!(i8_of("128"), None);
    assert_eq!(i8_of("-128"), Some(-128));
    assert_eq!(i8_of("-129"), None);
    assert_eq!(i8_of("-"), None);
    assert_eq!(i8_of("+"), None);
    assert_eq!(i8_of(""), None);
    assert_eq!(i8_of("--1"), None);
    assert_eq!(i8_of("+-1"), None);
    assert_eq!(i8_of("1-"), None);
    assert_eq!(i8_of("-0128"), Some(-128));
    // A part of a text.
    let c = chars("ab12cd");
    assert_eq!(read_u8(&c, 2, 4), Some(12));
    assert_eq!(read_u8(&c, 2, 3), Some(1));
    assert_eq!(read_u8(&c, 2, 2), None);
    assert_eq!(read_u8(&c, 1, 4), None);
    assert_eq!(read_digits(&c, 2, 4, 12), Some(12));
    assert_eq!(read_digits(&c, 2, 4, 11), None);
    assert_eq!(read_digits(&c, 2, 2, 11), Some(0));
    assert_eq!(read_digits(&c, 2, 5, 1000), None);
}

#[test]
fn test_characters() {
    assert_eq!(chars_of("C♯4"), vec!['C', '♯', '4']);
    assert_eq!(chars_of(""), Vec::<char>::new());
    assert!(char_is_digit('0'));
    assert!(char_is_digit('9'));
    assert!(!char_is_digit('a'));
    assert!(!char_is_digit('/'));
    assert!(!char_is_digit(':'));
    assert!(!char_is_digit('٣'));
}

#[test]
fn test_chord_extensions() {
    let cases = [
        (ChordExtension::Seventh(SeventhType::Dominant), vec![Interval::minor_seventh()]),
        (ChordExtension::Seventh(SeventhType::Major), vec![Interval::major_seventh()]),
        (ChordExtension::Seventh(SeventhType::Minor), vec![Interval::minor_seventh()]),
        (ChordExtension::Seventh(SeventhType::HalfDiminished), vec![Interval::minor_seventh()]),
        (ChordExtension::Seventh(SeventhType::Diminished), vec![Interval::diminished_seventh()]),
        (ChordExtension::Ninth(NinthType::Natural), vec![Interval::major_ninth()]),
        (ChordExtension::Ninth(NinthType::Flat), vec![Interval::minor_ninth()]),
        (ChordExtension::Ninth(NinthType::Sharp), vec![Interval::augmented_ninth()]),
        (ChordExtension::Eleventh(EleventhType::Natural), vec![Interval::perfect_eleventh()]),
        (ChordExtension::Eleventh(EleventhType::Sharp), vec![Interval::augmented_eleventh()]),
        (ChordExtension::Thirteenth(ThirteenthType::Natural), vec![Interval::major_thirteenth()]),
        (ChordExtension::Thirteenth(ThirteenthType::Flat), vec![Interval::minor_thirteenth()]),
        (ChordExtension::Add(AddedNote::Add2), vec![Interval::major_second()]),
        (ChordExtension::Add(AddedNote::Add4), vec![Interval::perfect_fourth()]),
        (ChordExtension::Add(AddedNote::Add6), vec![Interval::major_sixth()]),
        (ChordExtension::Add(AddedNote::AddFlat6), vec![Interval::minor_sixth()]),
        (ChordExtension::Sus(SuspendedType::Sus2), vec![Interval::major_second()]),
        (ChordExtension::Sus(SuspendedType::Sus4), vec![Interval::perfect_fourth()]),
        (ChordExtension::AlteredFifth(AlteredFifthType::Flat), vec![Interval::diminished_fifth()]),
        (ChordExtension::AlteredFifth(AlteredFifthType::Sharp), vec![Interval::augmented_fifth()]),
        (ChordExtension::AlteredNinth(AlteredNinthType::Flat), vec![Interval::minor_ninth()]),
        (ChordExtension::AlteredNinth(AlteredNinthType::Sharp), vec![Interval::augmented_ninth()]),
        (ChordExtension::Omit(OmittedNote::No3), vec![]),
        (ChordExtension::Omit(OmittedNote::No5), vec![]),
    ];
    for (extension, intervals) in cases {
        assert_eq!(extension.get_intervals(), intervals, "{:?}", extension);
    }
}
