use chordy::{is_valid_note, Accidental, Letter, NoteName, Pitch};

fn pitch(text: &str) -> Pitch {
    text.parse::<Pitch>().unwrap()
}

fn note(text: &str) -> NoteName {
    text.parse::<NoteName>().unwrap()
}

#[test]
fn test_pitch_macro_basic() {
    let p = pitch("C4");
    assert_eq!(p, Pitch::new(Letter::C, Accidental::Natural, 4));
}

#[test]
fn test_pitch_macro_accidentals() {
    let p = pitch("A#3");
    assert_eq!(p, Pitch::new(Letter::A, Accidental::Sharp, 3));

    let p = pitch("Bb4");
    assert_eq!(p, Pitch::new(Letter::B, Accidental::Flat, 4));
}

#[test]
fn test_pitch_macro_unicode_accidentals() {
    let p = pitch("G♯4");
    assert_eq!(p, Pitch::new(Letter::G, Accidental::Sharp, 4));

    let p = pitch("E♭7");
    assert_eq!(p, Pitch::new(Letter::E, Accidental::Flat, 7));
}

#[test]
fn test_pitch_macro_double_accidentals() {
    let p = pitch("A##2");
    assert_eq!(p, Pitch::new(Letter::A, Accidental::DoubleSharp, 2));

    let p = pitch("Bbb5");
    assert_eq!(p, Pitch::new(Letter::B, Accidental::DoubleFlat, 5));
}

#[test]
fn test_pitch_macro_double_unicode_accidentals() {
    let p = pitch("C♯♯4");
    assert_eq!(p, Pitch::new(Letter::C, Accidental::DoubleSharp, 4));

    let p = pitch("D♭♭7");
    assert_eq!(p, Pitch::new(Letter::D, Accidental::DoubleFlat, 7));
}

#[test]
fn test_pitch_macro_unicode_double_accidentals() {
    let p = pitch("B𝄪4");
    assert_eq!(p, Pitch::new(Letter::B, Accidental::DoubleSharp, 4));

    let p = pitch("F𝄫7");
    assert_eq!(p, Pitch::new(Letter::F, Accidental::DoubleFlat, 7));
}

#[test]
fn test_pitch_macro_negative_octave() {
    let p = pitch("C-2");
    assert_eq!(p, Pitch::new(Letter::C, Accidental::Natural, -2));
}

#[test]
#[should_panic]
fn test_pitch_macro_invalid() {
    let _ = pitch("H4"); // 'H' is not a valid note
}

#[test]
fn test_note_macro_basic() {
    assert_eq!(note("C"), NoteName::new(Letter::C, Accidental::Natural));
    assert_eq!(note("D"), NoteName::new(Letter::D, Accidental::Natural));
    assert_eq!(note("A"), NoteName::new(Letter::A, Accidental::Natural));
    assert_eq!(note("g"), NoteName::new(Letter::G, Accidental::Natural));
}

#[test]
fn test_note_macro_accidentals() {
    assert_eq!(note("F#"), NoteName::new(Letter::F, Accidental::Sharp));
    assert_eq!(note("Ab"), NoteName::new(Letter::A, Accidental::Flat));
}

#[test]
fn test_note_macro_unicode_accidentals() {
    assert_eq!(note("C♯"), NoteName::new(Letter::C, Accidental::Sharp));
    assert_eq!(note("D♭"), NoteName::new(Letter::D, Accidental::Flat));
}

#[test]
fn test_note_macro_double_accidentals() {
    assert_eq!(note("G##"), NoteName::new(Letter::G, Accidental::DoubleSharp));
    assert_eq!(note("Ebb"), NoteName::new(Letter::E, Accidental::DoubleFlat));
}

#[test]
fn test_note_macro_double_unicode_accidentals() {
    assert_eq!(note("C♯♯"), NoteName::new(Letter::C, Accidental::DoubleSharp));
    assert_eq!(note("D♭♭"), NoteName::new(Letter::D, Accidental::DoubleFlat));
}

#[test]
fn test_note_macro_unicode_double_accidentals() {
    assert_eq!(note("C𝄪"), NoteName::new(Letter::C, Accidental::DoubleSharp));
    assert_eq!(note("D𝄫"), NoteName::new(Letter::D, Accidental::DoubleFlat));
}

#[test]
fn test_shape_of_a_note() {
    assert!(is_valid_note("C", false));
    assert!(is_valid_note("c", false));
    assert!(is_valid_note("G#", false));
    assert!(is_valid_note("Gb", false));
    assert!(is_valid_note("Gn", false));
    assert!(is_valid_note("G##", false));
    assert!(is_valid_note("Gbb", false));
    assert!(is_valid_note("bb", false));
    assert!(is_valid_note("bbb", false));
    assert!(!is_valid_note("", false));
    assert!(!is_valid_note("H", false));
    assert!(!is_valid_note("h#", false));
    assert!(!is_valid_note("#", false));
    assert!(!is_valid_note("4", false));
    assert!(!is_valid_note("Gx", false));
    assert!(!is_valid_note("G#b", false));
    assert!(!is_valid_note("Gb#", false));
    assert!(!is_valid_note("Gnn", false));
    assert!(!is_valid_note("G###", false));
    assert!(!is_valid_note("Gbbb", false));
    assert!(!is_valid_note("G#x", false));
    assert!(!is_valid_note("G ", false));
    // What follows the first digit or minus sign is not looked at.
    assert!(is_valid_note("C4", false));
    assert!(is_valid_note("C#4", false));
    assert!(is_valid_note("C#-x", false));
    assert!(is_valid_note("C4#", false));
    assert!(!is_valid_note("Cx4", false));
    // The musical signs are not known here.
    assert!(!is_valid_note("C♯", false));
    assert!(!is_valid_note("C♭", false));
    assert!(!is_valid_note("C𝄪", false));
}

#[test]
fn test_shape_of_a_pitch() {
    assert!(is_valid_note("C#4", true));
    assert!(is_valid_note("Cn4", true));
    assert!(is_valid_note("Cb-2", true));
    assert!(is_valid_note("C##10", true));
    assert!(is_valid_note("Cbb-128", true));
    assert!(is_valid_note("C#999", true));
    // Without an octave the accidental is enough.
    assert!(is_valid_note("C#", true));
    // Without an accidental nothing is.
    assert!(!is_valid_note("C4", true));
    assert!(!is_valid_note("C", true));
    assert!(!is_valid_note("C-2", true));
    assert!(!is_valid_note("C#-", true));
    assert!(!is_valid_note("C#4x", true));
    assert!(!is_valid_note("C#4-", true));
    assert!(!is_valid_note("C#--4", true));
    assert!(!is_valid_note("C#4.5", true));
    assert!(!is_valid_note("H#4", true));
    assert!(!is_valid_note("", true));
}
