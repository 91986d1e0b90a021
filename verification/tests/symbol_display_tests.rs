use chordy::error::ParseError;
use chordy::symbols::{
    A, B, C, D, DOUBLE_FLAT, DOUBLE_SHARP, E, F, FLAT, G, NATURAL, SHARP,
};
use chordy::{Accidental, Key, Letter, NoteName};

#[test]
fn test_note_display() {
    let note = NoteName::new(Letter::F, Accidental::Sharp);
    assert_eq!(note.to_string(), "F♯");

    let note = NoteName::new(Letter::B, Accidental::Flat);
    assert_eq!(note.to_string(), "B♭");

    let note = NoteName::new(Letter::C, Accidental::Natural);
    assert_eq!(note.to_string(), "C");
}

#[test]
fn test_accidental_display() {
    assert_eq!(Accidental::Flat.to_string(), "♭");
    assert_eq!(Accidental::DoubleSharp.to_string(), "𝄪");
}

#[test]
fn test_every_symbol() {
    assert_eq!(Accidental::DoubleFlat.to_string(), DOUBLE_FLAT);
    assert_eq!(Accidental::Flat.to_string(), FLAT);
    assert_eq!(Accidental::Natural.to_string(), NATURAL);
    assert_eq!(Accidental::Sharp.to_string(), SHARP);
    assert_eq!(Accidental::DoubleSharp.to_string(), DOUBLE_SHARP);
    assert_eq!(Accidental::Natural.symbol(), "♮");
    assert_eq!(Accidental::Sharp.symbol(), "♯");
    assert_eq!(Accidental::DoubleFlat.symbol(), "𝄫");
    let letters = [
        (Letter::C, C),
        (Letter::D, D),
        (Letter::E, E),
        (Letter::F, F),
        (Letter::G, G),
        (Letter::A, A),
        (Letter::B, B),
    ];
    for (letter, symbol) in letters {
        assert_eq!(letter.to_string(), symbol);
        assert_eq!(letter.symbol(), symbol);
    }
    assert_eq!(NoteName::new(Letter::G, Accidental::DoubleFlat).to_string(), "G𝄫");
    assert_eq!(NoteName::new(Letter::E, Accidental::DoubleSharp).to_string(), "E𝄪");
}

#[test]
fn test_letters() {
    assert_eq!(
        Letter::all(),
        [Letter::C, Letter::D, Letter::E, Letter::F, Letter::G, Letter::A, Letter::B]
    );
    let midi = [0, 2, 4, 5, 7, 9, 11];
    let fifths = [0, 2, 4, -1, 1, 3, 5];
    for (index, letter) in Letter::all().into_iter().enumerate() {
        assert_eq!(letter.index(), index as i8);
        assert_eq!(Letter::from_index(index as i8), letter);
        assert_eq!(letter.base_midi_number(), midi[index]);
        assert_eq!(letter.natural_fifths(), fifths[index]);
        assert_eq!(letter.next().index(), (index as i8 + 1) % 7);
        assert_eq!(letter.prev().index(), (index as i8 + 6) % 7);
        assert_eq!(letter.next().prev(), letter);
    }
    assert_eq!(Letter::B.next(), Letter::C);
    assert_eq!(Letter::C.prev(), Letter::B);
}

#[test]
fn test_letter_from_char_and_str() {
    let letters = "CDEFGAB";
    for (index, c) in letters.chars().enumerate() {
        let letter = Letter::from_index(index as i8);
        assert_eq!(Letter::from_char(c), Ok(letter));
        assert_eq!(Letter::from_char(c.to_ascii_lowercase()), Ok(letter));
        assert_eq!(Letter::from_str(&c.to_string()), Ok(letter));
        assert_eq!(c.to_string().parse::<Letter>(), Ok(letter));
    }
    assert_eq!(Letter::from_char('H'), Err("Invalid letter"));
    assert_eq!(Letter::from_char('#'), Err("Invalid letter"));
    assert_eq!(Letter::from_char('é'), Err("Invalid letter"));
    let no_name = |text: &str| Err(ParseError::InvalidNoteName(text.to_string()));
    assert_eq!(Letter::from_str(""), no_name(""));
    assert_eq!(Letter::from_str("H"), no_name("H"));
    assert_eq!(Letter::from_str("CC"), no_name("CC"));
    assert_eq!(Letter::from_str("é"), no_name("é"));
}

#[test]
fn test_accidentals() {
    assert_eq!(
        Accidental::all(),
        [
            Accidental::DoubleFlat,
            Accidental::Flat,
            Accidental::Natural,
            Accidental::Sharp,
            Accidental::DoubleSharp,
        ]
    );
    let penalties = [3, 1, 0, 1, 3];
    for (index, accidental) in Accidental::all().into_iter().enumerate() {
        let offset = index as i8 - 2;
        assert_eq!(accidental.semitone_offset(), offset);
        assert_eq!(Accidental::from_semitone_offset(offset), accidental);
        assert_eq!(accidental.penalty(), penalties[index]);
        assert_eq!(accidental.is_sharp(), offset > 0);
        assert_eq!(accidental.is_flat(), offset < 0);
    }
}

#[test]
fn test_accidental_from_str() {
    let cases = [
        ("b", Accidental::Flat),
        ("♭", Accidental::Flat),
        ("#", Accidental::Sharp),
        ("♯", Accidental::Sharp),
        ("n", Accidental::Natural),
        ("♮", Accidental::Natural),
        ("♭♭", Accidental::DoubleFlat),
        ("bb", Accidental::DoubleFlat),
        ("𝄫", Accidental::DoubleFlat),
        ("♯♯", Accidental::DoubleSharp),
        ("##", Accidental::DoubleSharp),
        ("𝄪", Accidental::DoubleSharp),
    ];
    for (text, accidental) in cases {
        assert_eq!(Accidental::from_str(text), Ok(accidental));
        assert_eq!(text.parse::<Accidental>(), Ok(accidental));
    }
    for text in ["", "x", "nn", "b#", "#b", "b♭", "♭b", "#♯", "bbb", "###", "𝄫𝄫", "B", " b"] {
        assert_eq!(
            Accidental::from_str(text),
            Err(ParseError::InvalidAccidental(text.to_string())),
            "{}",
            text
        );
    }
}

#[test]
fn test_key_accidentals() {
    let name = |letter, accidental| NoteName::new(letter, accidental);
    assert_eq!(Key::Major(name(Letter::C, Accidental::Natural)).accidentals(), 0);
    assert_eq!(Key::Major(name(Letter::G, Accidental::Natural)).accidentals(), 1);
    assert_eq!(Key::Major(name(Letter::F, Accidental::Natural)).accidentals(), -1);
    assert_eq!(Key::Major(name(Letter::E, Accidental::Flat)).accidentals(), -3);
    assert_eq!(Key::Major(name(Letter::F, Accidental::Sharp)).accidentals(), 6);
    assert_eq!(Key::Minor(name(Letter::A, Accidental::Natural)).accidentals(), 3);
}
