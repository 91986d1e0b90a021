use chordy::error::ParseError;
use chordy::transposition::chromatic::{expected_letter, flat_vs_sharp_bias, interval_penalty};
use chordy::transposition::{ChromaticTransposer, Transposer};
use chordy::{Accidental, Letter, NoteName, Pitch};

fn pitch(text: &str) -> Pitch {
    text.parse::<Pitch>().unwrap()
}

#[test]
fn test_pitch_creation() {
    let pitch = Pitch::new(Letter::C, Accidental::Natural, 4);
    assert_eq!(pitch.to_string(), "C4");

    let pitch = Pitch::new(Letter::A, Accidental::Sharp, 3);
    assert_eq!(pitch.to_string(), "A♯3");

    let pitch = Pitch::new(Letter::B, Accidental::Flat, 5);
    assert_eq!(pitch.to_string(), "B♭5");
}

#[test]
fn test_pitch_from_str() {
    // Test basic cases
    assert_eq!("C4".parse(), Ok(Pitch::new(Letter::C, Accidental::Natural, 4)));
    assert_eq!("D5".parse(), Ok(Pitch::new(Letter::D, Accidental::Natural, 5)));

    // Test negative octaves
    assert_eq!("C-2".parse(), Ok(Pitch::new(Letter::C, Accidental::Natural, -2)));
    assert_eq!("F#-1".parse(), Ok(Pitch::new(Letter::F, Accidental::Sharp, -1)));

    // Test accidentals
    assert_eq!("Ab3".parse(), Ok(Pitch::new(Letter::A, Accidental::Flat, 3)));
    assert_eq!("G#4".parse(), Ok(Pitch::new(Letter::G, Accidental::Sharp, 4)));
    assert_eq!("Bbb5".parse(), Ok(Pitch::new(Letter::B, Accidental::DoubleFlat, 5)));

    // Test invalid cases
    assert!("".parse::<Pitch>().is_err());
    assert!("C".parse::<Pitch>().is_err());
    assert!("4".parse::<Pitch>().is_err());
    assert!("H4".parse::<Pitch>().is_err()); // Invalid letter
    assert!("C#".parse::<Pitch>().is_err()); // Missing octave
    assert!("C4.5".parse::<Pitch>().is_err()); // Invalid octave
}

#[test]
fn test_pitch_transpose() {
    // Basic single semitone transpositions
    assert_eq!(pitch("C4").transpose(1), pitch("C#4")); // C→C#
    assert_eq!(pitch("C#4").transpose(-1), pitch("C4")); // C#→C
    assert_eq!(pitch("D4").transpose(1), pitch("D#4")); // D→D#
    assert_eq!(pitch("Eb4").transpose(-1), pitch("D4")); // Eb→D

    // Whole step transpositions
    assert_eq!(pitch("C4").transpose(2), pitch("D4")); // C→D
    assert_eq!(pitch("D4").transpose(-2), pitch("C4")); // D→C

    // Enharmonic spelling special cases
    assert_eq!(pitch("B4").transpose(1), pitch("C5")); // B→C not B#
    assert_eq!(pitch("C4").transpose(-1), pitch("B3")); // C→B not Cb
    assert_eq!(pitch("E4").transpose(1), pitch("F4")); // E→F not E#
    assert_eq!(pitch("F4").transpose(-1), pitch("E4")); // F→E not Fb

    // Larger intervals
    assert_eq!(pitch("C4").transpose(12), pitch("C5")); // Octave up
    assert_eq!(pitch("C5").transpose(-12), pitch("C4")); // Octave down
    assert_eq!(pitch("G4").transpose(7), pitch("D5")); // Perfect 5th up
    assert_eq!(pitch("D5").transpose(-7), pitch("G4")); // Perfect 5th down

    // Negative octaves
    assert_eq!(pitch("C-2").transpose(12), pitch("C-1"));
    assert_eq!(pitch("C-1").transpose(-12), pitch("C-2"));

    // Double accidentals
    assert_eq!(pitch("Cbb4").transpose(2), pitch("Dbb4"));
    assert_eq!(pitch("D##4").transpose(-2), pitch("C##4"));

    // Chromatic scale tests
    let chromatic_up = [
        pitch("C4"),
        pitch("C#4"),
        pitch("D4"),
        pitch("D#4"),
        pitch("E4"),
        pitch("F4"),
        pitch("F#4"),
        pitch("G4"),
        pitch("G#4"),
        pitch("A4"),
        pitch("A#4"),
        pitch("B4"),
        pitch("C5"),
    ];

    let chromatic_down = [
        pitch("C5"),
        pitch("B4"),
        pitch("Bb4"),
        pitch("A4"),
        pitch("Ab4"),
        pitch("G4"),
        pitch("Gb4"),
        pitch("F4"),
        pitch("E4"),
        pitch("Eb4"),
        pitch("D4"),
        pitch("Db4"),
        pitch("C4"),
    ];

    // Test ascending chromatic
    let mut current = pitch("C4");
    for (i, expected) in chromatic_up.iter().enumerate() {
        assert_eq!(
            current,
            *expected,
            "{} is expected to be {}",
            current.to_string(),
            expected.to_string()
        );
        current = pitch("C4").transpose(i as i8 + 1);
    }

    // Test descending chromatic
    let mut current = pitch("C5");
    for (i, expected) in chromatic_down.iter().enumerate() {
        assert_eq!(
            current,
            *expected,
            "{} is expected to be {}",
            current.to_string(),
            expected.to_string()
        );
        current = pitch("C5").transpose(-(i as i8 + 1));
    }

    // Extreme transpositions
    assert_eq!(pitch("C4").transpose(24), pitch("C6")); // 2 octaves up
    assert_eq!(pitch("C4").transpose(-24), pitch("C2")); // 2 octaves down

    // Edge cases with accidentals
    assert_eq!(pitch("F#4").transpose(1), pitch("G4")); // F#→G not F##
    assert_eq!(pitch("Gb4").transpose(-1), pitch("F4")); // Gb→F not Gbb
    assert_eq!(pitch("B#3").transpose(1), pitch("C#4")); // B#→C#
    assert_eq!(pitch("Cb4").transpose(-1), pitch("Bb3")); // Cb→Bb
                                                          //
    assert_eq!(pitch("C4").transpose(0), pitch("C4")); // No change
                                                        //
    assert_eq!(pitch("G#4").transpose(-2), pitch("F#4")); // C→C#
}

#[test]
fn test_midi_number() {
    assert_eq!(Pitch::new(Letter::C, Accidental::Natural, 3).midi_number(), 60);
    assert_eq!(Pitch::new(Letter::G, Accidental::Sharp, 5).midi_number(), 92);
    assert_eq!(Pitch::new(Letter::C, Accidental::Natural, -2).midi_number(), 0);
    assert_eq!(Pitch::new(Letter::C, Accidental::Flat, -2).midi_number(), -1);
    assert_eq!(Pitch::new(Letter::G, Accidental::Natural, 8).midi_number(), 127);
    assert_eq!(Pitch::new(Letter::G, Accidental::Natural, 8).absolute_value(), 127);
    assert_eq!(Pitch::new(Letter::B, Accidental::DoubleSharp, 100).absolute_value(), 1237);
    assert_eq!(Pitch::new(Letter::C, Accidental::DoubleFlat, -128).absolute_value(), -1514);
}

#[test]
fn test_pitch_enharmonic() {
    let c4 = Pitch::new(Letter::C, Accidental::Natural, 4);
    let b_sharp3 = Pitch::new(Letter::B, Accidental::Sharp, 3);
    assert!(c4.is_enharmonic_with(&b_sharp3));
    assert!(b_sharp3.is_enharmonic_with(&c4));
    assert!(c4.is_enharmonic_with(&c4));

    let a_flat4 = Pitch::new(Letter::A, Accidental::Flat, 4);
    let g_sharp4 = Pitch::new(Letter::G, Accidental::Sharp, 4);
    assert!(a_flat4.is_enharmonic_with(&g_sharp4));

    let g_sharp5 = Pitch::new(Letter::G, Accidental::Sharp, 5);
    assert!(!a_flat4.is_enharmonic_with(&g_sharp5));
    assert_eq!(
        a_flat4.is_enharmonic_with(&g_sharp5),
        g_sharp5.is_enharmonic_with(&a_flat4)
    );
}

#[test]
fn test_zero_offset_returns_the_pitch() {
    for letter in Letter::all() {
        for accidental in Accidental::all() {
            for octave in [-128i8, -3, 0, 4, 127] {
                let p = Pitch::new(letter, accidental, octave);
                assert_eq!(p.transpose(0), p);
                assert_eq!(ChromaticTransposer::select(p, 0), Some(p));
                assert_eq!(p + 0, p);
            }
        }
    }
    // Also for a name that is not valid.
    let odd = Pitch { name: NoteName::from_fifths(100), octave: 9 };
    assert_eq!(odd.transpose(0), odd);
}

#[test]
fn test_conventional_spellings() {
    assert_eq!(pitch("C4").transpose(1), pitch("C#4"));
    assert_eq!(pitch("B4").transpose(1), pitch("C5"));
    assert_eq!(pitch("C4").transpose(-1), pitch("B3"));
    assert_eq!(pitch("F#4").transpose(1), pitch("G4"));
    assert_eq!(pitch("G4").transpose(12), pitch("G5"));
    assert_eq!(pitch("G4").transpose(7), pitch("D5"));
    assert_eq!(pitch("Eb4").transpose(-1), pitch("D4"));
    assert_eq!(pitch("C4").transpose(-2), pitch("Bb3"));
    // The same in every octave.
    for octave in -2i8..=7 {
        let at = |letter, accidental, up: i8| Pitch::new(letter, accidental, octave + up);
        let natural = Accidental::Natural;
        assert_eq!(at(Letter::C, natural, 0).transpose(1), at(Letter::C, Accidental::Sharp, 0));
        assert_eq!(at(Letter::B, natural, 0).transpose(1), at(Letter::C, natural, 1));
        assert_eq!(at(Letter::C, natural, 1).transpose(-1), at(Letter::B, natural, 0));
        assert_eq!(at(Letter::F, Accidental::Sharp, 0).transpose(1), at(Letter::G, natural, 0));
        assert_eq!(at(Letter::G, natural, 0).transpose(12), at(Letter::G, natural, 1));
        assert_eq!(at(Letter::G, natural, 0).transpose(7), at(Letter::D, natural, 1));
        assert_eq!(at(Letter::E, Accidental::Flat, 0).transpose(-1), at(Letter::D, natural, 0));
        assert_eq!(at(Letter::C, natural, 1).transpose(-2), at(Letter::B, Accidental::Flat, 0));
    }
}

#[test]
fn test_what_is_written_is_read_back() {
    for letter in Letter::all() {
        for accidental in Accidental::all() {
            let name = NoteName::new(letter, accidental);
            assert_eq!(name.to_string().parse::<NoteName>(), Ok(name));
            for octave in [-128i8, -10, -1, 0, 4, 9, 10, 99, 100, 127] {
                let written = Pitch::new(letter, accidental, octave);
                assert_eq!(written.to_string().parse::<Pitch>(), Ok(written));
            }
        }
    }
}

#[test]
fn test_candidate_against_the_direction_changes_nothing() {
    // From E down three semitones, C sharp pays least but has a sharp on
    // the way down; D flat is the best of the others.
    assert_eq!(pitch("E4").transpose(-3), pitch("Db4"));
    assert_eq!(ChromaticTransposer::select(pitch("E4"), -3), Some(pitch("Db4")));
    assert_eq!(pitch("D4").transpose(-1), pitch("Db4"));
    assert_eq!(pitch("G4").transpose(-1), pitch("Gb4"));
    assert_eq!(pitch("A4").transpose(-1), pitch("Ab4"));
    assert_eq!(pitch("B4").transpose(-1), pitch("Bb4"));
    assert_eq!(pitch("E4").transpose(-1), pitch("Fbb4"));
    assert_eq!(pitch("A4").transpose(-3), pitch("Gb4"));
    assert_eq!(pitch("B4").transpose(-3), pitch("Ab4"));
    assert_eq!(pitch("B4").transpose(-5), pitch("Gb4"));
    assert_eq!(pitch("D4").transpose(-8), pitch("Gb3"));
    assert_eq!(pitch("E4").transpose(-8), pitch("Ab3"));
    assert_eq!(pitch("A4").transpose(-8), pitch("Db4"));
    assert_eq!(pitch("B4").transpose(-8), pitch("Eb4"));
    assert_eq!(pitch("E4").transpose(-10), pitch("Gb3"));
    assert_eq!(pitch("B4").transpose(-10), pitch("Db4"));
    // A sharp source may keep its sharp on the way down.
    assert_eq!(pitch("D#4").transpose(-2), pitch("C#4"));
    assert_eq!(pitch("D4").transpose(1), pitch("D#4"));
}

#[test]
fn test_every_move_has_a_spelling() {
    let mut moves = 0;
    for letter in Letter::all() {
        for accidental in Accidental::all() {
            for octave in -13i8..=9 {
                let source = Pitch::new(letter, accidental, octave);
                let from = source.absolute_value();
                if !(-128..=127).contains(&from) {
                    continue;
                }
                for offset in -128i8..=127 {
                    let target = from + offset as i32;
                    if offset == 0 || !(-128..=127).contains(&target) {
                        continue;
                    }
                    let found = ChromaticTransposer::select(source, offset);
                    assert!(found.is_some(), "{} {}", source.to_string(), offset);
                    let found = found.unwrap();
                    assert_eq!(found, source.transpose(offset));
                    assert_eq!(found.absolute_value(), target);
                    assert!((-15..=19).contains(&found.name.fifths()));
                    let to = found.name.accidental();
                    if offset > 0 && !accidental.is_flat() {
                        assert!(!to.is_flat(), "{} {}", source.to_string(), offset);
                    }
                    if offset < 0 && !accidental.is_sharp() {
                        assert!(!to.is_sharp(), "{} {}", source.to_string(), offset);
                    }
                    moves += 1;
                }
            }
        }
    }
    assert!(moves > 100_000);
}

#[test]
fn test_transposed_pitch_sounds_the_target() {
    for letter in Letter::all() {
        for accidental in Accidental::all() {
            let source = Pitch::new(letter, accidental, 3);
            for offset in -40i8..=40 {
                let found = source.transpose(offset);
                assert_eq!(found.absolute_value(), source.absolute_value() + offset as i32);
                assert!((-15..=19).contains(&found.name.fifths()));
            }
        }
    }
}

#[test]
fn test_pitches_numbered_from_0_to_108() {
    for letter in Letter::all() {
        for accidental in Accidental::all() {
            for octave in -2i8..=7 {
                let source = Pitch::new(letter, accidental, octave);
                let from = source.absolute_value();
                if !(0..=108).contains(&from) {
                    continue;
                }
                for offset in -108i8..=108 {
                    let target = from + offset as i32;
                    if !(0..=108).contains(&target) {
                        continue;
                    }
                    let found = ChromaticTransposer::transpose(source, offset);
                    assert_eq!(found.midi_number() as i32, target);
                }
            }
        }
    }
}

#[test]
fn test_transpose_with_and_operators() {
    let c4 = pitch("C4");
    assert_eq!(c4.transpose_with::<ChromaticTransposer>(7), pitch("G4"));
    assert_eq!(c4 + 7, pitch("G4"));
    let mut p = c4;
    p.add_assign(-12);
    assert_eq!(p, pitch("C3"));
    assert_eq!(ChromaticTransposer::name(), "ChromaticTransposer");
    assert_eq!(ChromaticTransposer::transpose(c4, 3), pitch("D#4"));
    assert_eq!(ChromaticTransposer::transpose(c4, -9), pitch("Eb3"));
}

#[test]
fn test_suspicious_spellings() {
    assert!(pitch("B#3").is_suspicious_spelling());
    assert!(pitch("E#3").is_suspicious_spelling());
    assert!(pitch("Cb3").is_suspicious_spelling());
    assert!(pitch("Fb3").is_suspicious_spelling());
    assert!(!pitch("C3").is_suspicious_spelling());
    assert!(!pitch("F#3").is_suspicious_spelling());
    assert!(!pitch("Bb3").is_suspicious_spelling());
    assert!(!pitch("B##3").is_suspicious_spelling());
}

#[test]
fn test_interval_penalty_values() {
    let c4 = pitch("C4");
    assert_eq!(interval_penalty(&c4, &c4), 0);
    assert_eq!(interval_penalty(&c4, &pitch("Db4")), 0); // minor second
    assert_eq!(interval_penalty(&c4, &pitch("D4")), 0); // major second
    assert_eq!(interval_penalty(&c4, &pitch("C#4")), 2); // augmented unison
    assert_eq!(interval_penalty(&c4, &pitch("D#4")), 4); // augmented second
    assert_eq!(interval_penalty(&c4, &pitch("F#4")), 1); // tritone
    assert_eq!(interval_penalty(&c4, &pitch("Gb4")), 1); // tritone
    assert_eq!(interval_penalty(&c4, &pitch("E##4")), 1); // six semitones, odd letter
    assert_eq!(interval_penalty(&c4, &pitch("G4")), 0); // perfect fifth
    assert_eq!(interval_penalty(&c4, &pitch("C5")), 0); // octave
    assert_eq!(interval_penalty(&c4, &pitch("B3")), 0); // minor second down
    assert_eq!(interval_penalty(&c4, &pitch("Cb4")), 2); // a semitone down on C
    assert_eq!(interval_penalty(&c4, &pitch("A3")), 0); // minor third down
    assert_eq!(interval_penalty(&c4, &pitch("G3")), 0); // perfect fourth down
    assert_eq!(interval_penalty(&c4, &pitch("F3")), 0); // perfect fifth down
    assert_eq!(interval_penalty(&c4, &pitch("C3")), 0); // octave down
    assert_eq!(interval_penalty(&c4, &pitch("C6")), 4); // two octaves
    assert_eq!(interval_penalty(&c4, &pitch("E#4")), 4); // augmented third
}

#[test]
fn test_expected_letter_values() {
    assert_eq!(expected_letter(Letter::C, 0), Letter::C);
    assert_eq!(expected_letter(Letter::C, 1), Letter::D);
    assert_eq!(expected_letter(Letter::C, 2), Letter::D);
    assert_eq!(expected_letter(Letter::C, 3), Letter::E);
    assert_eq!(expected_letter(Letter::C, 4), Letter::E);
    assert_eq!(expected_letter(Letter::C, 5), Letter::F);
    assert_eq!(expected_letter(Letter::C, 6), Letter::G);
    assert_eq!(expected_letter(Letter::C, 7), Letter::G);
    assert_eq!(expected_letter(Letter::C, 8), Letter::A);
    assert_eq!(expected_letter(Letter::C, 9), Letter::A);
    assert_eq!(expected_letter(Letter::C, 10), Letter::B);
    assert_eq!(expected_letter(Letter::C, 11), Letter::B);
    assert_eq!(expected_letter(Letter::C, 12), Letter::C);
    assert_eq!(expected_letter(Letter::C, 127), Letter::C);
    assert_eq!(expected_letter(Letter::C, -1), Letter::B);
    assert_eq!(expected_letter(Letter::C, -5), Letter::G);
    assert_eq!(expected_letter(Letter::A, -11), Letter::B);
    assert_eq!(expected_letter(Letter::A, -128), Letter::A);
    assert_eq!(expected_letter(Letter::B, 1), Letter::C);
}

#[test]
fn test_flat_vs_sharp_bias_values() {
    assert_eq!(flat_vs_sharp_bias(Accidental::Flat, -1), 0);
    assert_eq!(flat_vs_sharp_bias(Accidental::DoubleFlat, -1), 0);
    assert_eq!(flat_vs_sharp_bias(Accidental::Sharp, -1), 2);
    assert_eq!(flat_vs_sharp_bias(Accidental::Sharp, 1), 0);
    assert_eq!(flat_vs_sharp_bias(Accidental::DoubleSharp, 5), 0);
    assert_eq!(flat_vs_sharp_bias(Accidental::Flat, 1), 2);
    assert_eq!(flat_vs_sharp_bias(Accidental::Natural, 1), 0);
    assert_eq!(flat_vs_sharp_bias(Accidental::Natural, -1), 0);
    assert_eq!(flat_vs_sharp_bias(Accidental::Natural, 0), 0);
    assert_eq!(flat_vs_sharp_bias(Accidental::Flat, 0), 2);
    assert_eq!(flat_vs_sharp_bias(Accidental::Sharp, 0), 2);
}

/// Each line: the source, the offset in semitones, and the spelling that the
/// search picks.
const SPELLINGS: &[&str] = &[
    "Cbb4 -13 A2",
    "Cbb4 -12 Cbb3",
    "Cbb4 -11 B2",
    "Cbb4 -10 Dbb3",
    "Cbb4 -9 Db3",
    "Cbb4 -8 Ebb3",
    "Cbb4 -7 Fbb3",
    "Cbb4 -6 E3",
    "Cbb4 -5 Gbb3",
    "Cbb4 -4 Gb3",
    "Cbb4 -3 Abb3",
    "Cbb4 -2 Ab3",
    "Cbb4 -1 Bbb3",
    "Cbb4 0 Cbb4",
    "Cbb4 1 B3",
    "Cbb4 2 Dbb4",
    "Cbb4 3 Db4",
    "Cbb4 4 Ebb4",
    "Cbb4 5 Fbb4",
    "Cbb4 6 E4",
    "Cbb4 7 Gbb4",
    "Cbb4 8 F#4",
    "Cbb4 9 Abb4",
    "Cbb4 10 G#4",
    "Cbb4 11 Bbb4",
    "Cbb4 12 Cbb5",
    "Cbb4 13 B4",
    "Cb4 -13 Bb2",
    "Cb4 -12 Cb3",
    "Cb4 -11 Dbb3",
    "Cb4 -10 Db3",
    "Cb4 -9 Ebb3",
    "Cb4 -8 Eb3",
    "Cb4 -7 Fb3",
    "Cb4 -6 F3",
    "Cb4 -5 Gb3",
    "Cb4 -4 Abb3",
    "Cb4 -3 Ab3",
    "Cb4 -2 A3",
    "Cb4 -1 Bb3",
    "Cb4 0 Cb4",
    "Cb4 1 Dbb4",
    "Cb4 2 Db4",
    "Cb4 3 Ebb4",
    "Cb4 4 Eb4",
    "Cb4 5 Fb4",
    "Cb4 6 F4",
    "Cb4 7 Gb4",
    "Cb4 8 Abb4",
    "Cb4 9 Ab4",
    "Cb4 10 A4",
    "Cb4 11 Bb4",
    "Cb4 12 Cb5",
    "Cb4 13 C5",
    "C4 -13 B2",
    "C4 -12 C3",
    "C4 -11 Db3",
    "C4 -10 D3",
    "C4 -9 Eb3",
    "C4 -8 E3",
    "C4 -7 F3",
    "C4 -6 Gb3",
    "C4 -5 G3",
    "C4 -4 Ab3",
    "C4 -3 A3",
    "C4 -2 Bb3",
    "C4 -1 B3",
    "C4 0 C4",
    "C4 1 C#4",
    "C4 2 D4",
    "C4 3 D#4",
    "C4 4 E4",
    "C4 5 F4",
    "C4 6 F#4",
    "C4 7 G4",
    "C4 8 G#4",
    "C4 9 A4",
    "C4 10 A#4",
    "C4 11 B4",
    "C4 12 C5",
    "C4 13 C#5",
    "C#4 -13 C3",
    "C#4 -12 C#3",
    "C#4 -11 D3",
    "C#4 -10 D#3",
    "C#4 -9 E3",
    "C#4 -8 E#3",
    "C#4 -7 F#3",
    "C#4 -6 G3",
    "C#4 -5 G#3",
    "C#4 -4 A3",
    "C#4 -3 A#3",
    "C#4 -2 B3",
    "C#4 -1 C4",
    "C#4 0 C#4",
    "C#4 1 D4",
    "C#4 2 D#4",
    "C#4 3 E4",
    "C#4 4 E#4",
    "C#4 5 F#4",
    "C#4 6 G4",
    "C#4 7 G#4",
    "C#4 8 A4",
    "C#4 9 A#4",
    "C#4 10 B4",
    "C#4 11 B#4",
    "C#4 12 C#5",
    "C#4 13 D5",
    "C##4 -13 Db3",
    "C##4 -12 C##3",
    "C##4 -11 D#3",
    "C##4 -10 D##3",
    "C##4 -9 F3",
    "C##4 -8 E##3",
    "C##4 -7 F##3",
    "C##4 -6 Ab3",
    "C##4 -5 G##3",
    "C##4 -4 A#3",
    "C##4 -3 A##3",
    "C##4 -2 C4",
    "C##4 -1 B##3",
    "C##4 0 C##4",
    "C##4 1 D#4",
    "C##4 2 D##4",
    "C##4 3 E#4",
    "C##4 4 E##4",
    "C##4 5 F##4",
    "C##4 6 G#4",
    "C##4 7 G##4",
    "C##4 8 A#4",
    "C##4 9 A##4",
    "C##4 10 B#4",
    "C##4 11 B##4",
    "C##4 12 C##5",
    "C##4 13 D#5",
    "Dbb4 -13 B2",
    "Dbb4 -12 Dbb3",
    "Dbb4 -11 Db3",
    "Dbb4 -10 Ebb3",
    "Dbb4 -9 Fbb3",
    "Dbb4 -8 Fb3",
    "Dbb4 -7 Gbb3",
    "Dbb4 -6 Gb3",
    "Dbb4 -5 Abb3",
    "Dbb4 -4 Ab3",
    "Dbb4 -3 Bbb3",
    "Dbb4 -2 Cbb4",
    "Dbb4 -1 B3",
    "Dbb4 0 Dbb4",
    "Dbb4 1 B##3",
    "Dbb4 2 Ebb4",
    "Dbb4 3 Fbb4",
    "Dbb4 4 Fb4",
    "Dbb4 5 Gbb4",
    "Dbb4 6 F#4",
    "Dbb4 7 Abb4",
    "Dbb4 8 G#4",
    "Dbb4 9 Bbb4",
    "Dbb4 10 Cbb5",
    "Dbb4 11 B4",
    "Dbb4 12 Dbb5",
    "Dbb4 13 B##4",
    "Db4 -13 C3",
    "Db4 -12 Db3",
    "Db4 -11 Ebb3",
    "Db4 -10 Eb3",
    "Db4 -9 Fb3",
    "Db4 -8 F3",
    "Db4 -7 Gb3",
    "Db4 -6 G3",
    "Db4 -5 Ab3",
    "Db4 -4 Bbb3",
    "Db4 -3 Bb3",
    "Db4 -2 B3",
    "Db4 -1 C4",
    "Db4 0 Db4",
    "Db4 1 Ebb4",
    "Db4 2 Eb4",
    "Db4 3 Fb4",
    "Db4 4 F4",
    "Db4 5 Gb4",
    "Db4 6 G4",
    "Db4 7 Ab4",
    "Db4 8 Bbb4",
    "Db4 9 Bb4",
    "Db4 10 B4",
    "Db4 11 C5",
    "Db4 12 Db5",
    "Db4 13 D5",
    "D4 -13 Db3",
    "D4 -12 D3",
    "D4 -11 Eb3",
    "D4 -10 E3",
    "D4 -9 F3",
    "D4 -8 Gb3",
    "D4 -7 G3",
    "D4 -6 Ab3",
    "D4 -5 A3",
    "D4 -4 Bb3",
    "D4 -3 B3",
    "D4 -2 C4",
    "D4 -1 Db4",
    "D4 0 D4",
    "D4 1 D#4",
    "D4 2 E4",
    "D4 3 F4",
    "D4 4 F#4",
    "D4 5 G4",
    "D4 6 G#4",
    "D4 7 A4",
    "D4 8 A#4",
    "D4 9 B4",
    "D4 10 C5",
    "D4 11 C#5",
    "D4 12 D5",
    "D4 13 D#5",
    "D#4 -13 D3",
    "D#4 -12 D#3",
    "D#4 -11 E3",
    "D#4 -10 E#3",
    "D#4 -9 F#3",
    "D#4 -8 F##3",
    "D#4 -7 G#3",
    "D#4 -6 A3",
    "D#4 -5 A#3",
    "D#4 -4 B3",
    "D#4 -3 B#3",
    "D#4 -2 C#4",
    "D#4 -1 D4",
    "D#4 0 D#4",
    "D#4 1 E4",
    "D#4 2 E#4",
    "D#4 3 F#4",
    "D#4 4 F##4",
    "D#4 5 G#4",
    "D#4 6 A4",
    "D#4 7 A#4",
    "D#4 8 B4",
    "D#4 9 B#4",
    "D#4 10 C#5",
    "D#4 11 C##5",
    "D#4 12 D#5",
    "D#4 13 E5",
    "D##4 -13 Eb3",
    "D##4 -12 D##3",
    "D##4 -11 F3",
    "D##4 -10 E##3",
    "D##4 -9 F##3",
    "D##4 -8 Ab3",
    "D##4 -7 G##3",
    "D##4 -6 Bb3",
    "D##4 -5 A##3",
    "D##4 -4 B#3",
    "D##4 -3 B##3",
    "D##4 -2 C##4",
    "D##4 -1 Eb4",
    "D##4 0 D##4",
    "D##4 1 F4",
    "D##4 2 E##4",
    "D##4 3 F##4",
    "D##4 4 G#4",
    "D##4 5 G##4",
    "D##4 6 A#4",
    "D##4 7 A##4",
    "D##4 8 B#4",
    "D##4 9 B##4",
    "D##4 10 C##5",
    "D##4 11 D#5",
    "D##4 12 D##5",
    "D##4 13 F5",
    "Ebb4 -13 Db3",
    "Ebb4 -12 Ebb3",
    "Ebb4 -11 Fbb3",
    "Ebb4 -10 Fb3",
    "Ebb4 -9 Gbb3",
    "Ebb4 -8 Gb3",
    "Ebb4 -7 Abb3",
    "Ebb4 -6 Ab3",
    "Ebb4 -5 Bbb3",
    "Ebb4 -4 Cbb4",
    "Ebb4 -3 Cb4",
    "Ebb4 -2 Dbb4",
    "Ebb4 -1 Db4",
    "Ebb4 0 Ebb4",
    "Ebb4 1 Fbb4",
    "Ebb4 2 Fb4",
    "Ebb4 3 Gbb4",
    "Ebb4 4 Gb4",
    "Ebb4 5 Abb4",
    "Ebb4 6 G#4",
    "Ebb4 7 Bbb4",
    "Ebb4 8 Cbb5",
    "Ebb4 9 B4",
    "Ebb4 10 Dbb5",
    "Ebb4 11 Db5",
    "Ebb4 12 Ebb5",
    "Ebb4 13 Fbb5",
    "Eb4 -13 D3",
    "Eb4 -12 Eb3",
    "Eb4 -11 Fb3",
    "Eb4 -10 F3",
    "Eb4 -9 Gb3",
    "Eb4 -8 G3",
    "Eb4 -7 Ab3",
    "Eb4 -6 A3",
    "Eb4 -5 Bb3",
    "Eb4 -4 Cb4",
    "Eb4 -3 C4",
    "Eb4 -2 Db4",
    "Eb4 -1 D4",
    "Eb4 0 Eb4",
    "Eb4 1 Fb4",
    "Eb4 2 F4",
    "Eb4 3 Gb4",
    "Eb4 4 G4",
    "Eb4 5 Ab4",
    "Eb4 6 A4",
    "Eb4 7 Bb4",
    "Eb4 8 Cb5",
    "Eb4 9 C5",
    "Eb4 10 Db5",
    "Eb4 11 D5",
    "Eb4 12 Eb5",
    "Eb4 13 E5",
    "E4 -13 Eb3",
    "E4 -12 E3",
    "E4 -11 F3",
    "E4 -10 Gb3",
    "E4 -9 G3",
    "E4 -8 Ab3",
    "E4 -7 A3",
    "E4 -6 Bb3",
    "E4 -5 B3",
    "E4 -4 C4",
    "E4 -3 Db4",
    "E4 -2 D4",
    "E4 -1 Fbb4",
    "E4 0 E4",
    "E4 1 F4",
    "E4 2 F#4",
    "E4 3 G4",
    "E4 4 G#4",
    "E4 5 A4",
    "E4 6 A#4",
    "E4 7 B4",
    "E4 8 C5",
    "E4 9 C#5",
    "E4 10 D5",
    "E4 11 D#5",
    "E4 12 E5",
    "E4 13 F5",
    "E#4 -13 E3",
    "E#4 -12 F3",
    "E#4 -11 F#3",
    "E#4 -10 F##3",
    "E#4 -9 G#3",
    "E#4 -8 G##3",
    "E#4 -7 A#3",
    "E#4 -6 B3",
    "E#4 -5 B#3",
    "E#4 -4 C#4",
    "E#4 -3 C##4",
    "E#4 -2 D#4",
    "E#4 -1 E4",
    "E#4 0 E#4",
    "E#4 1 F#4",
    "E#4 2 F##4",
    "E#4 3 G#4",
    "E#4 4 G##4",
    "E#4 5 A#4",
    "E#4 6 B4",
    "E#4 7 B#4",
    "E#4 8 C#5",
    "E#4 9 C##5",
    "E#4 10 D#5",
    "E#4 11 D##5",
    "E#4 12 E#5",
    "E#4 13 F#5",
    "E##4 -13 F3",
    "E##4 -12 E##3",
    "E##4 -11 F##3",
    "E##4 -10 Ab3",
    "E##4 -9 G##3",
    "E##4 -8 Bb3",
    "E##4 -7 A##3",
    "E##4 -6 C4",
    "E##4 -5 B##3",
    "E##4 -4 C##4",
    "E##4 -3 Fbb4",
    "E##4 -2 D##4",
    "E##4 -1 F4",
    "E##4 0 E##4",
    "E##4 1 F##4",
    "E##4 2 G#4",
    "E##4 3 G##4",
    "E##4 4 A#4",
    "E##4 5 A##4",
    "E##4 6 C5",
    "E##4 7 B##4",
    "E##4 8 C##5",
    "E##4 9 D#5",
    "E##4 10 D##5",
    "E##4 11 F5",
    "E##4 12 E##5",
    "E##4 13 G5",
    "Fbb4 -13 D3",
    "Fbb4 -12 Fbb3",
    "Fbb4 -11 E3",
    "Fbb4 -10 Gbb3",
    "Fbb4 -9 Gb3",
    "Fbb4 -8 Abb3",
    "Fbb4 -7 Ab3",
    "Fbb4 -6 Bbb3",
    "Fbb4 -5 Cbb4",
    "Fbb4 -4 B3",
    "Fbb4 -3 Dbb4",
    "Fbb4 -2 Db4",
    "Fbb4 -1 Ebb4",
    "Fbb4 0 Fbb4",
    "Fbb4 1 E4",
    "Fbb4 2 Gbb4",
    "Fbb4 3 Gb4",
    "Fbb4 4 Abb4",
    "Fbb4 5 G#4",
    "Fbb4 6 A4",
    "Fbb4 7 Cbb5",
    "Fbb4 8 B4",
    "Fbb4 9 Dbb5",
    "Fbb4 10 C#5",
    "Fbb4 11 Ebb5",
    "Fbb4 12 Fbb5",
    "Fbb4 13 E5",
    "Fb4 -13 Eb3",
    "Fb4 -12 Fb3",
    "Fb4 -11 Gbb3",
    "Fb4 -10 Gb3",
    "Fb4 -9 Abb3",
    "Fb4 -8 Ab3",
    "Fb4 -7 Bbb3",
    "Fb4 -6 Bb3",
    "Fb4 -5 Cb4",
    "Fb4 -4 Dbb4",
    "Fb4 -3 Db4",
    "Fb4 -2 D4",
    "Fb4 -1 Eb4",
    "Fb4 0 Fb4",
    "Fb4 1 Gbb4",
    "Fb4 2 Gb4",
    "Fb4 3 Abb4",
    "Fb4 4 Ab4",
    "Fb4 5 Bbb4",
    "Fb4 6 A#4",
    "Fb4 7 Cb5",
    "Fb4 8 Dbb5",
    "Fb4 9 Db5",
    "Fb4 10 D5",
    "Fb4 11 Eb5",
    "Fb4 12 Fb5",
    "Fb4 13 F5",
    "F4 -13 E3",
    "F4 -12 F3",
    "F4 -11 Gb3",
    "F4 -10 G3",
    "F4 -9 Ab3",
    "F4 -8 A3",
    "F4 -7 Bb3",
    "F4 -6 B3",
    "F4 -5 C4",
    "F4 -4 Db4",
    "F4 -3 D4",
    "F4 -2 Eb4",
    "F4 -1 E4",
    "F4 0 F4",
    "F4 1 F#4",
    "F4 2 G4",
    "F4 3 G#4",
    "F4 4 A4",
    "F4 5 A#4",
    "F4 6 B4",
    "F4 7 C5",
    "F4 8 C#5",
    "F4 9 D5",
    "F4 10 D#5",
    "F4 11 E5",
    "F4 12 F5",
    "F4 13 F#5",
    "F#4 -13 F3",
    "F#4 -12 F#3",
    "F#4 -11 G3",
    "F#4 -10 G#3",
    "F#4 -9 A3",
    "F#4 -8 A#3",
    "F#4 -7 B3",
    "F#4 -6 C4",
    "F#4 -5 C#4",
    "F#4 -4 D4",
    "F#4 -3 D#4",
    "F#4 -2 E4",
    "F#4 -1 F4",
    "F#4 0 F#4",
    "F#4 1 G4",
    "F#4 2 G#4",
    "F#4 3 A4",
    "F#4 4 A#4",
    "F#4 5 B4",
    "F#4 6 C5",
    "F#4 7 C#5",
    "F#4 8 D5",
    "F#4 9 D#5",
    "F#4 10 E5",
    "F#4 11 E#5",
    "F#4 12 F#5",
    "F#4 13 G5",
    "F##4 -13 Gb3",
    "F##4 -12 F##3",
    "F##4 -11 G#3",
    "F##4 -10 G##3",
    "F##4 -9 A#3",
    "F##4 -8 A##3",
    "F##4 -7 B#3",
    "F##4 -6 B##3",
    "F##4 -5 C##4",
    "F##4 -4 D#4",
    "F##4 -3 D##4",
    "F##4 -2 F4",
    "F##4 -1 E##4",
    "F##4 0 F##4",
    "F##4 1 G#4",
    "F##4 2 G##4",
    "F##4 3 A#4",
    "F##4 4 A##4",
    "F##4 5 B#4",
    "F##4 6 C#5",
    "F##4 7 C##5",
    "F##4 8 D#5",
    "F##4 9 D##5",
    "F##4 10 E#5",
    "F##4 11 E##5",
    "F##4 12 F##5",
    "F##4 13 G#5",
    "Gbb4 -13 E3",
    "Gbb4 -12 Gbb3",
    "Gbb4 -11 Gb3",
    "Gbb4 -10 Abb3",
    "Gbb4 -9 Ab3",
    "Gbb4 -8 Bbb3",
    "Gbb4 -7 Cbb4",
    "Gbb4 -6 B3",
    "Gbb4 -5 Dbb4",
    "Gbb4 -4 Db4",
    "Gbb4 -3 Ebb4",
    "Gbb4 -2 Fbb4",
    "Gbb4 -1 E4",
    "Gbb4 0 Gbb4",
    "Gbb4 1 F#4",
    "Gbb4 2 Abb4",
    "Gbb4 3 Ab4",
    "Gbb4 4 Bbb4",
    "Gbb4 5 Cbb5",
    "Gbb4 6 B4",
    "Gbb4 7 Dbb5",
    "Gbb4 8 C#5",
    "Gbb4 9 Ebb5",
    "Gbb4 10 Fbb5",
    "Gbb4 11 E5",
    "Gbb4 12 Gbb5",
    "Gbb4 13 Gb5",
    "Gb4 -13 F3",
    "Gb4 -12 Gb3",
    "Gb4 -11 Abb3",
    "Gb4 -10 Ab3",
    "Gb4 -9 Bbb3",
    "Gb4 -8 Bb3",
    "Gb4 -7 Cb4",
    "Gb4 -6 C4",
    "Gb4 -5 Db4",
    "Gb4 -4 Ebb4",
    "Gb4 -3 Eb4",
    "Gb4 -2 E4",
    "Gb4 -1 F4",
    "Gb4 0 Gb4",
    "Gb4 1 Abb4",
    "Gb4 2 Ab4",
    "Gb4 3 Bbb4",
    "Gb4 4 Bb4",
    "Gb4 5 Cb5",
    "Gb4 6 C5",
    "Gb4 7 Db5",
    "Gb4 8 Ebb5",
    "Gb4 9 Eb5",
    "Gb4 10 E5",
    "Gb4 11 F5",
    "Gb4 12 Gb5",
    "Gb4 13 G5",
    "G4 -13 Gb3",
    "G4 -12 G3",
    "G4 -11 Ab3",
    "G4 -10 A3",
    "G4 -9 Bb3",
    "G4 -8 B3",
    "G4 -7 C4",
    "G4 -6 Db4",
    "G4 -5 D4",
    "G4 -4 Eb4",
    "G4 -3 E4",
    "G4 -2 F4",
    "G4 -1 Gb4",
    "G4 0 G4",
    "G4 1 G#4",
    "G4 2 A4",
    "G4 3 A#4",
    "G4 4 B4",
    "G4 5 C5",
    "G4 6 C#5",
    "G4 7 D5",
    "G4 8 D#5",
    "G4 9 E5",
    "G4 10 F5",
    "G4 11 F#5",
    "G4 12 G5",
    "G4 13 G#5",
    "G#4 -13 G3",
    "G#4 -12 G#3",
    "G#4 -11 A3",
    "G#4 -10 A#3",
    "G#4 -9 B3",
    "G#4 -8 B#3",
    "G#4 -7 C#4",
    "G#4 -6 D4",
    "G#4 -5 D#4",
    "G#4 -4 E4",
    "G#4 -3 E#4",
    "G#4 -2 F#4",
    "G#4 -1 G4",
    "G#4 0 G#4",
    "G#4 1 A4",
    "G#4 2 A#4",
    "G#4 3 B4",
    "G#4 4 B#4",
    "G#4 5 C#5",
    "G#4 6 D5",
    "G#4 7 D#5",
    "G#4 8 E5",
    "G#4 9 E#5",
    "G#4 10 F#5",
    "G#4 11 F##5",
    "G#4 12 G#5",
    "G#4 13 A5",
    "G##4 -13 Ab3",
    "G##4 -12 G##3",
    "G##4 -11 A#3",
    "G##4 -10 A##3",
    "G##4 -9 B#3",
    "G##4 -8 B##3",
    "G##4 -7 C##4",
    "G##4 -6 Eb4",
    "G##4 -5 D##4",
    "G##4 -4 E#4",
    "G##4 -3 E##4",
    "G##4 -2 F##4",
    "G##4 -1 Ab4",
    "G##4 0 G##4",
    "G##4 1 A#4",
    "G##4 2 A##4",
    "G##4 3 B#4",
    "G##4 4 B##4",
    "G##4 5 C##5",
    "G##4 6 D#5",
    "G##4 7 D##5",
    "G##4 8 E#5",
    "G##4 9 E##5",
    "G##4 10 F##5",
    "G##4 11 G#5",
    "G##4 12 G##5",
    "G##4 13 A#5",
    "Abb4 -13 Gb3",
    "Abb4 -12 Abb3",
    "Abb4 -11 Ab3",
    "Abb4 -10 Bbb3",
    "Abb4 -9 Cbb4",
    "Abb4 -8 Cb4",
    "Abb4 -7 Dbb4",
    "Abb4 -6 Db4",
    "Abb4 -5 Ebb4",
    "Abb4 -4 Fbb4",
    "Abb4 -3 Fb4",
    "Abb4 -2 Gbb4",
    "Abb4 -1 Gb4",
    "Abb4 0 Abb4",
    "Abb4 1 G#4",
    "Abb4 2 Bbb4",
    "Abb4 3 Cbb5",
    "Abb4 4 B4",
    "Abb4 5 Dbb5",
    "Abb4 6 C#5",
    "Abb4 7 Ebb5",
    "Abb4 8 Fbb5",
    "Abb4 9 Fb5",
    "Abb4 10 Gbb5",
    "Abb4 11 Gb5",
    "Abb4 12 Abb5",
    "Abb4 13 Ab5",
    "Ab4 -13 G3",
    "Ab4 -12 Ab3",
    "Ab4 -11 Bbb3",
    "Ab4 -10 Bb3",
    "Ab4 -9 Cb4",
    "Ab4 -8 C4",
    "Ab4 -7 Db4",
    "Ab4 -6 D4",
    "Ab4 -5 Eb4",
    "Ab4 -4 Fb4",
    "Ab4 -3 F4",
    "Ab4 -2 Gb4",
    "Ab4 -1 G4",
    "Ab4 0 Ab4",
    "Ab4 1 Bbb4",
    "Ab4 2 Bb4",
    "Ab4 3 Cb5",
    "Ab4 4 C5",
    "Ab4 5 Db5",
    "Ab4 6 D5",
    "Ab4 7 Eb5",
    "Ab4 8 Fb5",
    "Ab4 9 F5",
    "Ab4 10 Gb5",
    "Ab4 11 G5",
    "Ab4 12 Ab5",
    "Ab4 13 A5",
    "A4 -13 Ab3",
    "A4 -12 A3",
    "A4 -11 Bb3",
    "A4 -10 B3",
    "A4 -9 C4",
    "A4 -8 Db4",
    "A4 -7 D4",
    "A4 -6 Eb4",
    "A4 -5 E4",
    "A4 -4 F4",
    "A4 -3 Gb4",
    "A4 -2 G4",
    "A4 -1 Ab4",
    "A4 0 A4",
    "A4 1 A#4",
    "A4 2 B4",
    "A4 3 C5",
    "A4 4 C#5",
    "A4 5 D5",
    "A4 6 D#5",
    "A4 7 E5",
    "A4 8 F5",
    "A4 9 F#5",
    "A4 10 G5",
    "A4 11 G#5",
    "A4 12 A5",
    "A4 13 A#5",
    "A#4 -13 A3",
    "A#4 -12 A#3",
    "A#4 -11 B3",
    "A#4 -10 B#3",
    "A#4 -9 C#4",
    "A#4 -8 C##4",
    "A#4 -7 D#4",
    "A#4 -6 E4",
    "A#4 -5 E#4",
    "A#4 -4 F#4",
    "A#4 -3 F##4",
    "A#4 -2 G#4",
    "A#4 -1 A4",
    "A#4 0 A#4",
    "A#4 1 B4",
    "A#4 2 B#4",
    "A#4 3 C#5",
    "A#4 4 C##5",
    "A#4 5 D#5",
    "A#4 6 E5",
    "A#4 7 E#5",
    "A#4 8 F#5",
    "A#4 9 F##5",
    "A#4 10 G#5",
    "A#4 11 G##5",
    "A#4 12 A#5",
    "A#4 13 B5",
    "A##4 -13 Bb3",
    "A##4 -12 A##3",
    "A##4 -11 B#3",
    "A##4 -10 B##3",
    "A##4 -9 C##4",
    "A##4 -8 Eb4",
    "A##4 -7 D##4",
    "A##4 -6 F4",
    "A##4 -5 E##4",
    "A##4 -4 F##4",
    "A##4 -3 Ab4",
    "A##4 -2 G##4",
    "A##4 -1 Bb4",
    "A##4 0 A##4",
    "A##4 1 B#4",
    "A##4 2 B##4",
    "A##4 3 C##5",
    "A##4 4 D#5",
    "A##4 5 D##5",
    "A##4 6 F5",
    "A##4 7 E##5",
    "A##4 8 F##5",
    "A##4 9 G#5",
    "A##4 10 G##5",
    "A##4 11 A#5",
    "A##4 12 A##5",
    "A##4 13 C6",
    "Bbb4 -13 Ab3",
    "Bbb4 -12 Bbb3",
    "Bbb4 -11 Cbb4",
    "Bbb4 -10 Cb4",
    "Bbb4 -9 Dbb4",
    "Bbb4 -8 Db4",
    "Bbb4 -7 Ebb4",
    "Bbb4 -6 Eb4",
    "Bbb4 -5 Fb4",
    "Bbb4 -4 Gbb4",
    "Bbb4 -3 Gb4",
    "Bbb4 -2 Abb4",
    "Bbb4 -1 Ab4",
    "Bbb4 0 Bbb4",
    "Bbb4 1 Cbb5",
    "Bbb4 2 B4",
    "Bbb4 3 Dbb5",
    "Bbb4 4 Db5",
    "Bbb4 5 Ebb5",
    "Bbb4 6 Fbb5",
    "Bbb4 7 Fb5",
    "Bbb4 8 Gbb5",
    "Bbb4 9 Gb5",
    "Bbb4 10 Abb5",
    "Bbb4 11 Ab5",
    "Bbb4 12 Bbb5",
    "Bbb4 13 Cbb6",
    "Bb4 -13 A3",
    "Bb4 -12 Bb3",
    "Bb4 -11 Cb4",
    "Bb4 -10 C4",
    "Bb4 -9 Db4",
    "Bb4 -8 D4",
    "Bb4 -7 Eb4",
    "Bb4 -6 E4",
    "Bb4 -5 F4",
    "Bb4 -4 Gb4",
    "Bb4 -3 G4",
    "Bb4 -2 Ab4",
    "Bb4 -1 A4",
    "Bb4 0 Bb4",
    "Bb4 1 Cb5",
    "Bb4 2 C5",
    "Bb4 3 Db5",
    "Bb4 4 D5",
    "Bb4 5 Eb5",
    "Bb4 6 E5",
    "Bb4 7 F5",
    "Bb4 8 Gb5",
    "Bb4 9 G5",
    "Bb4 10 Ab5",
    "Bb4 11 A5",
    "Bb4 12 Bb5",
    "Bb4 13 B5",
    "B4 -13 Bb3",
    "B4 -12 B3",
    "B4 -11 C4",
    "B4 -10 Db4",
    "B4 -9 D4",
    "B4 -8 Eb4",
    "B4 -7 E4",
    "B4 -6 F4",
    "B4 -5 Gb4",
    "B4 -4 G4",
    "B4 -3 Ab4",
    "B4 -2 A4",
    "B4 -1 Bb4",
    "B4 0 B4",
    "B4 1 C5",
    "B4 2 C#5",
    "B4 3 D5",
    "B4 4 D#5",
    "B4 5 E5",
    "B4 6 F5",
    "B4 7 F#5",
    "B4 8 G5",
    "B4 9 G#5",
    "B4 10 A5",
    "B4 11 A#5",
    "B4 12 B5",
    "B4 13 C6",
    "B#4 -13 B3",
    "B#4 -12 C4",
    "B#4 -11 C#4",
    "B#4 -10 C##4",
    "B#4 -9 D#4",
    "B#4 -8 D##4",
    "B#4 -7 E#4",
    "B#4 -6 Gb4",
    "B#4 -5 F##4",
    "B#4 -4 G#4",
    "B#4 -3 G##4",
    "B#4 -2 A#4",
    "B#4 -1 B4",
    "B#4 0 B#4",
    "B#4 1 C#5",
    "B#4 2 C##5",
    "B#4 3 D#5",
    "B#4 4 D##5",
    "B#4 5 E#5",
    "B#4 6 F#5",
    "B#4 7 F##5",
    "B#4 8 G#5",
    "B#4 9 G##5",
    "B#4 10 A#5",
    "B#4 11 A##5",
    "B#4 12 B#5",
    "B#4 13 C#6",
    "B##4 -13 C4",
    "B##4 -12 B##3",
    "B##4 -11 C##4",
    "B##4 -10 Eb4",
    "B##4 -9 D##4",
    "B##4 -8 F4",
    "B##4 -7 E##4",
    "B##4 -6 G4",
    "B##4 -5 Ab4",
    "B##4 -4 G##4",
    "B##4 -3 Bb4",
    "B##4 -2 A##4",
    "B##4 -1 C5",
    "B##4 0 B##4",
    "B##4 1 C##5",
    "B##4 2 D#5",
    "B##4 3 D##5",
    "B##4 4 F5",
    "B##4 5 E##5",
    "B##4 6 F##5",
    "B##4 7 G#5",
    "B##4 8 G##5",
    "B##4 9 A#5",
    "B##4 10 A##5",
    "B##4 11 C6",
    "B##4 12 B##5",
    "B##4 13 D6",
    "Cb-3 -14 A-5",
    "Cb-3 -12 Cb-4",
    "Cb-3 -11 Dbb-4",
    "Cb-3 -7 Fb-4",
    "Cb-3 -3 Ab-4",
    "Cb-3 -1 Bb-4",
    "Cb-3 1 Dbb-3",
    "Cb-3 2 Db-3",
    "Cb-3 6 F-3",
    "Cb-3 11 Bb-3",
    "Cb-3 12 Cb-2",
    "Cb-3 13 C-2",
    "Cb-2 -14 A-4",
    "Cb-2 -12 Cb-3",
    "Cb-2 -11 Dbb-3",
    "Cb-2 -7 Fb-3",
    "Cb-2 -3 Ab-3",
    "Cb-2 -1 Bb-3",
    "Cb-2 1 Dbb-2",
    "Cb-2 2 Db-2",
    "Cb-2 6 F-2",
    "Cb-2 11 Bb-2",
    "Cb-2 12 Cb-1",
    "Cb-2 13 C-1",
    "C-3 -14 Bb-5",
    "C-3 -12 C-4",
    "C-3 -11 Db-4",
    "C-3 -7 F-4",
    "C-3 -3 A-4",
    "C-3 -1 B-4",
    "C-3 1 C#-3",
    "C-3 2 D-3",
    "C-3 6 F#-3",
    "C-3 11 B-3",
    "C-3 12 C-2",
    "C-3 13 C#-2",
    "C-2 -14 Bb-4",
    "C-2 -12 C-3",
    "C-2 -11 Db-3",
    "C-2 -7 F-3",
    "C-2 -3 A-3",
    "C-2 -1 B-3",
    "C-2 1 C#-2",
    "C-2 2 D-2",
    "C-2 6 F#-2",
    "C-2 11 B-2",
    "C-2 12 C-1",
    "C-2 13 C#-1",
    "C#-3 -14 B-5",
    "C#-3 -12 C#-4",
    "C#-3 -11 D-4",
    "C#-3 -7 F#-4",
    "C#-3 -3 A#-4",
    "C#-3 -1 C-3",
    "C#-3 1 D-3",
    "C#-3 2 D#-3",
    "C#-3 6 G-3",
    "C#-3 11 B#-3",
    "C#-3 12 C#-2",
    "C#-3 13 D-2",
    "C#-2 -14 B-4",
    "C#-2 -12 C#-3",
    "C#-2 -11 D-3",
    "C#-2 -7 F#-3",
    "C#-2 -3 A#-3",
    "C#-2 -1 C-2",
    "C#-2 1 D-2",
    "C#-2 2 D#-2",
    "C#-2 6 G-2",
    "C#-2 11 B#-2",
    "C#-2 12 C#-1",
    "C#-2 13 D-1",
    "Eb-3 -14 Db-4",
    "Eb-3 -12 Eb-4",
    "Eb-3 -11 Fb-4",
    "Eb-3 -7 Ab-4",
    "Eb-3 -3 C-3",
    "Eb-3 -1 D-3",
    "Eb-3 1 Fb-3",
    "Eb-3 2 F-3",
    "Eb-3 6 A-3",
    "Eb-3 11 D-2",
    "Eb-3 12 Eb-2",
    "Eb-3 13 E-2",
    "Eb-2 -14 Db-3",
    "Eb-2 -12 Eb-3",
    "Eb-2 -11 Fb-3",
    "Eb-2 -7 Ab-3",
    "Eb-2 -3 C-2",
    "Eb-2 -1 D-2",
    "Eb-2 1 Fb-2",
    "Eb-2 2 F-2",
    "Eb-2 6 A-2",
    "Eb-2 11 D-1",
    "Eb-2 12 Eb-1",
    "Eb-2 13 E-1",
    "E-3 -14 D-4",
    "E-3 -12 E-4",
    "E-3 -11 F-4",
    "E-3 -7 A-4",
    "E-3 -3 Db-3",
    "E-3 -1 Fbb-3",
    "E-3 1 F-3",
    "E-3 2 F#-3",
    "E-3 6 A#-3",
    "E-3 11 D#-2",
    "E-3 12 E-2",
    "E-3 13 F-2",
    "E-2 -14 D-3",
    "E-2 -12 E-3",
    "E-2 -11 F-3",
    "E-2 -7 A-3",
    "E-2 -3 Db-2",
    "E-2 -1 Fbb-2",
    "E-2 1 F-2",
    "E-2 2 F#-2",
    "E-2 6 A#-2",
    "E-2 11 D#-1",
    "E-2 12 E-1",
    "E-2 13 F-1",
    "E#-3 -14 Eb-4",
    "E#-3 -12 F-4",
    "E#-3 -11 F#-4",
    "E#-3 -7 A#-4",
    "E#-3 -3 C##-3",
    "E#-3 -1 E-3",
    "E#-3 1 F#-3",
    "E#-3 2 F##-3",
    "E#-3 6 B-3",
    "E#-3 11 D##-2",
    "E#-3 12 E#-2",
    "E#-3 13 F#-2",
    "E#-2 -14 Eb-3",
    "E#-2 -12 F-3",
    "E#-2 -11 F#-3",
    "E#-2 -7 A#-3",
    "E#-2 -3 C##-2",
    "E#-2 -1 E-2",
    "E#-2 1 F#-2",
    "E#-2 2 F##-2",
    "E#-2 6 B-2",
    "E#-2 11 D##-1",
    "E#-2 12 E#-1",
    "E#-2 13 F#-1",
    "Gb-3 -14 E-4",
    "Gb-3 -12 Gb-4",
    "Gb-3 -11 Abb-4",
    "Gb-3 -7 Cb-3",
    "Gb-3 -3 Eb-3",
    "Gb-3 -1 F-3",
    "Gb-3 1 Abb-3",
    "Gb-3 2 Ab-3",
    "Gb-3 6 C-2",
    "Gb-3 11 F-2",
    "Gb-3 12 Gb-2",
    "Gb-3 13 G-2",
    "Gb-2 -14 E-3",
    "Gb-2 -12 Gb-3",
    "Gb-2 -11 Abb-3",
    "Gb-2 -7 Cb-2",
    "Gb-2 -3 Eb-2",
    "Gb-2 -1 F-2",
    "Gb-2 1 Abb-2",
    "Gb-2 2 Ab-2",
    "Gb-2 6 C-1",
    "Gb-2 11 F-1",
    "Gb-2 12 Gb-1",
    "Gb-2 13 G-1",
    "G-3 -14 F-4",
    "G-3 -12 G-4",
    "G-3 -11 Ab-4",
    "G-3 -7 C-3",
    "G-3 -3 E-3",
    "G-3 -1 Gb-3",
    "G-3 1 G#-3",
    "G-3 2 A-3",
    "G-3 6 C#-2",
    "G-3 11 F#-2",
    "G-3 12 G-2",
    "G-3 13 G#-2",
    "G-2 -14 F-3",
    "G-2 -12 G-3",
    "G-2 -11 Ab-3",
    "G-2 -7 C-2",
    "G-2 -3 E-2",
    "G-2 -1 Gb-2",
    "G-2 1 G#-2",
    "G-2 2 A-2",
    "G-2 6 C#-1",
    "G-2 11 F#-1",
    "G-2 12 G-1",
    "G-2 13 G#-1",
    "G#-3 -14 Gb-4",
    "G#-3 -12 G#-4",
    "G#-3 -11 A-4",
    "G#-3 -7 C#-3",
    "G#-3 -3 E#-3",
    "G#-3 -1 G-3",
    "G#-3 1 A-3",
    "G#-3 2 A#-3",
    "G#-3 6 D-2",
    "G#-3 11 F##-2",
    "G#-3 12 G#-2",
    "G#-3 13 A-2",
    "G#-2 -14 Gb-3",
    "G#-2 -12 G#-3",
    "G#-2 -11 A-3",
    "G#-2 -7 C#-2",
    "G#-2 -3 E#-2",
    "G#-2 -1 G-2",
    "G#-2 1 A-2",
    "G#-2 2 A#-2",
    "G#-2 6 D-1",
    "G#-2 11 F##-1",
    "G#-2 12 G#-1",
    "G#-2 13 A-1",
    "Bb-3 -14 Ab-4",
    "Bb-3 -12 Bb-4",
    "Bb-3 -11 Cb-3",
    "Bb-3 -7 Eb-3",
    "Bb-3 -3 G-3",
    "Bb-3 -1 A-3",
    "Bb-3 1 Cb-2",
    "Bb-3 2 C-2",
    "Bb-3 6 E-2",
    "Bb-3 11 A-2",
    "Bb-3 12 Bb-2",
    "Bb-3 13 B-2",
    "Bb-2 -14 Ab-3",
    "Bb-2 -12 Bb-3",
    "Bb-2 -11 Cb-2",
    "Bb-2 -7 Eb-2",
    "Bb-2 -3 G-2",
    "Bb-2 -1 A-2",
    "Bb-2 1 Cb-1",
    "Bb-2 2 C-1",
    "Bb-2 6 E-1",
    "Bb-2 11 A-1",
    "Bb-2 12 Bb-1",
    "Bb-2 13 B-1",
    "B-3 -14 A-4",
    "B-3 -12 B-4",
    "B-3 -11 C-3",
    "B-3 -7 E-3",
    "B-3 -3 Ab-3",
    "B-3 -1 Bb-3",
    "B-3 1 C-2",
    "B-3 2 C#-2",
    "B-3 6 F-2",
    "B-3 11 A#-2",
    "B-3 12 B-2",
    "B-3 13 C-1",
    "B-2 -14 A-3",
    "B-2 -12 B-3",
    "B-2 -11 C-2",
    "B-2 -7 E-2",
    "B-2 -3 Ab-2",
    "B-2 -1 Bb-2",
    "B-2 1 C-1",
    "B-2 2 C#-1",
    "B-2 6 F-1",
    "B-2 11 A#-1",
    "B-2 12 B-1",
    "B-2 13 C0",
    "B#-3 -14 Bb-4",
    "B#-3 -12 C-3",
    "B#-3 -11 C#-3",
    "B#-3 -7 E#-3",
    "B#-3 -3 G##-3",
    "B#-3 -1 B-3",
    "B#-3 1 C#-2",
    "B#-3 2 C##-2",
    "B#-3 6 F#-2",
    "B#-3 11 A##-2",
    "B#-3 12 B#-2",
    "B#-3 13 C#-1",
    "B#-2 -14 Bb-3",
    "B#-2 -12 C-2",
    "B#-2 -11 C#-2",
    "B#-2 -7 E#-2",
    "B#-2 -3 G##-2",
    "B#-2 -1 B-2",
    "B#-2 1 C#-1",
    "B#-2 2 C##-1",
    "B#-2 6 F#-1",
    "B#-2 11 A##-1",
    "B#-2 12 B#-1",
    "B#-2 13 C#0",
    "C4 24 C6",
    "C4 -24 C2",
    "G8 0 G8",
    "C-12 1 C#-12",
    "C5 -100 Ab-4",
    "B##7 -90 G0",
    "Fbb-5 70 C#1",
];

#[test]
fn test_table_of_spellings() {
    assert_eq!(SPELLINGS.len(), 1240);
    for line in SPELLINGS {
        let parts: Vec<&str> = line.split(' ').collect();
        let source = pitch(parts[0]);
        let offset: i8 = parts[1].parse().unwrap();
        let expected = pitch(parts[2]);
        assert_eq!(ChromaticTransposer::select(source, offset), Some(expected), "{}", line);
        assert_eq!(source.transpose(offset), expected, "{}", line);
    }
}

#[test]
fn test_pitch_from_str_errors() {
    let whole = |text: &str| Err(ParseError::InvalidPitch(text.to_string()));
    assert_eq!(Pitch::from_str(""), whole(""));
    assert_eq!(Pitch::from_str("C"), whole("C"));
    assert_eq!(Pitch::from_str("4"), whole("4"));
    assert_eq!(Pitch::from_str("C#"), whole("C#"));
    assert_eq!(Pitch::from_str("C4.5"), whole("C4.5"));
    assert_eq!(Pitch::from_str("C-"), whole("C-"));
    assert_eq!(Pitch::from_str("C-x"), whole("C-x"));
    assert_eq!(Pitch::from_str("C128"), whole("C128"));
    assert_eq!(Pitch::from_str("C-129"), whole("C-129"));
    assert_eq!(Pitch::from_str("C4-"), whole("C4-"));
    assert_eq!(Pitch::from_str("H4"), Err(ParseError::InvalidNoteName("H".to_string())));
    assert_eq!(Pitch::from_str("Cx4"), Err(ParseError::InvalidAccidental("x".to_string())));
    assert_eq!(Pitch::from_str("C127"), Ok(Pitch::new(Letter::C, Accidental::Natural, 127)));
    assert_eq!(Pitch::from_str("C-128"), Ok(Pitch::new(Letter::C, Accidental::Natural, -128)));
    assert_eq!(Pitch::from_str("C+4"), Err(ParseError::InvalidAccidental("+".to_string())));
    assert_eq!(Pitch::from_str("C007"), Ok(Pitch::new(Letter::C, Accidental::Natural, 7)));
}

#[test]
fn test_pitch_to_string() {
    assert_eq!(pitch("C-2").to_string(), "C-2");
    assert_eq!(pitch("Bbb5").to_string(), "B𝄫5");
    assert_eq!(pitch("F##10").to_string(), "F𝄪10");
    assert_eq!(Pitch::new(Letter::G, Accidental::Natural, -128).to_string(), "G-128");
    assert_eq!(Pitch::new(Letter::G, Accidental::Natural, 127).to_string(), "G127");
    assert_eq!(Pitch::new(Letter::G, Accidental::Natural, 0).to_string(), "G0");
}
