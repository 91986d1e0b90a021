use chordy::error::TypeError;
use chordy::traits::{ChordLike, HasIntervals, HasRoot, Transposable};
use chordy::{
    scales, Accidental, Chord, HarmonicFunction, Interval, NoteName, Scale, ScaleBitmask,
    ScaleDefinition, ScaleDegree,
};

fn note(text: &str) -> NoteName {
    NoteName::from_str(text).unwrap()
}

fn notes(texts: &[&str]) -> Vec<NoteName> {
    texts.iter().map(|text| note(text)).collect()
}

fn degree(step: u8, alteration: Option<Accidental>) -> Option<ScaleDegree> {
    Some(ScaleDegree::new(step, alteration))
}

#[test]
fn test_major_scale_c() {
    let scale = Scale::new(note("C"), scales::ionian());
    assert_eq!(scale.notes(), notes(&["C", "D", "E", "F", "G", "A", "B"]));
}

#[test]
fn test_major_scale_d() {
    let scale = Scale::new(note("D"), scales::ionian());
    assert_eq!(scale.notes(), notes(&["D", "E", "F#", "G", "A", "B", "C#"]));
}

#[test]
fn test_major_scale_c_sharp() {
    let scale = Scale::new(note("C#"), scales::ionian());
    assert_eq!(scale.notes(), notes(&["C#", "D#", "E#", "F#", "G#", "A#", "B#"]));
}

#[test]
fn test_major_scale_f() {
    let scale = Scale::new(note("F"), scales::ionian());
    assert_eq!(scale.notes(), notes(&["F", "G", "A", "Bb", "C", "D", "E"]));
}

#[test]
fn test_natural_minor_scale_a() {
    let scale = Scale::new(note("A"), scales::aeolian());
    assert_eq!(scale.notes(), notes(&["A", "B", "C", "D", "E", "F", "G"]));
}

#[test]
fn test_harmonic_minor_scale_a() {
    let scale = Scale::new(note("A"), scales::harmonic_minor());
    assert_eq!(scale.notes(), notes(&["A", "B", "C", "D", "E", "F", "G#"]));
}

#[test]
fn test_dorian_mode_d() {
    let scale = Scale::new(note("D"), scales::dorian());
    assert_eq!(scale.notes(), notes(&["D", "E", "F", "G", "A", "B", "C"]));
}

#[test]
fn test_phrygian_mode_e() {
    let scale = Scale::new(note("E"), scales::phrygian());
    assert_eq!(scale.notes(), notes(&["E", "F", "G", "A", "B", "C", "D"]));
}

#[test]
fn test_lydian_mode_f() {
    let scale = Scale::new(note("F#"), scales::lydian());
    assert_eq!(scale.notes(), notes(&["F#", "G#", "A#", "B#", "C#", "D#", "E#"]));
}

#[test]
fn test_altered_scale_c() {
    let scale = Scale::new(note("C"), scales::altered());
    assert_eq!(scale.notes(), notes(&["C", "Db", "Eb", "Fb", "Gb", "Ab", "Bb"]));
}

#[test]
fn test_scale_degree_functions() {
    // --- C Major Scale ---
    let c_major = Scale::new(note("C"), scales::ionian());
    // Test basic degrees of c major
    assert_eq!(c_major.degree_of(&note("C")), Some(ScaleDegree::tonic()));
    assert_eq!(c_major.degree_of(&note("D")), Some(ScaleDegree::supertonic()));
    assert_eq!(c_major.degree_of(&note("E")), Some(ScaleDegree::mediant()));
    assert_eq!(c_major.degree_of(&note("F")), Some(ScaleDegree::subdominant()));
    assert_eq!(c_major.degree_of(&note("G")), Some(ScaleDegree::dominant()));
    assert_eq!(c_major.degree_of(&note("A")), Some(ScaleDegree::submediant()));
    assert_eq!(c_major.degree_of(&note("B")), Some(ScaleDegree::leading_tone()));

    // Some notes in c major can be altered to be sharp or flat without clashing with scale tones
    assert_eq!(c_major.degree_of(&note("C#")), degree(1, Some(Accidental::Sharp)));
    assert_eq!(c_major.degree_of(&note("D#")), degree(2, Some(Accidental::Sharp)));
    assert_eq!(c_major.degree_of(&note("F#")), degree(4, Some(Accidental::Sharp)));
    assert_eq!(c_major.degree_of(&note("G#")), degree(5, Some(Accidental::Sharp)));
    assert_eq!(c_major.degree_of(&note("A#")), degree(6, Some(Accidental::Sharp)));

    assert_eq!(c_major.degree_of(&note("Db")), degree(2, Some(Accidental::Flat)));
    assert_eq!(c_major.degree_of(&note("Eb")), degree(3, Some(Accidental::Flat)));
    assert_eq!(c_major.degree_of(&note("Gb")), degree(5, Some(Accidental::Flat)));
    assert_eq!(c_major.degree_of(&note("Ab")), degree(6, Some(Accidental::Flat)));
    assert_eq!(c_major.degree_of(&note("Bb")), degree(7, Some(Accidental::Flat)));

    // some notes will clash with scale tones
    // this function will return the scale tones instead
    assert_eq!(c_major.degree_of(&note("E#")), degree(4, None));
    assert_eq!(c_major.degree_of(&note("B#")), degree(1, None));
    assert_eq!(c_major.degree_of(&note("Cb")), degree(7, None));
    assert_eq!(c_major.degree_of(&note("Fb")), degree(3, None));

    // --- E flat minor scale ---
    let eb_minor = Scale::new(note("Eb"), scales::aeolian());
    // test basic degrees of eb minor
    assert_eq!(eb_minor.degree_of(&note("Eb")), Some(ScaleDegree::tonic()));
    assert_eq!(eb_minor.degree_of(&note("F")), Some(ScaleDegree::supertonic()));
    assert_eq!(eb_minor.degree_of(&note("Gb")), Some(ScaleDegree::mediant()));
    assert_eq!(eb_minor.degree_of(&note("Ab")), Some(ScaleDegree::subdominant()));
    assert_eq!(eb_minor.degree_of(&note("Bb")), Some(ScaleDegree::dominant()));
    assert_eq!(eb_minor.degree_of(&note("Cb")), Some(ScaleDegree::submediant()));
    assert_eq!(eb_minor.degree_of(&note("Db")), Some(ScaleDegree::subtonic()));

    // some notes in eb minor can be altered to be sharp or flat without clashing with scale tones
    assert_eq!(eb_minor.degree_of(&note("E")), degree(1, Some(Accidental::Sharp)));
    assert_eq!(eb_minor.degree_of(&note("Fb")), degree(2, Some(Accidental::Flat)));
    assert_eq!(eb_minor.degree_of(&note("G")), degree(3, Some(Accidental::Sharp)));
    assert_eq!(eb_minor.degree_of(&note("A")), degree(4, Some(Accidental::Sharp)));
    assert_eq!(eb_minor.degree_of(&note("C")), degree(6, Some(Accidental::Sharp)));
    assert_eq!(eb_minor.degree_of(&note("D")), degree(7, Some(Accidental::Sharp)));
    assert_eq!(eb_minor.degree_of(&note("B#")), degree(6, Some(Accidental::Sharp)));

    // clashing notes
    assert_eq!(eb_minor.degree_of(&note("D#")), degree(1, None));
    assert_eq!(eb_minor.degree_of(&note("E#")), degree(2, None));
    assert_eq!(eb_minor.degree_of(&note("F#")), degree(3, None));
    assert_eq!(eb_minor.degree_of(&note("G#")), degree(4, None));
    assert_eq!(eb_minor.degree_of(&note("A#")), degree(5, None));
    assert_eq!(eb_minor.degree_of(&note("B")), degree(6, None));
    assert_eq!(eb_minor.degree_of(&note("C#")), degree(7, None));

    // Double accidentals with name preservation
    assert_eq!(eb_minor.degree_of(&note("Abb")), degree(4, Some(Accidental::Flat)));
}

#[test]
fn test_chord_functions() {
    let c_major = Scale::new(note("C"), scales::ionian());

    let tests: Vec<(Chord, HarmonicFunction)> = vec![
        // Diatonic chords
        (Chord::major(note("C")), HarmonicFunction::Tonic),
        (Chord::minor(note("D")), HarmonicFunction::Subdominant),
        (Chord::minor(note("E")), HarmonicFunction::Dominant),
        (Chord::major(note("F")), HarmonicFunction::Subdominant),
        (Chord::major(note("G")), HarmonicFunction::Dominant),
        (Chord::minor(note("A")), HarmonicFunction::Tonic),
        (Chord::diminished(note("B")), HarmonicFunction::Dominant),
        // Some other chords
        (Chord::major(note("Db")), HarmonicFunction::Subdominant),
        (Chord::minor(note("Eb")), HarmonicFunction::Dominant),
    ];

    tests.iter().for_each(|(chord, expected_function)| {
        assert_eq!(
            c_major.harmonic_function(chord),
            Some(*expected_function),
            "Test failed for chord: {:?}, expected function: {:?}",
            chord.root,
            expected_function
        );
    });
}

#[test]
fn test_scale_transformations() {
    let c_major = Scale::new(note("C"), scales::ionian());

    // Relative minor
    let a_minor = c_major.relative().expect("Could not transform to relative scale");
    assert_eq!(a_minor.tonic, note("A"));
    assert_eq!(a_minor.definition, scales::aeolian());

    // Parallel minor
    let c_minor = c_major.parallel().expect("Could not transform to parallel scale");
    assert_eq!(c_minor.tonic, note("C"));
    assert_eq!(c_minor.definition, scales::aeolian());
}

#[test]
fn test_degrees_in_c_major_of_the_sharpened_notes() {
    let c_major = Scale::new(note("C"), scales::ionian());
    assert_eq!(c_major.degree_of(&note("C#")), degree(1, Some(Accidental::Sharp)));
    assert_eq!(c_major.degree_of(&note("F#")), degree(4, Some(Accidental::Sharp)));
    assert_eq!(c_major.degree_of(&note("B#")), degree(1, None));
}

#[test]
fn test_degrees_by_letter_and_by_distance() {
    let c_major = Scale::new(note("C"), scales::ionian());
    // A double flat two semitones below a note of the scale.
    assert_eq!(c_major.degree_of(&note("Dbb")), degree(1, None));
    assert_eq!(c_major.degree_of(&note("Gbb")), degree(4, None));
    // In a whole tone scale some notes lie two semitones from every note that
    // is not a semitone away.
    let whole_tone = Scale::new(note("C"), scales::whole_tone());
    assert_eq!(whole_tone.notes(), notes(&["C", "D", "E", "F#", "G#", "A#"]));
    // F has the letter of F sharp and lies a semitone below it.
    assert_eq!(whole_tone.degree_of(&note("F")), degree(4, Some(Accidental::Flat)));
    assert_eq!(whole_tone.degree_of(&note("Eb")), degree(3, Some(Accidental::Flat)));
    assert_eq!(whole_tone.degree_of(&note("G")), degree(5, Some(Accidental::Flat)));
    assert_eq!(whole_tone.degree_of(&note("A")), degree(6, Some(Accidental::Flat)));
    // B has no letter of the scale: the first note a semitone away is C.
    assert_eq!(whole_tone.degree_of(&note("B")), degree(1, Some(Accidental::Flat)));
    // D flat has a flat and lies a semitone below D.
    assert_eq!(whole_tone.degree_of(&note("Db")), degree(2, Some(Accidental::Flat)));
    // E sharp has a sharp and lies a semitone above E.
    assert_eq!(whole_tone.degree_of(&note("E#")), degree(3, Some(Accidental::Sharp)));
    // A scale of a single note.
    let single = ScaleDefinition {
        name: "Tonic",
        intervals: &[Interval { fifths: 0, octaves: 0 }],
        degree_offset: None,
        mode_of: None,
        bitmask: ScaleBitmask(1),
    };
    let drone = Scale::new(note("C"), single);
    assert_eq!(drone.degree_of(&note("C")), degree(1, None));
    assert_eq!(drone.degree_of(&note("B#")), degree(1, None));
    assert_eq!(drone.degree_of(&note("Db")), degree(1, Some(Accidental::Sharp)));
    assert_eq!(drone.degree_of(&note("B")), degree(1, Some(Accidental::Flat)));
    assert_eq!(drone.degree_of(&note("D")), degree(1, Some(Accidental::DoubleSharp)));
    assert_eq!(drone.degree_of(&note("Bb")), degree(1, Some(Accidental::DoubleFlat)));
    assert_eq!(drone.degree_of(&note("Cbb")), degree(1, Some(Accidental::DoubleFlat)));
    assert_eq!(drone.degree_of(&note("Eb")), None);
    assert_eq!(drone.degree_of(&note("G")), None);
}

#[test]
fn test_degree_across_the_end_of_the_octave() {
    // C double flat sounds two semitones below B sharp.
    let single = ScaleDefinition {
        name: "Tonic",
        intervals: &[Interval { fifths: 0, octaves: 0 }],
        degree_offset: None,
        mode_of: None,
        bitmask: ScaleBitmask(1),
    };
    let drone = Scale::new(note("B#"), single);
    assert_eq!(drone.degree_of(&note("Cbb")), degree(1, Some(Accidental::DoubleFlat)));
    assert_eq!(drone.degree_of(&note("Cb")), degree(1, Some(Accidental::Flat)));
}

#[test]
fn test_relative_and_parallel_of_other_scales() {
    let a_minor = Scale::new(note("A"), scales::aeolian());
    let relative = a_minor.relative().unwrap();
    assert_eq!(relative.tonic, note("F"));
    assert_eq!(relative.definition, scales::ionian());
    let parallel = a_minor.parallel().unwrap();
    assert_eq!(parallel.tonic, note("A"));
    assert_eq!(parallel.definition, scales::ionian());
    let d_dorian = Scale::new(note("D"), scales::dorian());
    assert_eq!(d_dorian.relative(), None);
    assert_eq!(d_dorian.parallel(), None);
    // A definition under another name with the intervals of the Ionian scale.
    let mut renamed = scales::ionian();
    renamed.name = "Major";
    assert!(renamed.same_intervals(&scales::ionian()));
    assert!(!renamed.same_intervals(&scales::lydian()));
    assert_ne!(renamed, scales::ionian());
    let major = Scale::new(note("Eb"), renamed);
    assert_eq!(major.relative().unwrap().tonic, note("C"));
    assert_eq!(major.parallel().unwrap().definition, scales::aeolian());
}

#[test]
fn test_registry() {
    let registry = scales::registry();
    assert_eq!(registry.len(), 12);
    let names: Vec<&str> = registry.iter().map(|definition| definition.name).collect();
    assert_eq!(
        names,
        vec![
            "Ionian",
            "Dorian",
            "Phrygian",
            "Lydian",
            "Mixolydian",
            "Aeolian",
            "Harmonic Minor",
            "Melodic Minor",
            "Locrian",
            "Whole Tone",
            "Hungarian Minor",
            "Altered",
        ]
    );
    assert_eq!(registry[0], scales::ionian());
    assert_eq!(registry[4], scales::mixolydian());
    assert_eq!(registry[7], scales::melodic_minor());
    assert_eq!(registry[8], scales::locrian());
    assert_eq!(registry[10], scales::hungarian_minor());
    assert_eq!(scales::ionian().bitmask, ScaleBitmask(0b101010110101));
    assert_eq!(scales::dorian().mode_of, Some("Ionian"));
    assert_eq!(scales::dorian().degree_offset, Some(1));
    assert_eq!(scales::locrian().degree_offset, Some(6));
    assert_eq!(scales::ionian().mode_of, None);
    for definition in registry {
        assert_eq!(definition.intervals[0], Interval::perfect_unison());
        // The mask holds the semitone of every note of the scale.
        for pitch_class in 0u8..12 {
            let held = definition
                .intervals
                .iter()
                .any(|interval| interval.semitones() as u8 % 12 == pitch_class);
            assert_eq!(definition.bitmask.contains(pitch_class), held, "{}", definition.name);
        }
    }
}

#[test]
fn test_bitmask_of_steps() {
    // The steps of the major scale: tone, tone, semitone, tone, tone, tone.
    let tone = Interval::major_second();
    let semitone = Interval::minor_second();
    let mask = ScaleBitmask::from_intervals(&[
        Interval::perfect_unison(),
        tone,
        tone,
        semitone,
        tone,
        tone,
        tone,
    ]);
    assert_eq!(mask, ScaleBitmask(0b101010110101));
    assert!(mask.contains(0));
    assert!(!mask.contains(1));
    assert!(mask.contains(11));
    assert!(mask.contains(12));
    assert!(!mask.contains(13));
    assert_eq!(ScaleBitmask::from_intervals(&[]), ScaleBitmask(0));
    assert_eq!(ScaleBitmask::from_intervals(&[Interval::octave()]), ScaleBitmask(1));
    // Steps add up, wrapped to eight bits: 21 times an octave is 252, and a
    // fifth more is 259, which wraps to 3.
    let mut steps = vec![Interval::octave(); 21];
    steps.push(Interval::perfect_fifth());
    assert_eq!(ScaleBitmask::from_intervals(&steps), ScaleBitmask(0b1001));
}

#[test]
fn test_scale_degree_validation() {
    assert_eq!(ScaleDegree::new(1, None).validate(), Ok(()));
    assert_eq!(ScaleDegree::new(7, Some(Accidental::Flat)).validate(), Ok(()));
    assert_eq!(ScaleDegree::new(0, None).validate(), Err(TypeError::InvalidScaleDegree(0)));
    assert_eq!(ScaleDegree::new(8, None).validate(), Err(TypeError::InvalidScaleDegree(8)));
    assert_eq!(
        TypeError::InvalidScaleDegree(8).to_string(),
        "Invalid scale degree: '8'"
    );
    assert_eq!(
        TypeError::InvalidScaleDegree(255).to_string(),
        "Invalid scale degree: '255'"
    );
    assert_eq!(ScaleDegree::flat_second(), ScaleDegree::neapolitan());
    assert_eq!(ScaleDegree::flat_second(), ScaleDegree::new(2, Some(Accidental::Flat)));
    assert_eq!(ScaleDegree::flat_third(), ScaleDegree::new(3, Some(Accidental::Flat)));
    assert_eq!(ScaleDegree::sharp_fourth(), ScaleDegree::new(4, Some(Accidental::Sharp)));
    assert_eq!(ScaleDegree::flat_sixth(), ScaleDegree::new(6, Some(Accidental::Flat)));
    assert_eq!(ScaleDegree::flat_seventh(), ScaleDegree::new(7, Some(Accidental::Flat)));
    assert_eq!(ScaleDegree::leading_tone(), ScaleDegree::subtonic());
}

#[test]
fn test_scale_as_a_structure() {
    let scale = Scale::new(note("D"), scales::dorian());
    assert_eq!(scale.root(), note("D"));
    assert_eq!(scale.intervals(), scales::dorian().intervals);
    assert!(scale.contains_interval(Interval::minor_third()));
    assert!(!scale.contains_interval(Interval::major_third()));
    assert_eq!(ChordLike::notes(&scale), scale.notes());
    let moved = scale.transposed(Interval::major_second());
    assert_eq!(moved.tonic, note("E"));
    assert_eq!(moved.definition, scales::dorian());
    let mut moving = scale.clone();
    moving.transpose(Interval::perfect_fifth());
    assert_eq!(moving.tonic, note("A"));
    assert_eq!(moving.definition, scales::dorian());
}

#[test]
fn test_harmonic_function_scores() {
    let degrees = |steps: &[u8]| -> Vec<ScaleDegree> {
        steps.iter().map(|step| ScaleDegree::new(*step, None)).collect()
    };
    let detect = |steps: &[u8]| HarmonicFunction::detect_by_scale_degrees(&degrees(steps));
    assert_eq!(detect(&[]), None);
    assert_eq!(detect(&[8]), None);
    assert_eq!(detect(&[1, 3, 5]), Some(HarmonicFunction::Tonic));
    assert_eq!(detect(&[4, 6, 1]), Some(HarmonicFunction::Subdominant));
    assert_eq!(detect(&[5, 7, 2]), Some(HarmonicFunction::Dominant));
    // Step 2 goes with the subdominant and with the dominant alike: the
    // later of the two wins.
    assert_eq!(detect(&[2]), Some(HarmonicFunction::Dominant));
    // Step 1 is a trigger of the tonic, and goes with the subdominant.
    assert_eq!(detect(&[1]), Some(HarmonicFunction::Tonic));
    // Step 7 is a trigger of the dominant and a dissonance of the tonic.
    assert_eq!(detect(&[7]), Some(HarmonicFunction::Dominant));
    // Steps 1 and 4: tonic 8, subdominant 4 + 8, dominant 1.
    assert_eq!(detect(&[1, 4]), Some(HarmonicFunction::Subdominant));
    // Steps 3 and 5 against 5 and 7: tonic 8 + 4, dominant 8.
    assert_eq!(detect(&[3, 5]), Some(HarmonicFunction::Tonic));
    // Steps 1, 6 and 5: tonic 8 + 4 + 4, subdominant 4 + 8, dominant 8 + 1.
    assert_eq!(detect(&[1, 6, 5]), Some(HarmonicFunction::Tonic));
    // Steps 3 and 4: tonic 8, subdominant 1 + 8, dominant 1.
    assert_eq!(detect(&[3, 4]), Some(HarmonicFunction::Subdominant));
    // Alterations do not count.
    let altered = [ScaleDegree::new(5, Some(Accidental::Sharp)), ScaleDegree::new(7, None)];
    assert_eq!(
        HarmonicFunction::detect_by_scale_degrees(&altered),
        Some(HarmonicFunction::Dominant)
    );
    assert_eq!(
        HarmonicFunction::all(),
        vec![HarmonicFunction::Tonic, HarmonicFunction::Subdominant, HarmonicFunction::Dominant]
    );
    assert_eq!(HarmonicFunction::Tonic.triggers(), vec![1, 3]);
    assert_eq!(HarmonicFunction::Subdominant.triggers(), vec![4, 6]);
    assert_eq!(HarmonicFunction::Dominant.triggers(), vec![5, 7]);
    assert_eq!(HarmonicFunction::Tonic.associates(), vec![5, 6]);
    assert_eq!(HarmonicFunction::Subdominant.associates(), vec![1, 2]);
    assert_eq!(HarmonicFunction::Dominant.associates(), vec![2]);
    assert_eq!(HarmonicFunction::Tonic.dissonances(), vec![(5, Some(6)), (7, None)]);
    assert_eq!(HarmonicFunction::Subdominant.dissonances(), vec![(1, Some(2)), (3, None)]);
    assert_eq!(HarmonicFunction::Dominant.dissonances(), vec![(4, None), (6, None)]);
}
