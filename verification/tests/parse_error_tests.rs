use chordy::error::ParseError;

#[test]
fn test_invalid_accidental_error() {
    let err = ParseError::InvalidAccidental("x".to_string());
    assert_eq!(err.to_string(), "Invalid accidental: 'x'");
}

#[test]
fn test_invalid_note_name_error() {
    let err = ParseError::InvalidNoteName("H".to_string());
    assert_eq!(err.to_string(), "Invalid note name: 'H'");
}

#[test]
fn test_every_parse_error_message() {
    let text = || "C?".to_string();
    assert_eq!(ParseError::InvalidAccidental(text()).to_string(), "Invalid accidental: 'C?'");
    assert_eq!(ParseError::InvalidNoteName(text()).to_string(), "Invalid note name: 'C?'");
    assert_eq!(ParseError::InvalidChordSymbol(text()).to_string(), "Invalid chord symbol: 'C?'");
    assert_eq!(ParseError::InvalidScaleType(text()).to_string(), "Invalid scale type: 'C?'");
    assert_eq!(ParseError::UnrecognizedFormat(text()).to_string(), "Unrecognized format: 'C?'");
    assert_eq!(ParseError::InvalidPitch(text()).to_string(), "Invalid pitch: 'C?'");
    assert_eq!(ParseError::InvalidInterval(text()).to_string(), "Invalid interval: 'C?'");
    assert_eq!(ParseError::InvalidPitch(String::new()).to_string(), "Invalid pitch: ''");
}
