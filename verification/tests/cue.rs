use starpsx_core::cue::{runs_off_end, Parser, ScanError, Scanner, Token};

fn scan(text: &[u8]) -> Result<Vec<Token>, ScanError> {
    Scanner::with_source(text.to_vec()).scan_tokens()
}

#[test]
fn scans_a_cue_sheet() {
    let sheet = b"FILE \"game.bin\" BINARY\n  TRACK 01 MODE2/2352\n    INDEX 01 00:02:00\n";
    let tokens = scan(sheet).expect("a valid sheet");
    assert_eq!(
        tokens,
        vec![
            Token::File,
            Token::String("game.bin".to_string()),
            Token::Binary,
            Token::Newline,
            Token::Track,
            Token::Number(1),
            Token::Mode2_2352,
            Token::Newline,
            Token::Index,
            Token::Number(1),
            Token::CdTime("00:02:00".to_string()),
            Token::Newline,
        ]
    );
}

#[test]
fn audio_tracks_and_carriage_returns() {
    let tokens = scan(b"TRACK 02 AUDIO\r\n").unwrap();
    assert_eq!(tokens, vec![Token::Track, Token::Number(2), Token::Audio, Token::Newline]);
}

#[test]
fn trailing_blanks_give_eof() {
    let tokens = scan(b"FILE\n \t").unwrap();
    assert_eq!(tokens, vec![Token::File, Token::Newline, Token::Eof]);
}

#[test]
fn empty_sheet_has_no_tokens() {
    assert_eq!(scan(b"").unwrap(), Vec::<Token>::new());
}

#[test]
fn unexpected_character() {
    assert_eq!(scan(b"# comment\n"), Err(ScanError::UnexpectedCharacter(b'#')));
}

#[test]
fn unterminated_string() {
    assert_eq!(scan(b"FILE \"game.bin\n"), Err(ScanError::UnterminatedString));
}

#[test]
fn string_that_is_not_utf8() {
    assert_eq!(scan(&[0x22, 0xFF, 0x22, 0x0A]), Err(ScanError::InvalidUtf8));
}

#[test]
fn string_decoded_as_utf8() {
    let tokens = scan(&[0x22, 0xC3, 0xA9, 0x22, 0x0A]).unwrap();
    assert_eq!(tokens, vec![Token::String("\u{e9}".to_string()), Token::Newline]);
}

#[test]
fn unknown_keyword() {
    assert_eq!(scan(b"REM hello\n"), Err(ScanError::InvalidKeyword));
    assert_eq!(scan(b"PREGAP 00:02:00\n"), Err(ScanError::InvalidKeyword));
}

#[test]
fn number_too_large() {
    assert_eq!(scan(b"4294967295\n").unwrap(), vec![Token::Number(4294967295), Token::Newline]);
    assert_eq!(scan(b"4294967296\n"), Err(ScanError::InvalidNumber));
}

#[test]
fn malformed_times() {
    assert_eq!(scan(b"12:x0:00\n"), Err(ScanError::InvalidTimeFormat));
    assert_eq!(scan(b"12:34:x\n"), Err(ScanError::InvalidTimeFormat));
}

#[test]
fn time_second_separator_is_any_byte() {
    let tokens = scan(b"12:34-56\n").unwrap();
    assert_eq!(tokens, vec![Token::CdTime("12:34-56".to_string()), Token::Newline]);
}

#[test]
fn parser_starts_at_first_token() {
    let p = Parser::new(vec![Token::File, Token::Eof]);
    assert_eq!(p.current, 0);
    assert_eq!(p.tokens.len(), 2);
}

#[test]
fn sheets_that_end_inside_a_word_or_number_are_found() {
    assert!(runs_off_end(&b"TRACK 01 AUDIO".to_vec(), 0));
    assert!(runs_off_end(&b"INDEX 01 00:02\n".to_vec(), 0));
    assert!(runs_off_end(&b"INDEX 01 00:02:00".to_vec(), 0));
    assert!(!runs_off_end(&b"INDEX 01 00:02:00\n".to_vec(), 0));
    assert!(!runs_off_end(&b"TRACK 01 AUDIO\n".to_vec(), 0));
    assert!(!runs_off_end(&b"\"unterminated".to_vec(), 0));
    // A failure before the end stops the scan first.
    assert!(!runs_off_end(&b"? TRACK".to_vec(), 0));
    assert!(!runs_off_end(&Vec::new(), 0));
    assert!(!runs_off_end(&b"TRACK".to_vec(), 5));
}
