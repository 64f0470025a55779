use hermesgate::otp::{extract_otp, pick_code};

#[test]
fn test_extract_otp_formats() {
    assert_eq!(
        extract_otp("Your verification code is 492810. Valid for 5 minutes."),
        Some("492810".to_string())
    );
    assert_eq!(
        extract_otp("Use 582914 to verify your Instagram account."),
        Some("582914".to_string())
    );
    assert_eq!(
        extract_otp("Google verification code: G-739102. Do not share."),
        Some("G-739102".to_string())
    );
    assert_eq!(
        extract_otp("839201 is your WhatsApp code."),
        Some("839201".to_string())
    );
    assert_eq!(
        extract_otp("Apple ID Code: 381920. Don't share it with anyone."),
        Some("381920".to_string())
    );
    assert_eq!(
        extract_otp("Your security PIN is 9182"),
        Some("9182".to_string())
    );
    assert_eq!(
        extract_otp("Hello! Your login code: 938-120"),
        Some("938-120".to_string())
    );
}

#[test]
fn extract_otp_none_without_a_code() {
    assert_eq!(extract_otp("Hello there, see you at dinner."), None);
    assert_eq!(extract_otp(""), None);
}

#[test]
fn extract_otp_skips_a_year_without_code_or_pin() {
    // "login ... 2024" looks like a year and the body mentions neither "code" nor "pin".
    assert_eq!(extract_otp("Thanks for your login in 2024"), None);
}

#[test]
fn extract_otp_keeps_a_year_like_code_when_the_body_says_code() {
    assert_eq!(extract_otp("Your code is 2024"), Some("2024".to_string()));
}

#[test]
fn extract_otp_from_forwarded_samples() {
    assert_eq!(extract_otp("Your login code is 829104"), Some("829104".to_string()));
    assert_eq!(extract_otp("G-551923 is your verification code"), Some("G-551923".to_string()));
    assert_eq!(extract_otp("Verification code: 994812"), Some("994812".to_string()));
    assert_eq!(extract_otp("Your security code is 781920"), Some("781920".to_string()));
    assert_eq!(extract_otp("Use 645123 for two-factor login"), Some("645123".to_string()));
}

#[test]
fn extracted_code_is_part_of_the_body() {
    let body = "Your authorization code is 918230. Valid for 5 minutes.";
    let code = extract_otp(body).unwrap();
    assert!(body.contains(&code));
}

#[test]
fn extract_otp_documented_examples() {
    assert_eq!(
        extract_otp("Your authorization code is 918230. Valid for 5 minutes."),
        Some("918230".to_string())
    );
    assert_eq!(extract_otp("G-551920 is your verification code."), Some("G-551920".to_string()));
}

#[test]
fn year_like_code_kept_when_an_uppercase_keyword_is_present() {
    assert_eq!(extract_otp("LOGIN CODE 2024"), Some("2024".to_string()));
    assert_eq!(extract_otp("ACCOUNT NUMBER 2024"), None);
}

fn groups(gs: &[Option<&str>]) -> Vec<Option<String>> {
    gs.iter().map(|g| g.map(|s| s.to_string())).collect()
}

#[test]
fn pick_code_takes_the_first_capture_trimmed() {
    assert_eq!(pick_code(&groups(&[None, Some(" 492810 "), Some("G-1234")]), false), Some("492810".to_string()));
    assert_eq!(pick_code(&groups(&[None, None]), true), None);
}

#[test]
fn pick_code_skips_a_year_unless_the_body_names_a_code() {
    let g = groups(&[Some("2024"), None, Some("1999"), Some("582914")]);
    assert_eq!(pick_code(&g, false), Some("582914".to_string()));
    assert_eq!(pick_code(&g, true), Some("2024".to_string()));
    assert_eq!(pick_code(&groups(&[Some("2101")]), false), Some("2101".to_string()));
}
