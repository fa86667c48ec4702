use cmd_ime::ime::{get_current_input_source, switch_input_source, SwitchError};

fn listing(entries: &[Option<&str>]) -> Vec<Option<String>> {
    entries.iter().map(|entry| entry.map(|id| id.to_string())).collect()
}

#[test]
fn switch_to_an_unregistered_source_is_not_found() {
    let registered = listing(&[
        Some("com.apple.keylayout.US"),
        Some("com.apple.inputmethod.Kotoeri.RomajiTyping.Roman"),
        Some("com.apple.inputmethod.Kotoeri.RomajiTyping.Japanese"),
    ]);
    assert_eq!(
        switch_input_source("nonexistent.id", Some(&registered)),
        Err(SwitchError::NotFound)
    );
}

#[test]
fn switch_picks_the_source_with_the_identifier() {
    let registered = listing(&[
        Some("com.apple.keylayout.US"),
        Some("com.apple.inputmethod.Kotoeri.RomajiTyping.Roman"),
        Some("com.apple.inputmethod.Kotoeri.RomajiTyping.Japanese"),
    ]);
    assert_eq!(switch_input_source("com.apple.keylayout.US", Some(&registered)), Ok(0));
    assert_eq!(
        switch_input_source("com.apple.inputmethod.Kotoeri.RomajiTyping.Roman", Some(&registered)),
        Ok(1)
    );
    assert_eq!(
        switch_input_source(
            "com.apple.inputmethod.Kotoeri.RomajiTyping.Japanese",
            Some(&registered)
        ),
        Ok(2)
    );
}

#[test]
fn switch_picks_the_first_of_equal_identifiers() {
    let registered = listing(&[Some("a"), Some("b"), None, Some("b"), Some("a")]);
    assert_eq!(switch_input_source("b", Some(&registered)), Ok(1));
    assert_eq!(switch_input_source("a", Some(&registered)), Ok(0));
}

#[test]
fn switch_skips_sources_without_an_identifier() {
    let registered = listing(&[None, None, Some("target"), None]);
    assert_eq!(switch_input_source("target", Some(&registered)), Ok(2));
    let unnamed = listing(&[None, None]);
    assert_eq!(switch_input_source("target", Some(&unnamed)), Err(SwitchError::NotFound));
    assert_eq!(switch_input_source("", Some(&unnamed)), Err(SwitchError::NotFound));
}

#[test]
fn switch_compares_identifiers_exactly() {
    let registered = listing(&[
        Some("com.apple.inputmethod.Kotoeri.RomajiTyping.Roman2"),
        Some("com.apple.inputmethod.Kotoeri.RomajiTyping"),
        Some("COM.APPLE.INPUTMETHOD.KOTOERI.ROMAJITYPING.ROMAN"),
        Some(""),
    ]);
    assert_eq!(
        switch_input_source("com.apple.inputmethod.Kotoeri.RomajiTyping.Roman", Some(&registered)),
        Err(SwitchError::NotFound)
    );
    assert_eq!(switch_input_source("", Some(&registered)), Ok(3));
}

#[test]
fn switch_on_an_empty_listing_is_not_found() {
    let registered: Vec<Option<String>> = Vec::new();
    assert_eq!(switch_input_source("any", Some(&registered)), Err(SwitchError::NotFound));
}

#[test]
fn switch_without_a_listing_is_an_enumeration_failure() {
    assert_eq!(switch_input_source("any", None), Err(SwitchError::EnumerationFailed));
    assert_eq!(
        switch_input_source("com.apple.inputmethod.Kotoeri.RomajiTyping.Roman", None),
        Err(SwitchError::EnumerationFailed)
    );
}

#[test]
fn current_source_is_its_identifier_or_nothing() {
    assert_eq!(get_current_input_source(None), None);
    assert_eq!(get_current_input_source(Some(None)), None);
    assert_eq!(
        get_current_input_source(Some(Some("com.apple.keylayout.US".to_string()))),
        Some("com.apple.keylayout.US".to_string())
    );
    assert_eq!(get_current_input_source(Some(Some(String::new()))), Some(String::new()));
}

#[test]
fn switch_errors_read_as_documented() {
    assert_eq!(
        SwitchError::NotFound.message("nonexistent.id"),
        "Input source not found: nonexistent.id"
    );
    assert_eq!(SwitchError::NotFound.message(""), "Input source not found: ");
    assert_eq!(
        SwitchError::EnumerationFailed.message("nonexistent.id"),
        "Failed to get input source list"
    );
}
