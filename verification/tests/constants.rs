//! Checks of the shell's fixed configuration values.

use gemini_shell::constants::GEMINI_URL;
use gemini_shell::constants::GEMINI_WEBVIEW_LABEL;
use gemini_shell::constants::MAIN_WINDOW_LABEL;
use gemini_shell::constants::OPTIONS_WINDOW_HEIGHT;
use gemini_shell::constants::OPTIONS_WINDOW_LABEL;
use gemini_shell::constants::OPTIONS_WINDOW_MIN_HEIGHT;
use gemini_shell::constants::OPTIONS_WINDOW_MIN_WIDTH;
use gemini_shell::constants::OPTIONS_WINDOW_TITLE;
use gemini_shell::constants::OPTIONS_WINDOW_WIDTH;
use gemini_shell::constants::TITLEBAR_HEIGHT;

#[test]
fn test_titlebar_height_is_positive() {
    assert!(TITLEBAR_HEIGHT > 0);
    assert_eq!(TITLEBAR_HEIGHT, 32);
}

#[test]
fn test_gemini_url_is_valid_https() {
    assert!(GEMINI_URL.starts_with("https://"));
    assert!(GEMINI_URL.contains("gemini.google.com"));
}

#[test]
fn test_window_labels_are_non_empty() {
    assert!(!MAIN_WINDOW_LABEL.is_empty());
    assert!(!GEMINI_WEBVIEW_LABEL.is_empty());
}

#[test]
fn test_options_window_label_is_valid() {
    assert!(!OPTIONS_WINDOW_LABEL.is_empty());
    // Label should be lowercase for consistency
    assert_eq!(OPTIONS_WINDOW_LABEL, OPTIONS_WINDOW_LABEL.to_lowercase());
}

#[test]
fn test_options_window_title_is_valid() {
    assert!(!OPTIONS_WINDOW_TITLE.is_empty());
}

#[test]
fn test_options_window_dimensions_are_valid() {
    // Default dimensions should be positive
    assert!(OPTIONS_WINDOW_WIDTH > 0);
    assert!(OPTIONS_WINDOW_HEIGHT > 0);
    // Minimum dimensions should be positive and <= defaults
    assert!(OPTIONS_WINDOW_MIN_WIDTH > 0);
    assert!(OPTIONS_WINDOW_MIN_HEIGHT > 0);
    assert!(OPTIONS_WINDOW_MIN_WIDTH <= OPTIONS_WINDOW_WIDTH);
    assert!(OPTIONS_WINDOW_MIN_HEIGHT <= OPTIONS_WINDOW_HEIGHT);
}

#[test]
fn test_titlebar_height_is_accessible() {
    // Constant is shared across the crate; detailed checks sit above
    assert!(TITLEBAR_HEIGHT > 0);
}

#[test]
fn test_constants_are_accessible() {
    // Verify window constants are properly exported and valid
    assert!(!OPTIONS_WINDOW_LABEL.is_empty());
    assert!(!OPTIONS_WINDOW_TITLE.is_empty());
    assert!(OPTIONS_WINDOW_WIDTH > 0);
    assert!(OPTIONS_WINDOW_HEIGHT > 0);
    assert!(OPTIONS_WINDOW_MIN_WIDTH > 0);
    assert!(OPTIONS_WINDOW_MIN_HEIGHT > 0);
}

#[test]
fn test_minimum_dimensions_are_smaller_than_default() {
    // Ensure minimum dimensions make sense relative to defaults
    assert!(OPTIONS_WINDOW_MIN_WIDTH <= OPTIONS_WINDOW_WIDTH);
    assert!(OPTIONS_WINDOW_MIN_HEIGHT <= OPTIONS_WINDOW_HEIGHT);
}
