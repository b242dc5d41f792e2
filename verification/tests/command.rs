use rgpt::command::{dispatch_line, normalize_line, stays_in_input_mode, Directive};
use rgpt::session::Input;
use rgpt::store::UseContext;

#[test]
fn quit_is_case_insensitive() {
    assert!(matches!(dispatch_line("/Q"), Directive::Quit));
    assert!(matches!(dispatch_line("/quit"), Directive::Quit));
    assert!(matches!(dispatch_line("/EXIT"), Directive::Quit));
    assert!(matches!(dispatch_line("/Stop"), Directive::Quit));
}

#[test]
fn bogus_command_stays_in_input_mode() {
    let d = dispatch_line("/bogus");
    assert!(matches!(d, Directive::Invalid));
    assert!(stays_in_input_mode(&d));
}

#[test]
fn plain_text_becomes_a_prompt_and_leaves_input_mode() {
    let d = dispatch_line("what is a monad?\n");
    match &d {
        Directive::Forward(Input::Text(t)) => assert_eq!(t, "what is a monad?\n"),
        other => panic!("expected text, got {:?}", other),
    }
    assert!(!stays_in_input_mode(&d));
}

#[test]
fn context_commands_map_to_their_presets() {
    assert!(matches!(
        dispatch_line("/programming"),
        Directive::Forward(Input::Context(UseContext::Programming))
    ));
    assert!(matches!(
        dispatch_line("/PROG"),
        Directive::Forward(Input::Context(UseContext::Programming))
    ));
    assert!(matches!(
        dispatch_line("/p"),
        Directive::Forward(Input::Context(UseContext::Programming))
    ));
    assert!(matches!(
        dispatch_line("/short"),
        Directive::Forward(Input::Context(UseContext::Short))
    ));
    assert!(matches!(
        dispatch_line("/S"),
        Directive::Forward(Input::Context(UseContext::Short))
    ));
    assert!(matches!(
        dispatch_line("/basic"),
        Directive::Forward(Input::Context(UseContext::Basic))
    ));
    assert!(matches!(
        dispatch_line("/b"),
        Directive::Forward(Input::Context(UseContext::Basic))
    ));
}

#[test]
fn clear_and_help_families() {
    assert!(matches!(dispatch_line("/clear"), Directive::Forward(Input::Clear)));
    assert!(matches!(dispatch_line("/c"), Directive::Forward(Input::Clear)));
    assert!(matches!(dispatch_line("/new"), Directive::Forward(Input::Clear)));
    assert!(matches!(dispatch_line("/N"), Directive::Forward(Input::Clear)));
    assert!(matches!(dispatch_line("/help"), Directive::Help));
    assert!(matches!(dispatch_line("/h"), Directive::Help));
}

#[test]
fn commands_are_trimmed_before_matching() {
    assert!(matches!(dispatch_line("/quit\n"), Directive::Quit));
    assert!(matches!(dispatch_line("/q \t"), Directive::Quit));
}

#[test]
fn normalize_trims_and_lowercases() {
    assert_eq!(normalize_line("  /QuIt \n"), "/quit");
    assert_eq!(normalize_line(""), "");
    assert_eq!(normalize_line(" \t\r\n"), "");
    assert_eq!(normalize_line("AbC"), "abc");
}

#[test]
fn unicode_whitespace_is_trimmed_too() {
    assert_eq!(normalize_line("\u{A0}/Quit\u{3000}"), "/quit");
    assert_eq!(normalize_line("\u{2003}\u{2028}"), "");
    assert!(matches!(dispatch_line("/q\u{A0}"), Directive::Quit));
}

#[test]
fn slash_commands_all_stay_in_input_mode() {
    assert!(stays_in_input_mode(&dispatch_line("/help")));
    assert!(stays_in_input_mode(&dispatch_line("/clear")));
    assert!(stays_in_input_mode(&dispatch_line("/short")));
    assert!(stays_in_input_mode(&dispatch_line("/bogus")));
}
