use variant_gate::profile::{parse, parse_opt, CapabilityProfile, Status};

fn profile(machine_rpz: bool, human_rpz: bool) -> CapabilityProfile {
    CapabilityProfile {
        machine_rpz,
        human_rpz,
    }
}

#[test]
fn empty_input_parses_all_false() {
    assert_eq!(parse(""), profile(false, false));
    assert_eq!(parse_opt(Some("")), profile(false, false));
    assert_eq!(parse_opt(None), profile(false, false));
}

#[test]
fn single_recognized_tokens_set_their_flag() {
    assert_eq!(parse("application/vnd.example.machine"), profile(true, false));
    assert_eq!(parse("application/vnd.example.human"), profile(false, true));
}

#[test]
fn unrecognized_tokens_are_ignored() {
    assert_eq!(parse("text/plain"), profile(false, false));
    assert_eq!(parse("application/json,text/html"), profile(false, false));
    assert_eq!(
        parse("text/plain,application/vnd.example.human"),
        profile(false, true)
    );
    assert_eq!(
        parse("application/vnd.example.machine,application/json"),
        profile(true, false)
    );
}

#[test]
fn both_tokens_set_both_flags() {
    assert_eq!(
        parse("application/vnd.example.machine,application/vnd.example.human"),
        profile(true, true)
    );
}

#[test]
fn matching_is_per_whole_token() {
    // A recognized token embedded in a longer token does not count.
    assert_eq!(parse("application/vnd.example.machinery"), profile(false, false));
    assert_eq!(parse("xapplication/vnd.example.machine"), profile(false, false));
    assert_eq!(
        parse("aaa,application/vnd.example.machine,bbb"),
        profile(true, false)
    );
}

#[test]
fn matching_is_exact_and_case_sensitive() {
    assert_eq!(parse("Application/vnd.example.machine"), profile(false, false));
    // Whitespace is not stripped: a token led by a space is a different token.
    assert_eq!(
        parse("application/vnd.example.machine, application/vnd.example.human"),
        profile(true, false)
    );
}

#[test]
fn arbitrary_input_is_accepted() {
    assert_eq!(parse(",,,"), profile(false, false));
    assert_eq!(parse("héllo wörld, ☃"), profile(false, false));
    assert_eq!(
        parse(",application/vnd.example.human,"),
        profile(false, true)
    );
}

#[test]
fn status_collapse_is_first_match_wins() {
    assert_eq!(profile(false, false).status(), Status::Absent);
    assert_eq!(profile(true, false).status(), Status::Machine);
    assert_eq!(profile(false, true).status(), Status::Human);
    assert_eq!(profile(true, true).status(), Status::Machine);
}
