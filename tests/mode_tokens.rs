use systemd_bus::mode::Mode;

#[test]
fn mode_tokens_match_the_wire_table() {
    assert_eq!(Mode::Replace.token(), "replace");
    assert_eq!(Mode::Isolate.token(), "isolate");
    assert_eq!(Mode::IgnoreDependencies.token(), "ignore-dependencies");
}

#[test]
fn remaining_mode_tokens() {
    assert_eq!(Mode::Fail.token(), "fail");
    assert_eq!(Mode::IgnoreRequirements.token(), "ignore-requirements");
}
