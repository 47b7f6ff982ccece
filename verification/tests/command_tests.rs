use nitrocli::command::Command;

#[test]
fn parse_recognizes_the_four_names() {
    assert_eq!(Command::parse("clear"), Some(Command::Clear));
    assert_eq!(Command::parse("close"), Some(Command::Close));
    assert_eq!(Command::parse("open"), Some(Command::Open));
    assert_eq!(Command::parse("status"), Some(Command::Status));
}

#[test]
fn parse_name_round_trips() {
    for name in ["clear", "close", "open", "status"] {
        let command = Command::parse(name).unwrap();
        assert_eq!(command.name(), name);
    }
}

#[test]
fn parse_rejects_anything_else() {
    assert_eq!(Command::parse(""), None);
    assert_eq!(Command::parse("Open"), None);
    assert_eq!(Command::parse("status "), None);
    assert_eq!(Command::parse("statu"), None);
    assert_eq!(Command::parse("closes"), None);
    assert_eq!(Command::parse("--help"), None);
    assert_eq!(Command::parse("nitrocli"), None);
}

#[test]
fn parse_is_pure() {
    for name in ["clear", "close", "open", "status", "bogus"] {
        assert_eq!(Command::parse(name), Command::parse(name));
    }
}

#[test]
fn invocation_prefixes_the_tool_name() {
    assert_eq!(Command::Clear.invocation(), "nitrocli clear");
    assert_eq!(Command::Close.invocation(), "nitrocli close");
    assert_eq!(Command::Open.invocation(), "nitrocli open");
    assert_eq!(Command::Status.invocation(), "nitrocli status");
}
