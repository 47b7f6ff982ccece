use nitrocli::command::Command;
use nitrocli::dispatch::classify;
use nitrocli::dispatch::complete;
use nitrocli::dispatch::parse_arguments;
use nitrocli::dispatch::DeviceOp;
use nitrocli::dispatch::Effect;
use nitrocli::dispatch::Error;
use nitrocli::dispatch::ParseOutcome;

fn tokens(words: &[&str]) -> Vec<String> {
    words.iter().map(|w| w.to_string()).collect()
}

#[test]
fn parse_arguments_selects_the_command() {
    let (command, args) = parse_arguments(tokens(&["status"])).unwrap();
    assert_eq!(command, Command::Status);
    assert_eq!(args, vec!["nitrocli status".to_string()]);
}

#[test]
fn parse_arguments_keeps_the_remaining_tokens() {
    let (command, args) = parse_arguments(tokens(&["open", "--foo", "bar"])).unwrap();
    assert_eq!(command, Command::Open);
    assert_eq!(
        args,
        vec![
            "nitrocli open".to_string(),
            "--foo".to_string(),
            "bar".to_string(),
        ]
    );
}

#[test]
fn parse_arguments_requires_a_command() {
    assert_eq!(parse_arguments(Vec::new()), None);
}

#[test]
fn parse_arguments_rejects_an_unknown_command() {
    assert_eq!(parse_arguments(tokens(&["frobnicate"])), None);
    assert_eq!(parse_arguments(tokens(&["Status"])), None);
}

#[test]
fn execute_requests_the_matching_device_operation() {
    assert_eq!(
        Command::Clear.execute(tokens(&["nitrocli clear"])),
        Ok(Effect::Device(DeviceOp::ClearCachedPassphrase))
    );
    assert_eq!(
        Command::Close.execute(tokens(&["nitrocli close"])),
        Ok(Effect::Device(DeviceOp::CloseVolume))
    );
    assert_eq!(
        Command::Open.execute(tokens(&["nitrocli open"])),
        Ok(Effect::Device(DeviceOp::OpenVolume))
    );
    assert_eq!(
        Command::Status.execute(tokens(&["nitrocli status"])),
        Ok(Effect::Device(DeviceOp::QueryStatus))
    );
}

#[test]
fn execute_rejects_an_unknown_flag() {
    assert_eq!(
        Command::Open.execute(tokens(&["nitrocli open", "--bogus"])),
        Err(Error::ArgparseError)
    );
}

#[test]
fn execute_rejects_a_stray_positional() {
    assert_eq!(
        Command::Status.execute(tokens(&["nitrocli status", "extra"])),
        Err(Error::ArgparseError)
    );
}

#[test]
fn execute_treats_help_as_success() {
    assert_eq!(
        Command::Clear.execute(tokens(&["nitrocli clear", "-h"])),
        Ok(Effect::Help)
    );
    assert_eq!(
        Command::Clear.execute(tokens(&["nitrocli clear", "--help"])),
        Ok(Effect::Help)
    );
}

#[test]
fn classify_reads_the_return_code() {
    assert_eq!(classify(Ok(())), ParseOutcome::Parsed);
    assert_eq!(classify(Err(0)), ParseOutcome::HelpShown);
    assert_eq!(classify(Err(2)), ParseOutcome::Failed);
}

#[test]
fn complete_translates_each_outcome() {
    assert_eq!(
        complete(ParseOutcome::Parsed, DeviceOp::QueryStatus),
        Ok(Effect::Device(DeviceOp::QueryStatus))
    );
    assert_eq!(complete(ParseOutcome::HelpShown, DeviceOp::QueryStatus), Ok(Effect::Help));
    assert_eq!(
        complete(ParseOutcome::Failed, DeviceOp::QueryStatus),
        Err(Error::ArgparseError)
    );
}
