use ztunnel::command::{help_text, parse_command, unknown_command_text, Command};

#[test]
fn commands_are_parsed() {
    assert_eq!(parse_command(None), Command::Proxy);
    assert_eq!(parse_command(Some("proxy")), Command::Proxy);
    assert_eq!(parse_command(Some("version")), Command::Version);
    assert_eq!(parse_command(Some("help")), Command::Help);
    assert_eq!(parse_command(Some("Proxy")), Command::Unknown("Proxy".to_string()));
    assert_eq!(parse_command(Some("")), Command::Unknown(String::new()));
}

#[test]
fn help_lists_the_commands() {
    assert_eq!(
        help_text("1.2.3"),
        "
Istio Ztunnel (1.2.3)

Commands:
proxy (default) - Start the ztunnel proxy
version         - Print the version of ztunnel
help            - Print commands and version of ztunnel"
    );
    assert_eq!(unknown_command_text("fly"), "unknown command: fly");
}
