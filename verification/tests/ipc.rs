use argvus_calendar::ipc::{IpcCommand, IpcMessage};

#[test]
fn command_round_trip() {
    for command in [
        IpcCommand::Toggle,
        IpcCommand::Show,
        IpcCommand::Hide,
        IpcCommand::ReloadTheme,
        IpcCommand::ReloadConfig,
    ] {
        let message = IpcMessage {
            command,
            position: Some((123, 456)),
        };
        assert_eq!(IpcMessage::parse(&message.as_str()), Some(message));
    }
    assert_eq!(IpcCommand::parse("reload"), Some(IpcCommand::ReloadTheme));
    assert_eq!(
        IpcCommand::parse("reload-config"),
        Some(IpcCommand::ReloadConfig)
    );
    assert_eq!(IpcCommand::parse("unknown"), None);
}

#[test]
fn position_is_optional_for_backward_compatibility() {
    let message = IpcMessage {
        command: IpcCommand::Toggle,
        position: None,
    };
    assert_eq!(IpcMessage::parse(&message.as_str()), Some(message));
    assert_eq!(
        IpcMessage::parse("toggle 12 34"),
        Some(IpcMessage {
            command: IpcCommand::Toggle,
            position: Some((12, 34)),
        })
    );
    assert_eq!(IpcMessage::parse("garbage"), None);
}

#[test]
fn messages_are_written_as_words() {
    let message = IpcMessage {
        command: IpcCommand::Show,
        position: Some((-5, 28)),
    };
    assert_eq!(message.as_str(), "show -5 28");
    assert_eq!(IpcCommand::Hide.as_str(), "hide");
    assert_eq!(
        IpcMessage::parse("  show   7\t9 extra"),
        Some(IpcMessage {
            command: IpcCommand::Show,
            position: Some((7, 9)),
        })
    );
    // An unreadable position is dropped, the command is kept.
    assert_eq!(
        IpcMessage::parse("hide x 9"),
        Some(IpcMessage {
            command: IpcCommand::Hide,
            position: None,
        })
    );
}
