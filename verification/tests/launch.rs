use argvus_calendar::ipc::{IpcCommand, IpcMessage};
use argvus_calendar::launch::{
    click_position, launch_plan, needs_pointer, opens_popup, CliCommand, LaunchPlan, PopupCommand,
};

#[test]
fn popup_commands_use_the_fixed_click_position() {
    for command in [None, Some(CliCommand::Toggle), Some(CliCommand::Show)] {
        let opens = opens_popup(&command);
        assert!(opens);
        assert!(!needs_pointer(opens, Some(120), Some(28)));
        assert_eq!(click_position(opens, Some(120), Some(28), Some((1, 1))), Some((120, 28)));
        assert!(needs_pointer(opens, Some(120), None));
        assert_eq!(click_position(opens, Some(120), None, Some((1, 1))), Some((1, 1)));
    }
    let hide = Some(CliCommand::Hide);
    assert!(!opens_popup(&hide));
    assert_eq!(click_position(false, Some(120), Some(28), Some((1, 1))), None);
}

#[test]
fn each_command_has_its_plan() {
    match launch_plan(None, Some((3, 4))) {
        LaunchPlan::Popup { message, start } => {
            assert_eq!(message, IpcMessage { command: IpcCommand::Toggle, position: Some((3, 4)) });
            assert_eq!(start, PopupCommand::Toggle);
        }
        other => panic!("unexpected {other:?}"),
    }
    match launch_plan(Some(CliCommand::Show), None) {
        LaunchPlan::Popup { message, start } => {
            assert_eq!(message.command, IpcCommand::Show);
            assert_eq!(start, PopupCommand::Show);
        }
        other => panic!("unexpected {other:?}"),
    }
    match launch_plan(Some(CliCommand::Reload), Some((1, 2))) {
        LaunchPlan::Notify { message, nothing_running } => {
            assert_eq!(message, IpcMessage { command: IpcCommand::ReloadTheme, position: None });
            assert_eq!(nothing_running, "argvus-calendar: no running instance to reload");
        }
        other => panic!("unexpected {other:?}"),
    }
    match launch_plan(Some(CliCommand::Hide), None) {
        LaunchPlan::Notify { nothing_running, .. } => {
            assert_eq!(nothing_running, "argvus-calendar: no running instance to hide")
        }
        other => panic!("unexpected {other:?}"),
    }
    assert!(matches!(
        launch_plan(Some(CliCommand::Export("/tmp/x.ics".to_string())), None),
        LaunchPlan::Export(f) if f == "/tmp/x.ics"
    ));
    assert!(matches!(launch_plan(Some(CliCommand::Service), None), LaunchPlan::Service));
}
