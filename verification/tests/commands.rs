use kitty_rc::ActionCommand;
use kitty_rc::CommandBuilder;
use kitty_rc::CommandError;
use kitty_rc::JsonValue;
use kitty_rc::commands::action::ClearTerminalAction;
use kitty_rc::commands::action::CopyToClipboardAction;
use kitty_rc::commands::action::CreateMarkerAction;
use kitty_rc::commands::action::GotoLayoutAction;
use kitty_rc::commands::action::GotoTabAction;
use kitty_rc::commands::action::KittenAction;
use kitty_rc::commands::action::NewTabAction;
use kitty_rc::commands::action::NewWindowAction;
use kitty_rc::commands::action::NthWindowAction;
use kitty_rc::commands::action::PasteAction;
use kitty_rc::commands::action::QuitAction;
use kitty_rc::commands::action::ScrollLineUpAction;
use kitty_rc::commands::action::SendKeyAction;
use kitty_rc::commands::action::SendTextAction;
use kitty_rc::commands::action::SignalChildAction;
use kitty_rc::GotoLayoutCommand;
use kitty_rc::LastUsedLayoutCommand;
use kitty_rc::SetEnabledLayoutsCommand;

fn omap(entries: Vec<(&str, &str)>) -> Vec<(String, JsonValue)> {
    entries
        .into_iter()
        .map(|(k, v)| (k.to_string(), JsonValue::Str(v.to_string())))
        .collect()
}

#[test]
fn test_builder_basic() {
    let cmd = CommandBuilder::new("ls").build();
    assert_eq!(cmd.cmd, "ls");
    assert_eq!(cmd.version, vec![0, 43, 1]);
}

#[test]
fn test_builder_with_options() {
    let cmd = CommandBuilder::new("send-text")
        .version(vec![0, 15, 0])
        .no_response(true)
        .payload(JsonValue::Obj(omap(vec![("data", "text:hello")])))
        .build();
    assert_eq!(cmd.cmd, "send-text");
    assert_eq!(cmd.version, vec![0, 15, 0]);
    assert_eq!(cmd.no_response, Some(true));
    assert!(cmd.payload.is_some());
}

#[test]
fn test_builder_to_encoded() {
    let cmd = CommandBuilder::new("ls").build();
    let encoded = cmd.encode().unwrap();
    assert!(encoded.starts_with(b"\x1bP@kitty-cmd"));
    assert!(encoded.ends_with(b"\x1b\\"));
}

#[test]
fn test_action_command_basic() {
    let cmd = ActionCommand::new("quit").build();
    assert!(cmd.is_ok());
    let msg = cmd.unwrap();
    assert_eq!(msg.cmd, "send_key");
}

#[test]
fn test_action_command_with_args() {
    let cmd = ActionCommand::new("goto_tab").arg("1").build();
    assert!(cmd.is_ok());
    let msg = cmd.unwrap();
    assert!(msg.payload.is_some());
}

#[test]
fn test_quit_action() {
    let cmd = QuitAction::new().build();
    assert!(cmd.is_ok());
    let msg = cmd.unwrap();
    assert_eq!(msg.cmd, "send_key");
}

#[test]
fn test_new_tab_action() {
    assert!(NewTabAction::new().build().is_ok());
}

#[test]
fn test_goto_tab_action() {
    let cmd = GotoTabAction::new(5).build();
    assert!(cmd.is_ok());
    let msg = cmd.unwrap();
    assert!(msg.payload.is_some());
}

#[test]
fn test_new_window_action() {
    assert!(NewWindowAction::new().build().is_ok());
}

#[test]
fn test_nth_window_action() {
    assert!(NthWindowAction::new(3).build().is_ok());
}

#[test]
fn test_copy_to_clipboard_action() {
    assert!(CopyToClipboardAction::new().build().is_ok());
}

#[test]
fn test_paste_action() {
    assert!(PasteAction::new().build().is_ok());
}

#[test]
fn test_goto_layout_action() {
    assert!(GotoLayoutAction::new("tall").build().is_ok());
}

#[test]
fn test_scroll_line_up_action() {
    assert!(ScrollLineUpAction::new().build().is_ok());
}

#[test]
fn test_create_marker_action() {
    assert!(CreateMarkerAction::new().build().is_ok());
}

#[test]
fn test_send_key_action() {
    assert!(SendKeyAction::new("ctrl+c").build().is_ok());
}

#[test]
fn test_send_text_action() {
    assert!(SendTextAction::new("hello").build().is_ok());
}

#[test]
fn test_kitten_action() {
    assert!(KittenAction::new("hints").build().is_ok());
}

#[test]
fn test_signal_child_action() {
    assert!(SignalChildAction::new("SIGTERM").build().is_ok());
}

#[test]
fn test_clear_terminal_action() {
    assert!(ClearTerminalAction::new("reset").build().is_ok());
}

#[test]
fn test_goto_layout() {
    let cmd = GotoLayoutCommand::new("tall").build();
    assert!(cmd.is_ok());
    let msg = cmd.unwrap();
    assert_eq!(msg.cmd, "goto-layout");
    assert!(msg.payload.is_some());
}

#[test]
fn test_goto_layout_empty() {
    let cmd = GotoLayoutCommand::new("").build();
    assert!(cmd.is_err());
    if let Err(CommandError::MissingParameter(field, cmd_name)) = cmd {
        assert_eq!(field, "layout");
        assert_eq!(cmd_name, "goto-layout");
    } else {
        panic!("Expected MissingParameter error");
    }
}

#[test]
fn test_goto_layout_with_match() {
    let cmd = GotoLayoutCommand::new("grid").match_spec("id:0").build();
    assert!(cmd.is_ok());
    assert_eq!(cmd.unwrap().cmd, "goto-layout");
}

#[test]
fn test_set_enabled_layouts() {
    let layouts = vec!["tall".to_string(), "grid".to_string()];
    let cmd = SetEnabledLayoutsCommand::new(layouts).build();
    assert!(cmd.is_ok());
    let msg = cmd.unwrap();
    assert_eq!(msg.cmd, "set-enabled-layouts");
    assert!(msg.payload.is_some());
}

#[test]
fn test_set_enabled_layouts_empty() {
    let cmd = SetEnabledLayoutsCommand::new(vec![]).build();
    assert!(cmd.is_err());
    if let Err(CommandError::MissingParameter(field, cmd_name)) = cmd {
        assert_eq!(field, "layouts");
        assert_eq!(cmd_name, "set-enabled-layouts");
    } else {
        panic!("Expected MissingParameter error");
    }
}

#[test]
fn test_set_enabled_layouts_with_match() {
    let layouts = vec!["stack".to_string()];
    let cmd = SetEnabledLayoutsCommand::new(layouts).match_spec("id:1").build();
    assert!(cmd.is_ok());
    assert_eq!(cmd.unwrap().cmd, "set-enabled-layouts");
}

#[test]
fn test_set_enabled_layouts_configured() {
    let layouts = vec!["tall".to_string()];
    let cmd = SetEnabledLayoutsCommand::new(layouts).configured(true).build();
    assert!(cmd.is_ok());
    assert_eq!(cmd.unwrap().cmd, "set-enabled-layouts");
}

#[test]
fn test_last_used_layout() {
    let cmd = LastUsedLayoutCommand::new().build();
    assert!(cmd.is_ok());
    assert_eq!(cmd.unwrap().cmd, "last-used-layout");
}

#[test]
fn test_last_used_layout_with_match() {
    let cmd = LastUsedLayoutCommand::new().match_spec("id:0").build();
    assert!(cmd.is_ok());
    assert_eq!(cmd.unwrap().cmd, "last-used-layout");
}

#[test]
fn test_last_used_layout_all() {
    let cmd = LastUsedLayoutCommand::new().all(true).build();
    assert!(cmd.is_ok());
    assert_eq!(cmd.unwrap().cmd, "last-used-layout");
}

#[test]
fn test_ls_payload_exact() {
    let msg = kitty_rc::LsCommand::new()
        .match_spec("id:1")
        .self_window(true)
        .build()
        .unwrap();
    assert_eq!(
        msg.payload,
        Some(JsonValue::Obj(vec![
            ("match".to_string(), JsonValue::Str("id:1".to_string())),
            ("self".to_string(), JsonValue::Bool(true)),
        ]))
    );
}
