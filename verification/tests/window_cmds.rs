use kitty_rc::CommandError;
use kitty_rc::CloseWindowCommand;
use kitty_rc::CreateMarkerCommand;
use kitty_rc::DetachWindowCommand;
use kitty_rc::FocusWindowCommand;
use kitty_rc::GetTextCommand;
use kitty_rc::LsCommand;
use kitty_rc::NewWindowCommand;
use kitty_rc::RemoveMarkerCommand;
use kitty_rc::ResizeWindowCommand;
use kitty_rc::ScrollWindowCommand;
use kitty_rc::SelectWindowCommand;
use kitty_rc::SendKeyCommand;
use kitty_rc::SendTextCommand;
use kitty_rc::SetWindowTitleCommand;

#[test]
fn test_ls_basic() {
    let cmd = LsCommand::new().build();
    assert!(cmd.is_ok());
    assert_eq!(cmd.unwrap().cmd, "ls");
}

#[test]
fn test_ls_with_options() {
    let cmd = LsCommand::new().all_env_vars(true).self_window(true).build();
    assert!(cmd.is_ok());
    assert_eq!(cmd.unwrap().cmd, "ls");
}

#[test]
fn test_ls_with_match() {
    let cmd = LsCommand::new().match_spec("id:1").build();
    assert!(cmd.is_ok());
    assert_eq!(cmd.unwrap().cmd, "ls");
}

#[test]
fn test_send_text_basic() {
    let cmd = SendTextCommand::new("text:hello").build();
    assert!(cmd.is_ok());
    assert_eq!(cmd.unwrap().cmd, "send-text");
}

#[test]
fn test_send_text_empty() {
    let cmd = SendTextCommand::new("").build();
    assert!(cmd.is_err());
    if let Err(CommandError::MissingParameter(field, cmd_name)) = cmd {
        assert_eq!(field, "data");
        assert_eq!(cmd_name, "send-text");
    } else {
        panic!("Expected MissingParameter error");
    }
}

#[test]
fn test_send_text_with_options() {
    let cmd = SendTextCommand::new("text:test").match_spec("id:1").all(true).build();
    assert!(cmd.is_ok());
    assert_eq!(cmd.unwrap().cmd, "send-text");
}

#[test]
fn test_send_key_basic() {
    let cmd = SendKeyCommand::new("ctrl+c").build();
    assert!(cmd.is_ok());
    assert_eq!(cmd.unwrap().cmd, "send-key");
}

#[test]
fn test_send_key_empty() {
    let cmd = SendKeyCommand::new("").build();
    assert!(cmd.is_err());
    if let Err(CommandError::MissingParameter(field, cmd_name)) = cmd {
        assert_eq!(field, "keys");
        assert_eq!(cmd_name, "send-key");
    } else {
        panic!("Expected MissingParameter error");
    }
}

#[test]
fn test_send_key_with_options() {
    let cmd = SendKeyCommand::new("alt+f4").match_spec("id:1").all(true).build();
    assert!(cmd.is_ok());
    assert_eq!(cmd.unwrap().cmd, "send-key");
}

#[test]
fn test_close_window_basic() {
    let cmd = CloseWindowCommand::new().build();
    assert!(cmd.is_ok());
    assert_eq!(cmd.unwrap().cmd, "close-window");
}

#[test]
fn test_close_window_with_options() {
    let cmd = CloseWindowCommand::new()
        .match_spec("id:1")
        .self_window(true)
        .ignore_no_match(true)
        .build();
    assert!(cmd.is_ok());
    assert_eq!(cmd.unwrap().cmd, "close-window");
}

#[test]
fn test_resize_window_basic() {
    let cmd = ResizeWindowCommand::new().build();
    assert!(cmd.is_ok());
    assert_eq!(cmd.unwrap().cmd, "resize-window");
}

#[test]
fn test_resize_window_with_options() {
    let cmd = ResizeWindowCommand::new()
        .match_spec("id:1")
        .increment(5)
        .axis("vertical")
        .build();
    assert!(cmd.is_ok());
    assert_eq!(cmd.unwrap().cmd, "resize-window");
}

#[test]
fn test_focus_window_basic() {
    let cmd = FocusWindowCommand::new().build();
    assert!(cmd.is_ok());
    assert_eq!(cmd.unwrap().cmd, "focus-window");
}

#[test]
fn test_focus_window_with_match() {
    let cmd = FocusWindowCommand::new().match_spec("id:1").build();
    assert!(cmd.is_ok());
    assert_eq!(cmd.unwrap().cmd, "focus-window");
}

#[test]
fn test_select_window_basic() {
    let cmd = SelectWindowCommand::new().build();
    assert!(cmd.is_ok());
    assert_eq!(cmd.unwrap().cmd, "select-window");
}

#[test]
fn test_select_window_with_options() {
    let cmd = SelectWindowCommand::new()
        .match_spec("id:1")
        .title("Select Me")
        .exclude_active(true)
        .reactivate_prev_tab(true)
        .build();
    assert!(cmd.is_ok());
    assert_eq!(cmd.unwrap().cmd, "select-window");
}

#[test]
fn test_new_window_basic() {
    let cmd = NewWindowCommand::new().build();
    assert!(cmd.is_ok());
    assert_eq!(cmd.unwrap().cmd, "new-window");
}

#[test]
fn test_new_window_with_options() {
    let cmd = NewWindowCommand::new()
        .args("bash")
        .title("My Window")
        .cwd("/home/user")
        .keep_focus(true)
        .window_type("overlay")
        .new_tab(true)
        .tab_title("New Tab")
        .build();
    assert!(cmd.is_ok());
    assert_eq!(cmd.unwrap().cmd, "new-window");
}

#[test]
fn test_detach_window_basic() {
    let cmd = DetachWindowCommand::new().build();
    assert!(cmd.is_ok());
    assert_eq!(cmd.unwrap().cmd, "detach-window");
}

#[test]
fn test_detach_window_with_options() {
    let cmd = DetachWindowCommand::new()
        .match_spec("id:1")
        .target_tab("id:2")
        .self_window(true)
        .stay_in_tab(true)
        .build();
    assert!(cmd.is_ok());
    assert_eq!(cmd.unwrap().cmd, "detach-window");
}

#[test]
fn test_set_window_title_basic() {
    let cmd = SetWindowTitleCommand::new("My Title").build();
    assert!(cmd.is_ok());
    assert_eq!(cmd.unwrap().cmd, "set-window-title");
}

#[test]
fn test_set_window_title_empty() {
    let cmd = SetWindowTitleCommand::new("").build();
    assert!(cmd.is_err());
    if let Err(CommandError::MissingParameter(field, cmd_name)) = cmd {
        assert_eq!(field, "title");
        assert_eq!(cmd_name, "set-window-title");
    } else {
        panic!("Expected MissingParameter error");
    }
}

#[test]
fn test_set_window_title_with_options() {
    let cmd = SetWindowTitleCommand::new("New Title")
        .match_spec("id:1")
        .temporary(true)
        .build();
    assert!(cmd.is_ok());
    assert_eq!(cmd.unwrap().cmd, "set-window-title");
}

#[test]
fn test_get_text_basic() {
    let cmd = GetTextCommand::new().build();
    assert!(cmd.is_ok());
    assert_eq!(cmd.unwrap().cmd, "get-text");
}

#[test]
fn test_get_text_with_options() {
    let cmd = GetTextCommand::new()
        .match_spec("id:1")
        .extent("all")
        .ansi(true)
        .cursor(true)
        .wrap_markers(true)
        .clear_selection(true)
        .self_window(true)
        .build();
    assert!(cmd.is_ok());
    assert_eq!(cmd.unwrap().cmd, "get-text");
}

#[test]
fn test_scroll_window_basic() {
    let cmd = ScrollWindowCommand::new(5).build();
    assert!(cmd.is_ok());
    assert_eq!(cmd.unwrap().cmd, "scroll-window");
}

#[test]
fn test_scroll_window_with_match() {
    let cmd = ScrollWindowCommand::new(-5).match_spec("id:1").build();
    assert!(cmd.is_ok());
    assert_eq!(cmd.unwrap().cmd, "scroll-window");
}

#[test]
fn test_create_marker_basic() {
    let cmd = CreateMarkerCommand::new().build();
    assert!(cmd.is_ok());
    assert_eq!(cmd.unwrap().cmd, "create-marker");
}

#[test]
fn test_create_marker_with_options() {
    let cmd = CreateMarkerCommand::new()
        .match_spec("id:1")
        .self_window(true)
        .marker_spec("marker1")
        .build();
    assert!(cmd.is_ok());
    assert_eq!(cmd.unwrap().cmd, "create-marker");
}

#[test]
fn test_remove_marker_basic() {
    let cmd = RemoveMarkerCommand::new().build();
    assert!(cmd.is_ok());
    assert_eq!(cmd.unwrap().cmd, "remove-marker");
}

#[test]
fn test_remove_marker_with_options() {
    let cmd = RemoveMarkerCommand::new().match_spec("id:1").self_window(true).build();
    assert!(cmd.is_ok());
    assert_eq!(cmd.unwrap().cmd, "remove-marker");
}
