use kitty_rc::CommandError;
use kitty_rc::DisableLigaturesCommand;
use kitty_rc::EnvCommand;
use kitty_rc::GetColorsCommand;
use kitty_rc::JsonValue;
use kitty_rc::KittenCommand;
use kitty_rc::LaunchCommand;
use kitty_rc::LoadConfigCommand;
use kitty_rc::ResizeOSWindowCommand;
use kitty_rc::RunCommand;
use kitty_rc::SetBackgroundImageCommand;
use kitty_rc::SetColorsCommand;
use kitty_rc::SetFontSizeCommand;
use kitty_rc::SetSpacingCommand;
use kitty_rc::SetTabColorCommand;
use kitty_rc::SetUserVarsCommand;
use kitty_rc::SignalChildCommand;
use kitty_rc::CloseTabCommand;
use kitty_rc::DetachTabCommand;
use kitty_rc::FocusTabCommand;
use kitty_rc::SetTabTitleCommand;

fn smap(entries: Vec<(&str, &str)>) -> Vec<(String, JsonValue)> {
    entries
        .into_iter()
        .map(|(k, v)| (k.to_string(), JsonValue::Str(v.to_string())))
        .collect()
}

#[test]
fn test_run_basic() {
    let cmd = RunCommand::new().build();
    assert!(cmd.is_ok());
    assert_eq!(cmd.unwrap().cmd, "run");
}

#[test]
fn test_run_with_options() {
    let cmd = RunCommand::new()
        .data("test data")
        .cmdline("bash")
        .allow_remote_control(true)
        .build();
    assert!(cmd.is_ok());
    assert_eq!(cmd.unwrap().cmd, "run");
}

#[test]
fn test_kitten_basic() {
    let cmd = KittenCommand::new().build();
    assert!(cmd.is_ok());
    assert_eq!(cmd.unwrap().cmd, "kitten");
}

#[test]
fn test_kitten_with_args() {
    let cmd = KittenCommand::new().args("diff").build();
    assert!(cmd.is_ok());
    assert_eq!(cmd.unwrap().cmd, "kitten");
}

#[test]
fn test_env_basic() {
    let cmd = EnvCommand::new(smap(vec![("PATH", "/usr/bin")])).build();
    assert!(cmd.is_ok());
    assert_eq!(cmd.unwrap().cmd, "env");
}

#[test]
fn test_env_empty() {
    let cmd = EnvCommand::new(Vec::new()).build();
    assert!(cmd.is_err());
    if let Err(CommandError::MissingParameter(field, cmd_name)) = cmd {
        assert_eq!(field, "env");
        assert_eq!(cmd_name, "env");
    } else {
        panic!("Expected MissingParameter error");
    }
}

#[test]
fn test_set_user_vars_basic() {
    let cmd = SetUserVarsCommand::new(vec!["var1".to_string(), "var2".to_string()]).build();
    assert!(cmd.is_ok());
    assert_eq!(cmd.unwrap().cmd, "set-user-vars");
}

#[test]
fn test_set_user_vars_empty() {
    let cmd = SetUserVarsCommand::new(vec![]).build();
    assert!(cmd.is_err());
    if let Err(CommandError::MissingParameter(field, cmd_name)) = cmd {
        assert_eq!(field, "var");
        assert_eq!(cmd_name, "set-user-vars");
    } else {
        panic!("Expected MissingParameter error");
    }
}

#[test]
fn test_load_config_basic() {
    let cmd = LoadConfigCommand::new(vec!["kitty.conf".to_string()]).build();
    assert!(cmd.is_ok());
    assert_eq!(cmd.unwrap().cmd, "load-config");
}

#[test]
fn test_load_config_empty() {
    let cmd = LoadConfigCommand::new(vec![]).build();
    assert!(cmd.is_err());
    if let Err(CommandError::MissingParameter(field, cmd_name)) = cmd {
        assert_eq!(field, "paths");
        assert_eq!(cmd_name, "load-config");
    } else {
        panic!("Expected MissingParameter error");
    }
}

#[test]
fn test_resize_os_window_basic() {
    let cmd = ResizeOSWindowCommand::new().build();
    assert!(cmd.is_ok());
    assert_eq!(cmd.unwrap().cmd, "resize-os-window");
}

#[test]
fn test_resize_os_window_with_options() {
    let cmd = ResizeOSWindowCommand::new().width(800).height(600).unit("px").build();
    assert!(cmd.is_ok());
    assert_eq!(cmd.unwrap().cmd, "resize-os-window");
}

#[test]
fn test_disable_ligatures_basic() {
    let cmd = DisableLigaturesCommand::new().build();
    assert!(cmd.is_ok());
    assert_eq!(cmd.unwrap().cmd, "disable-ligatures");
}

#[test]
fn test_disable_ligatures_with_options() {
    let cmd = DisableLigaturesCommand::new().strategy("never").all(true).build();
    assert!(cmd.is_ok());
    assert_eq!(cmd.unwrap().cmd, "disable-ligatures");
}

#[test]
fn test_signal_child_basic() {
    let cmd = SignalChildCommand::new(vec![9, 15]).build();
    assert!(cmd.is_ok());
    assert_eq!(cmd.unwrap().cmd, "signal-child");
}

#[test]
fn test_signal_child_empty() {
    let cmd = SignalChildCommand::new(vec![]).build();
    assert!(cmd.is_err());
    if let Err(CommandError::MissingParameter(field, cmd_name)) = cmd {
        assert_eq!(field, "signals");
        assert_eq!(cmd_name, "signal-child");
    } else {
        panic!("Expected MissingParameter error");
    }
}

#[test]
fn test_set_background_image_basic() {
    let cmd = SetBackgroundImageCommand::new("base64data").build();
    assert!(cmd.is_ok());
    assert_eq!(cmd.unwrap().cmd, "set-background-image");
}

#[test]
fn test_set_background_image_empty() {
    let cmd = SetBackgroundImageCommand::new("").build();
    assert!(cmd.is_err());
    if let Err(CommandError::MissingParameter(field, cmd_name)) = cmd {
        assert_eq!(field, "data");
        assert_eq!(cmd_name, "set-background-image");
    } else {
        panic!("Expected MissingParameter error");
    }
}

#[test]
fn test_set_background_image_with_options() {
    let cmd = SetBackgroundImageCommand::new("base64data").layout("tiled").all(true).build();
    assert!(cmd.is_ok());
    assert_eq!(cmd.unwrap().cmd, "set-background-image");
}

#[test]
fn test_set_colors_basic() {
    let cmd = SetColorsCommand::new(smap(vec![("foreground", "#ffffff")])).build();
    assert!(cmd.is_ok());
    assert_eq!(cmd.unwrap().cmd, "set-colors");
}

#[test]
fn test_set_colors_empty() {
    let cmd = SetColorsCommand::new(Vec::new()).build();
    assert!(cmd.is_err());
    if let Err(CommandError::MissingParameter(field, cmd_name)) = cmd {
        assert_eq!(field, "colors");
        assert_eq!(cmd_name, "set-colors");
    } else {
        panic!("Expected MissingParameter error");
    }
}

#[test]
fn test_set_colors_with_options() {
    let cmd = SetColorsCommand::new(smap(vec![("background", "#000000")]))
        .all(true)
        .configured(true)
        .build();
    assert!(cmd.is_ok());
    assert_eq!(cmd.unwrap().cmd, "set-colors");
}

#[test]
fn test_set_font_size_basic() {
    let cmd = SetFontSizeCommand::new(14).build();
    assert!(cmd.is_ok());
    assert_eq!(cmd.unwrap().cmd, "set-font-size");
}

#[test]
fn test_set_font_size_with_options() {
    let cmd = SetFontSizeCommand::new(16).all(true).increment_op("set").build();
    assert!(cmd.is_ok());
    assert_eq!(cmd.unwrap().cmd, "set-font-size");
}

#[test]
fn test_set_spacing_basic() {
    let settings = vec![("padding".to_string(), JsonValue::Int(10))];
    let cmd = SetSpacingCommand::new(settings).build();
    assert!(cmd.is_ok());
    assert_eq!(cmd.unwrap().cmd, "set-spacing");
}

#[test]
fn test_set_spacing_empty() {
    let cmd = SetSpacingCommand::new(Vec::new()).build();
    assert!(cmd.is_err());
    if let Err(CommandError::MissingParameter(field, cmd_name)) = cmd {
        assert_eq!(field, "settings");
        assert_eq!(cmd_name, "set-spacing");
    } else {
        panic!("Expected MissingParameter error");
    }
}

#[test]
fn test_set_spacing_with_options() {
    let settings = vec![("margin".to_string(), JsonValue::Int(5))];
    let cmd = SetSpacingCommand::new(settings).all(true).configured(true).build();
    assert!(cmd.is_ok());
    assert_eq!(cmd.unwrap().cmd, "set-spacing");
}

#[test]
fn test_set_tab_color_basic() {
    let cmd = SetTabColorCommand::new(smap(vec![("active_tab_foreground", "#ffffff")])).build();
    assert!(cmd.is_ok());
    assert_eq!(cmd.unwrap().cmd, "set-tab-color");
}

#[test]
fn test_set_tab_color_empty() {
    let cmd = SetTabColorCommand::new(Vec::new()).build();
    assert!(cmd.is_err());
    if let Err(CommandError::MissingParameter(field, cmd_name)) = cmd {
        assert_eq!(field, "colors");
        assert_eq!(cmd_name, "set-tab-color");
    } else {
        panic!("Expected MissingParameter error");
    }
}

#[test]
fn test_set_tab_color_with_options() {
    let cmd = SetTabColorCommand::new(smap(vec![("active_tab_background", "#000000")]))
        .self_tab(true)
        .build();
    assert!(cmd.is_ok());
    assert_eq!(cmd.unwrap().cmd, "set-tab-color");
}

#[test]
fn test_get_colors_basic() {
    let cmd = GetColorsCommand::new().build();
    assert!(cmd.is_ok());
    assert_eq!(cmd.unwrap().cmd, "get-colors");
}

#[test]
fn test_get_colors_with_options() {
    let cmd = GetColorsCommand::new().match_spec("id:1").configured(true).build();
    assert!(cmd.is_ok());
    assert_eq!(cmd.unwrap().cmd, "get-colors");
}

#[test]
fn test_focus_tab_basic() {
    let cmd = FocusTabCommand::new().build();
    assert!(cmd.is_ok());
    assert_eq!(cmd.unwrap().cmd, "focus-tab");
}

#[test]
fn test_focus_tab_with_match() {
    let cmd = FocusTabCommand::new().match_spec("id:0").build();
    assert!(cmd.is_ok());
    let msg = cmd.unwrap();
    assert_eq!(msg.cmd, "focus-tab");
    assert!(msg.payload.is_some());
}

#[test]
fn test_set_tab_title() {
    let cmd = SetTabTitleCommand::new("My Tab").build();
    assert!(cmd.is_ok());
    let msg = cmd.unwrap();
    assert_eq!(msg.cmd, "set-tab-title");
    assert!(msg.payload.is_some());
}

#[test]
fn test_set_tab_title_empty() {
    let cmd = SetTabTitleCommand::new("").build();
    assert!(cmd.is_err());
    if let Err(CommandError::MissingParameter(field, cmd_name)) = cmd {
        assert_eq!(field, "title");
        assert_eq!(cmd_name, "set-tab-title");
    } else {
        panic!("Expected MissingParameter error");
    }
}

#[test]
fn test_set_tab_title_with_match() {
    let cmd = SetTabTitleCommand::new("New Title").match_spec("id:1").build();
    assert!(cmd.is_ok());
    assert_eq!(cmd.unwrap().cmd, "set-tab-title");
}

#[test]
fn test_close_tab_basic() {
    let cmd = CloseTabCommand::new().build();
    assert!(cmd.is_ok());
    assert_eq!(cmd.unwrap().cmd, "close-tab");
}

#[test]
fn test_close_tab_with_match() {
    let cmd = CloseTabCommand::new().match_spec("id:2").build();
    assert!(cmd.is_ok());
    assert_eq!(cmd.unwrap().cmd, "close-tab");
}

#[test]
fn test_close_tab_self() {
    let cmd = CloseTabCommand::new().self_tab(true).build();
    assert!(cmd.is_ok());
    assert_eq!(cmd.unwrap().cmd, "close-tab");
}

#[test]
fn test_close_tab_ignore_no_match() {
    let cmd = CloseTabCommand::new().ignore_no_match(true).build();
    assert!(cmd.is_ok());
    assert_eq!(cmd.unwrap().cmd, "close-tab");
}

#[test]
fn test_detach_tab_basic() {
    let cmd = DetachTabCommand::new().build();
    assert!(cmd.is_ok());
    assert_eq!(cmd.unwrap().cmd, "detach-tab");
}

#[test]
fn test_detach_tab_with_match() {
    let cmd = DetachTabCommand::new().match_spec("id:0").build();
    assert!(cmd.is_ok());
    assert_eq!(cmd.unwrap().cmd, "detach-tab");
}

#[test]
fn test_detach_tab_with_target_tab() {
    let cmd = DetachTabCommand::new().target_tab("id:1").build();
    assert!(cmd.is_ok());
    assert_eq!(cmd.unwrap().cmd, "detach-tab");
}

#[test]
fn test_detach_tab_self() {
    let cmd = DetachTabCommand::new().self_tab(true).build();
    assert!(cmd.is_ok());
    assert_eq!(cmd.unwrap().cmd, "detach-tab");
}

#[test]
fn test_detach_tab_all_options() {
    let cmd = DetachTabCommand::new()
        .match_spec("id:0")
        .target_tab("id:1")
        .self_tab(true)
        .build();
    assert!(cmd.is_ok());
    assert_eq!(cmd.unwrap().cmd, "detach-tab");
}

#[test]
fn test_launch_basic() {
    let cmd = LaunchCommand::new().build();
    assert!(cmd.is_ok());
    assert_eq!(cmd.unwrap().cmd, "launch");
}

#[test]
fn test_launch_with_options() {
    let cmd = LaunchCommand::new()
        .args("bash")
        .window_title("Test")
        .cwd("/home")
        .keep_focus(true)
        .build();
    assert!(cmd.is_ok());
    let msg = cmd.unwrap();
    assert_eq!(msg.cmd, "launch");
    assert_eq!(
        msg.payload,
        Some(kitty_rc::JsonValue::Obj(vec![
            ("args".to_string(), kitty_rc::JsonValue::Str("bash".to_string())),
            ("window_title".to_string(), kitty_rc::JsonValue::Str("Test".to_string())),
            ("cwd".to_string(), kitty_rc::JsonValue::Str("/home".to_string())),
            ("keep_focus".to_string(), kitty_rc::JsonValue::Bool(true)),
        ]))
    );
}
