//! Builders for key-mappable actions, each sent through the `send_key`
//! command with the action name and its arguments as payload.
use crate::command::push_entry;
use crate::error::CommandError;
use crate::json::JsonValue;
use crate::json::SpecJson;
use crate::json::jv_entry_views;
use crate::json::jv_views;
use crate::json::lemma_jv_entry_views_index;
use crate::json::lemma_jv_views_index;
use crate::json::lemma_jv_views_push;
use crate::protocol::KittyMessage;
use vstd::prelude::*;
use vstd::string::StringExecFns;

verus! {

/// The version the action channel speaks.
pub open spec fn action_version() -> Seq<u32> {
    seq![0u32, 14u32, 2u32]
}

/// A generic key-mappable action: its name and its arguments.
pub struct ActionCommand {
    pub action: String,
    pub args: Vec<String>,
}

/// The string arguments of an action, as JSON values.
pub open spec fn action_args_json(v: Seq<String>) -> Seq<SpecJson> {
    Seq::new(v.len(), |i: int| SpecJson::Str(v[i]@))
}

/// The payload members an action envelope carries.
pub open spec fn spec_action_entries(c: ActionCommand) -> Seq<(Seq<char>, SpecJson)> {
    seq![("action"@, SpecJson::Str(c.action@))] + (if c.args@.len() > 0 {
        seq![("args"@, SpecJson::Arr(action_args_json(c.args@)))]
    } else {
        Seq::<(Seq<char>, SpecJson)>::empty()
    })
}

impl ActionCommand {
    pub fn new(action: &str) -> (r: ActionCommand)
        ensures
            r.action@ == action@,
            r.args@.len() == 0,
    {
        ActionCommand { action: String::from_str(action), args: Vec::new() }
    }

    /// Appends one argument.
    pub fn arg(self, arg: &str) -> (r: ActionCommand)
        ensures
            r.action == self.action,
            r.args@.len() == self.args@.len() + 1,
            r.args@[r.args@.len() - 1]@ == arg@,
            forall|i: int| 0 <= i < self.args@.len() ==> r.args@[i] == self.args@[i],
    {
        let mut args = self.args;
        args.push(String::from_str(arg));
        ActionCommand { action: self.action, args }
    }

    /// Appends several arguments.
    pub fn args(self, values: Vec<String>) -> (r: ActionCommand)
        ensures
            r.action == self.action,
            r.args@ == self.args@ + values@,
    {
        let mut args = self.args;
        let mut i: usize = 0;
        while i < values.len()
            invariant
                i <= values@.len(),
                args@ == self.args@ + values@.take(i as int),
            decreases values@.len() - i,
        {
            args.push(values[i].clone());
            i = i + 1;
            assert(args@ =~= self.args@ + values@.take(i as int));
        }
        proof {
            assert(self.args@ + values@.take(values@.len() as int) =~= self.args@ + values@);
        }
        ActionCommand { action: self.action, args }
    }

    /// The version vector the action channel speaks.
    fn version_vec() -> (r: Vec<u32>)
        ensures
            r@ == action_version(),
    {
        let mut v: Vec<u32> = Vec::new();
        v.push(0);
        v.push(14);
        v.push(2);
        proof {
            assert(v@ =~= action_version());
        }
        v
    }

    /// Builds the `send_key` envelope this action denotes.
    #[verifier::loop_isolation(false)]
    pub fn build(self) -> (r: Result<KittyMessage, CommandError>)
        ensures
            r matches Ok(m) && m@.cmd == "send_key"@ && m@.version == action_version()
                && m@.no_response is None && m@.kitty_window_id is None && m@.async_id is None
                && m@.cancel_async is None && m@.stream_id is None && m@.stream is None
                && m@.payload == Some(SpecJson::Obj(spec_action_entries(self))),
    {
        let ghost orig = self;
        let ActionCommand { action, args } = self;
        let mut entries: Vec<(String, JsonValue)> = Vec::new();
        proof {
            lemma_jv_entry_views_index(entries@);
        }
        push_entry(&mut entries, (String::from_str("action"), JsonValue::Str(action)));
        if args.len() > 0 {
            let mut items: Vec<JsonValue> = Vec::new();
            proof {
                lemma_jv_views_index(items@);
                assert(jv_views(items@) =~= action_args_json(args@).take(0));
            }
            let mut i: usize = 0;
            while i < args.len()
                invariant
                    i <= args@.len(),
                    jv_views(items@) == action_args_json(args@).take(i as int),
                decreases args@.len() - i,
            {
                let e = JsonValue::Str(args[i].clone());
                proof {
                    lemma_jv_views_push(items@, e);
                }
                items.push(e);
                i = i + 1;
                assert(jv_views(items@) =~= action_args_json(args@).take(i as int));
            }
            proof {
                assert(action_args_json(args@).take(args@.len() as int) =~= action_args_json(
                    args@,
                ));
            }
            push_entry(&mut entries, (String::from_str("args"), JsonValue::Arr(items)));
        }
        proof {
            assert(jv_entry_views(entries@) =~= spec_action_entries(orig));
        }
        let msg = KittyMessage::new(String::from_str("send_key"), Self::version_vec());
        Ok(msg.payload(JsonValue::Obj(entries)))
    }
}

pub struct QuitAction;

impl QuitAction {
    pub fn new() -> (r: ActionCommand)
        ensures
            r.action@ == "quit"@,
            r.args@.len() == 0,
    {
        ActionCommand::new("quit")
    }
}

pub struct NewTabAction;

impl NewTabAction {
    pub fn new() -> (r: ActionCommand)
        ensures
            r.action@ == "new_tab"@,
            r.args@.len() == 0,
    {
        ActionCommand::new("new_tab")
    }
}

pub struct CloseTabAction;

impl CloseTabAction {
    pub fn new() -> (r: ActionCommand)
        ensures
            r.action@ == "close_tab"@,
            r.args@.len() == 0,
    {
        ActionCommand::new("close_tab")
    }
}

pub struct NextTabAction;

impl NextTabAction {
    pub fn new() -> (r: ActionCommand)
        ensures
            r.action@ == "next_tab"@,
            r.args@.len() == 0,
    {
        ActionCommand::new("next_tab")
    }
}

pub struct PreviousTabAction;

impl PreviousTabAction {
    pub fn new() -> (r: ActionCommand)
        ensures
            r.action@ == "previous_tab"@,
            r.args@.len() == 0,
    {
        ActionCommand::new("previous_tab")
    }
}

pub struct GotoTabAction;

impl GotoTabAction {
    pub fn new(tab_num: i32) -> (r: ActionCommand)
        ensures
            r.action@ == "goto_tab"@,
            r.args@.len() == 1,
            r.args@[0]@ == crate::json::spec_ser_i64(tab_num as i64),
    {
        let t = crate::json::i64_to_string(tab_num as i64);
        ActionCommand::new("goto_tab").arg(t.as_str())
    }
}

pub struct SetTabTitleAction;

impl SetTabTitleAction {
    pub fn new(title: &str) -> (r: ActionCommand)
        ensures
            r.action@ == "set_tab_title"@,
            r.args@.len() == 1,
            r.args@[0]@ == title@,
    {
        ActionCommand::new("set_tab_title").arg(title)
    }
}

pub struct DetachTabAction;

impl DetachTabAction {
    pub fn new() -> (r: ActionCommand)
        ensures
            r.action@ == "detach_tab"@,
            r.args@.len() == 0,
    {
        ActionCommand::new("detach_tab")
    }
}

pub struct MoveTabForwardAction;

impl MoveTabForwardAction {
    pub fn new() -> (r: ActionCommand)
        ensures
            r.action@ == "move_tab_forward"@,
            r.args@.len() == 0,
    {
        ActionCommand::new("move_tab_forward")
    }
}

pub struct MoveTabBackwardAction;

impl MoveTabBackwardAction {
    pub fn new() -> (r: ActionCommand)
        ensures
            r.action@ == "move_tab_backward"@,
            r.args@.len() == 0,
    {
        ActionCommand::new("move_tab_backward")
    }
}

pub struct NewWindowAction;

impl NewWindowAction {
    pub fn new() -> (r: ActionCommand)
        ensures
            r.action@ == "new_window"@,
            r.args@.len() == 0,
    {
        ActionCommand::new("new_window")
    }
}

pub struct NewWindowWithCwdAction;

impl NewWindowWithCwdAction {
    pub fn new() -> (r: ActionCommand)
        ensures
            r.action@ == "new_window_with_cwd"@,
            r.args@.len() == 0,
    {
        ActionCommand::new("new_window_with_cwd")
    }
}

pub struct CloseWindowAction;

impl CloseWindowAction {
    pub fn new() -> (r: ActionCommand)
        ensures
            r.action@ == "close_window"@,
            r.args@.len() == 0,
    {
        ActionCommand::new("close_window")
    }
}

pub struct CloseWindowWithConfirmationAction;

impl CloseWindowWithConfirmationAction {
    pub fn new() -> (r: ActionCommand)
        ensures
            r.action@ == "close_window_with_confirmation"@,
            r.args@.len() == 0,
    {
        ActionCommand::new("close_window_with_confirmation")
    }
}

pub struct NextWindowAction;

impl NextWindowAction {
    pub fn new() -> (r: ActionCommand)
        ensures
            r.action@ == "next_window"@,
            r.args@.len() == 0,
    {
        ActionCommand::new("next_window")
    }
}

pub struct PreviousWindowAction;

impl PreviousWindowAction {
    pub fn new() -> (r: ActionCommand)
        ensures
            r.action@ == "previous_window"@,
            r.args@.len() == 0,
    {
        ActionCommand::new("previous_window")
    }
}

pub struct MoveWindowForwardAction;

impl MoveWindowForwardAction {
    pub fn new() -> (r: ActionCommand)
        ensures
            r.action@ == "move_window_forward"@,
            r.args@.len() == 0,
    {
        ActionCommand::new("move_window_forward")
    }
}

pub struct MoveWindowBackwardAction;

impl MoveWindowBackwardAction {
    pub fn new() -> (r: ActionCommand)
        ensures
            r.action@ == "move_window_backward"@,
            r.args@.len() == 0,
    {
        ActionCommand::new("move_window_backward")
    }
}

pub struct NthWindowAction;

impl NthWindowAction {
    pub fn new(n: i32) -> (r: ActionCommand)
        ensures
            r.action@ == "nth_window"@,
            r.args@.len() == 1,
            r.args@[0]@ == crate::json::spec_ser_i64(n as i64),
    {
        let t = crate::json::i64_to_string(n as i64);
        ActionCommand::new("nth_window").arg(t.as_str())
    }
}

pub struct FirstWindowAction;

impl FirstWindowAction {
    pub fn new() -> (r: ActionCommand)
        ensures
            r.action@ == "first_window"@,
            r.args@.len() == 0,
    {
        ActionCommand::new("first_window")
    }
}

pub struct SetWindowTitleAction;

impl SetWindowTitleAction {
    pub fn new(title: &str) -> (r: ActionCommand)
        ensures
            r.action@ == "set_window_title"@,
            r.args@.len() == 1,
            r.args@[0]@ == title@,
    {
        ActionCommand::new("set_window_title").arg(title)
    }
}

pub struct ResizeWindowAction;

impl ResizeWindowAction {
    pub fn new(shrink: bool) -> (r: ActionCommand)
        ensures
            r.action@ == "resize_window"@,
            r.args@.len() == 1,
            shrink ==> r.args@[0]@ == "shrink"@,
            !shrink ==> r.args@[0]@ == "taller"@,
    {
        if shrink {
            ActionCommand::new("resize_window").arg("shrink")
        } else {
            ActionCommand::new("resize_window").arg("taller")
        }
    }
}

pub struct ResetWindowSizesAction;

impl ResetWindowSizesAction {
    pub fn new() -> (r: ActionCommand)
        ensures
            r.action@ == "reset_window_sizes"@,
            r.args@.len() == 0,
    {
        ActionCommand::new("reset_window_sizes")
    }
}

pub struct MoveWindowAction;

impl MoveWindowAction {
    pub fn new(direction: &str) -> (r: ActionCommand)
        ensures
            r.action@ == "move_window"@,
            r.args@.len() == 1,
            r.args@[0]@ == direction@,
    {
        ActionCommand::new("move_window").arg(direction)
    }
}

pub struct NeighboringWindowAction;

impl NeighboringWindowAction {
    pub fn new(direction: &str) -> (r: ActionCommand)
        ensures
            r.action@ == "neighboring_window"@,
            r.args@.len() == 1,
            r.args@[0]@ == direction@,
    {
        ActionCommand::new("neighboring_window").arg(direction)
    }
}

pub struct ToggleFullscreenAction;

impl ToggleFullscreenAction {
    pub fn new() -> (r: ActionCommand)
        ensures
            r.action@ == "toggle_fullscreen"@,
            r.args@.len() == 0,
    {
        ActionCommand::new("toggle_fullscreen")
    }
}

pub struct ToggleMaximizedAction;

impl ToggleMaximizedAction {
    pub fn new() -> (r: ActionCommand)
        ensures
            r.action@ == "toggle_maximized"@,
            r.args@.len() == 0,
    {
        ActionCommand::new("toggle_maximized")
    }
}

pub struct CopyToClipboardAction;

impl CopyToClipboardAction {
    pub fn new() -> (r: ActionCommand)
        ensures
            r.action@ == "copy_to_clipboard"@,
            r.args@.len() == 0,
    {
        ActionCommand::new("copy_to_clipboard")
    }
}

pub struct PasteAction;

impl PasteAction {
    pub fn new() -> (r: ActionCommand)
        ensures
            r.action@ == "paste"@,
            r.args@.len() == 0,
    {
        ActionCommand::new("paste")
    }
}

pub struct PasteFromClipboardAction;

impl PasteFromClipboardAction {
    pub fn new() -> (r: ActionCommand)
        ensures
            r.action@ == "paste_from_clipboard"@,
            r.args@.len() == 0,
    {
        ActionCommand::new("paste_from_clipboard")
    }
}

pub struct PasteSelectionAction;

impl PasteSelectionAction {
    pub fn new() -> (r: ActionCommand)
        ensures
            r.action@ == "paste_selection"@,
            r.args@.len() == 0,
    {
        ActionCommand::new("paste_selection")
    }
}

pub struct ClearSelectionAction;

impl ClearSelectionAction {
    pub fn new() -> (r: ActionCommand)
        ensures
            r.action@ == "clear_selection"@,
            r.args@.len() == 0,
    {
        ActionCommand::new("clear_selection")
    }
}

pub struct CopyOrInterruptAction;

impl CopyOrInterruptAction {
    pub fn new() -> (r: ActionCommand)
        ensures
            r.action@ == "copy_or_interrupt"@,
            r.args@.len() == 0,
    {
        ActionCommand::new("copy_or_interrupt")
    }
}

pub struct GotoLayoutAction;

impl GotoLayoutAction {
    pub fn new(layout: &str) -> (r: ActionCommand)
        ensures
            r.action@ == "goto_layout"@,
            r.args@.len() == 1,
            r.args@[0]@ == layout@,
    {
        ActionCommand::new("goto_layout").arg(layout)
    }
}

pub struct NextLayoutAction;

impl NextLayoutAction {
    pub fn new() -> (r: ActionCommand)
        ensures
            r.action@ == "next_layout"@,
            r.args@.len() == 0,
    {
        ActionCommand::new("next_layout")
    }
}

pub struct LastUsedLayoutAction;

impl LastUsedLayoutAction {
    pub fn new() -> (r: ActionCommand)
        ensures
            r.action@ == "last_used_layout"@,
            r.args@.len() == 0,
    {
        ActionCommand::new("last_used_layout")
    }
}

pub struct ToggleLayoutAction;

impl ToggleLayoutAction {
    pub fn new(layout: &str) -> (r: ActionCommand)
        ensures
            r.action@ == "toggle_layout"@,
            r.args@.len() == 1,
            r.args@[0]@ == layout@,
    {
        ActionCommand::new("toggle_layout").arg(layout)
    }
}

pub struct ScrollLineUpAction;

impl ScrollLineUpAction {
    pub fn new() -> (r: ActionCommand)
        ensures
            r.action@ == "scroll_line_up"@,
            r.args@.len() == 0,
    {
        ActionCommand::new("scroll_line_up")
    }
}

pub struct ScrollLineDownAction;

impl ScrollLineDownAction {
    pub fn new() -> (r: ActionCommand)
        ensures
            r.action@ == "scroll_line_down"@,
            r.args@.len() == 0,
    {
        ActionCommand::new("scroll_line_down")
    }
}

pub struct ScrollPageUpAction;

impl ScrollPageUpAction {
    pub fn new() -> (r: ActionCommand)
        ensures
            r.action@ == "scroll_page_up"@,
            r.args@.len() == 0,
    {
        ActionCommand::new("scroll_page_up")
    }
}

pub struct ScrollPageDownAction;

impl ScrollPageDownAction {
    pub fn new() -> (r: ActionCommand)
        ensures
            r.action@ == "scroll_page_down"@,
            r.args@.len() == 0,
    {
        ActionCommand::new("scroll_page_down")
    }
}

pub struct ScrollHomeAction;

impl ScrollHomeAction {
    pub fn new() -> (r: ActionCommand)
        ensures
            r.action@ == "scroll_home"@,
            r.args@.len() == 0,
    {
        ActionCommand::new("scroll_home")
    }
}

pub struct ScrollEndAction;

impl ScrollEndAction {
    pub fn new() -> (r: ActionCommand)
        ensures
            r.action@ == "scroll_end"@,
            r.args@.len() == 0,
    {
        ActionCommand::new("scroll_end")
    }
}

pub struct ScrollToPromptAction;

impl ScrollToPromptAction {
    pub fn new(direction: i32) -> (r: ActionCommand)
        ensures
            r.action@ == "scroll_to_prompt"@,
            r.args@.len() == 1,
            r.args@[0]@ == crate::json::spec_ser_i64(direction as i64),
    {
        let t = crate::json::i64_to_string(direction as i64);
        ActionCommand::new("scroll_to_prompt").arg(t.as_str())
    }
}

pub struct ShowScrollbackAction;

impl ShowScrollbackAction {
    pub fn new() -> (r: ActionCommand)
        ensures
            r.action@ == "show_scrollback"@,
            r.args@.len() == 0,
    {
        ActionCommand::new("show_scrollback")
    }
}

pub struct CreateMarkerAction;

impl CreateMarkerAction {
    pub fn new() -> (r: ActionCommand)
        ensures
            r.action@ == "create_marker"@,
            r.args@.len() == 0,
    {
        ActionCommand::new("create_marker")
    }
}

pub struct RemoveMarkerAction;

impl RemoveMarkerAction {
    pub fn new() -> (r: ActionCommand)
        ensures
            r.action@ == "remove_marker"@,
            r.args@.len() == 0,
    {
        ActionCommand::new("remove_marker")
    }
}

pub struct ScrollToMarkAction;

impl ScrollToMarkAction {
    pub fn new(marker_type: &str) -> (r: ActionCommand)
        ensures
            r.action@ == "scroll_to_mark"@,
            r.args@.len() == 1,
            r.args@[0]@ == marker_type@,
    {
        ActionCommand::new("scroll_to_mark").arg(marker_type)
    }
}

pub struct ToggleMarkerAction;

impl ToggleMarkerAction {
    pub fn new() -> (r: ActionCommand)
        ensures
            r.action@ == "toggle_marker"@,
            r.args@.len() == 0,
    {
        ActionCommand::new("toggle_marker")
    }
}

pub struct MouseClickUrlAction;

impl MouseClickUrlAction {
    pub fn new() -> (r: ActionCommand)
        ensures
            r.action@ == "mouse_click_url"@,
            r.args@.len() == 0,
    {
        ActionCommand::new("mouse_click_url")
    }
}

pub struct MouseSelectionAction;

impl MouseSelectionAction {
    pub fn new() -> (r: ActionCommand)
        ensures
            r.action@ == "mouse_selection"@,
            r.args@.len() == 0,
    {
        ActionCommand::new("mouse_selection")
    }
}

pub struct DebugConfigAction;

impl DebugConfigAction {
    pub fn new() -> (r: ActionCommand)
        ensures
            r.action@ == "debug_config"@,
            r.args@.len() == 0,
    {
        ActionCommand::new("debug_config")
    }
}

pub struct DumpLinesWithAttrsAction;

impl DumpLinesWithAttrsAction {
    pub fn new() -> (r: ActionCommand)
        ensures
            r.action@ == "dump_lines_with_attrs"@,
            r.args@.len() == 0,
    {
        ActionCommand::new("dump_lines_with_attrs")
    }
}

pub struct SendKeyAction;

impl SendKeyAction {
    pub fn new(keys: &str) -> (r: ActionCommand)
        ensures
            r.action@ == "send_key"@,
            r.args@.len() == 1,
            r.args@[0]@ == keys@,
    {
        ActionCommand::new("send_key").arg(keys)
    }
}

pub struct SendTextAction;

impl SendTextAction {
    pub fn new(text: &str) -> (r: ActionCommand)
        ensures
            r.action@ == "send_text"@,
            r.args@.len() == 1,
            r.args@[0]@ == text@,
    {
        ActionCommand::new("send_text").arg(text)
    }
}

pub struct KittenAction;

impl KittenAction {
    pub fn new(kitten_name: &str) -> (r: ActionCommand)
        ensures
            r.action@ == "kitten"@,
            r.args@.len() == 1,
            r.args@[0]@ == kitten_name@,
    {
        ActionCommand::new("kitten").arg(kitten_name)
    }
}

pub struct LaunchAction;

impl LaunchAction {
    pub fn new(args: &str) -> (r: ActionCommand)
        ensures
            r.action@ == "launch"@,
            r.args@.len() == 1,
            r.args@[0]@ == args@,
    {
        ActionCommand::new("launch").arg(args)
    }
}

pub struct SignalChildAction;

impl SignalChildAction {
    pub fn new(signal: &str) -> (r: ActionCommand)
        ensures
            r.action@ == "signal_child"@,
            r.args@.len() == 1,
            r.args@[0]@ == signal@,
    {
        ActionCommand::new("signal_child").arg(signal)
    }
}

pub struct ClearTerminalAction;

impl ClearTerminalAction {
    pub fn new(mode: &str) -> (r: ActionCommand)
        ensures
            r.action@ == "clear_terminal"@,
            r.args@.len() == 1,
            r.args@[0]@ == mode@,
    {
        ActionCommand::new("clear_terminal").arg(mode)
    }
}

pub struct ShowKittyDocAction;

impl ShowKittyDocAction {
    pub fn new(topic: &str) -> (r: ActionCommand)
        ensures
            r.action@ == "show_kitty_doc"@,
            r.args@.len() == 1,
            r.args@[0]@ == topic@,
    {
        ActionCommand::new("show_kitty_doc").arg(topic)
    }
}

pub struct EditConfigFileAction;

impl EditConfigFileAction {
    pub fn new() -> (r: ActionCommand)
        ensures
            r.action@ == "edit_config_file"@,
            r.args@.len() == 0,
    {
        ActionCommand::new("edit_config_file")
    }
}

pub struct ChangeFontSizeAction;

impl ChangeFontSizeAction {
    pub fn new(delta: &str) -> (r: ActionCommand)
        ensures
            r.action@ == "change_font_size"@,
            r.args@.len() == 1,
            r.args@[0]@ == delta@,
    {
        ActionCommand::new("change_font_size").arg(delta)
    }
}

pub struct LoadConfigFileAction;

impl LoadConfigFileAction {
    pub fn new(path: &str) -> (r: ActionCommand)
        ensures
            r.action@ == "load_config_file"@,
            r.args@.len() == 1,
            r.args@[0]@ == path@,
    {
        ActionCommand::new("load_config_file").arg(path)
    }
}

pub struct SetColorsAction;

impl SetColorsAction {
    pub fn new(path: &str) -> (r: ActionCommand)
        ensures
            r.action@ == "set_colors"@,
            r.args@.len() == 1,
            r.args@[0]@ == path@,
    {
        ActionCommand::new("set_colors").arg(path)
    }
}

} // verus!
