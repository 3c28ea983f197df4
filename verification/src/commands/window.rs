//! Builders for the window commands: listing, text and key input, focus, size, titles, markers.
use crate::command::default_version;
use crate::command::default_version_vec;
use crate::command::push_entry;
use crate::error::CommandError;
use crate::json::JsonValue;
use crate::json::SpecJson;
use crate::json::jv_entry_views;
use crate::json::lemma_jv_entry_views_index;
use crate::protocol::KittyMessage;
use vstd::prelude::*;
use vstd::string::StringExecFns;

verus! {

pub struct LsCommand {
    pub all_env_vars: bool,
    pub match_spec: Option<String>,
    pub match_tab: Option<String>,
    pub self_window: bool,
}

/// The payload members `ls` sends, in order.
pub open spec fn spec_ls_command_entries(c: LsCommand) -> Seq<(Seq<char>, SpecJson)> {
    let e = Seq::<(Seq<char>, SpecJson)>::empty();
    let e = (if c.all_env_vars { e.push(("all_env_vars"@, SpecJson::Bool(true))) } else { e });
    let e = (if c.match_spec is Some { e.push(("match"@, SpecJson::Str(c.match_spec->0@))) } else { e });
    let e = (if c.match_tab is Some { e.push(("match_tab"@, SpecJson::Str(c.match_tab->0@))) } else { e });
    let e = (if c.self_window { e.push(("self"@, SpecJson::Bool(true))) } else { e });
    e
}

impl LsCommand {
    pub fn new() -> (r: LsCommand)
        ensures
            r.all_env_vars == false,
            r.match_spec is None,
            r.match_tab is None,
            r.self_window == false,
    {
        LsCommand {
            all_env_vars: false,
            match_spec: None,
            match_tab: None,
            self_window: false,
        }
    }

    pub fn all_env_vars(self, value: bool) -> (r: LsCommand)
        ensures
            r.all_env_vars == value && r.match_spec == self.match_spec && r.match_tab == self.match_tab && r.self_window == self.self_window,
    {
        LsCommand { all_env_vars: value, ..self }
    }

    pub fn match_spec(self, value: &str) -> (r: LsCommand)
        ensures
            (r.match_spec matches Some(s2) && s2@ == value@) && r.all_env_vars == self.all_env_vars && r.match_tab == self.match_tab && r.self_window == self.self_window,
    {
        LsCommand { match_spec: Some(String::from_str(value)), ..self }
    }

    pub fn match_tab(self, value: &str) -> (r: LsCommand)
        ensures
            (r.match_tab matches Some(s2) && s2@ == value@) && r.all_env_vars == self.all_env_vars && r.match_spec == self.match_spec && r.self_window == self.self_window,
    {
        LsCommand { match_tab: Some(String::from_str(value)), ..self }
    }

    pub fn self_window(self, value: bool) -> (r: LsCommand)
        ensures
            r.self_window == value && r.all_env_vars == self.all_env_vars && r.match_spec == self.match_spec && r.match_tab == self.match_tab,
    {
        LsCommand { self_window: value, ..self }
    }

    /// Builds the wire envelope this command denotes.
    #[verifier::loop_isolation(false)]
    pub fn build(self) -> (r: Result<KittyMessage, CommandError>)
        ensures
            (r matches Ok(m) && m@.cmd == "ls"@ && m@.version == default_version()
                && m@.no_response is None && m@.kitty_window_id is None && m@.async_id is None
                && m@.cancel_async is None && m@.stream_id is None && m@.stream is None
                && m@.payload == Some(SpecJson::Obj(spec_ls_command_entries(self)))),
    {
        let ghost orig = self;
        let LsCommand { all_env_vars, match_spec, match_tab, self_window } = self;
        let mut entries: Vec<(String, JsonValue)> = Vec::new();
        proof {
            lemma_jv_entry_views_index(entries@);
        }
        let ghost mut ge: Seq<(Seq<char>, SpecJson)> = Seq::empty();
        assert(jv_entry_views(entries@) =~= ge);
        if all_env_vars {
            proof {
                ge = ge.push(("all_env_vars"@, SpecJson::Bool(true)));
            }
            push_entry(&mut entries, (String::from_str("all_env_vars"), JsonValue::Bool(true)));
        }
        assert(jv_entry_views(entries@) == ge);
        if let Some(x) = match_spec {
            proof {
                ge = ge.push(("match"@, SpecJson::Str(x@)));
            }
            push_entry(&mut entries, (String::from_str("match"), JsonValue::Str(x)));
        }
        assert(jv_entry_views(entries@) == ge);
        if let Some(x) = match_tab {
            proof {
                ge = ge.push(("match_tab"@, SpecJson::Str(x@)));
            }
            push_entry(&mut entries, (String::from_str("match_tab"), JsonValue::Str(x)));
        }
        assert(jv_entry_views(entries@) == ge);
        if self_window {
            proof {
                ge = ge.push(("self"@, SpecJson::Bool(true)));
            }
            push_entry(&mut entries, (String::from_str("self"), JsonValue::Bool(true)));
        }
        assert(jv_entry_views(entries@) == ge);
        proof {
            assert(ge == spec_ls_command_entries(orig));
        }
        let msg = KittyMessage::new(String::from_str("ls"), default_version_vec());
        Ok(msg.payload(JsonValue::Obj(entries)))
    }
}

pub struct SendTextCommand {
    pub data: String,
    pub match_spec: Option<String>,
    pub match_tab: Option<String>,
    pub all: bool,
    pub exclude_active: bool,
    pub bracketed_paste: String,
}

/// The payload members `send-text` sends, in order.
pub open spec fn spec_send_text_command_entries(c: SendTextCommand) -> Seq<(Seq<char>, SpecJson)> {
    let e = Seq::<(Seq<char>, SpecJson)>::empty();
    let e = e.push(("data"@, SpecJson::Str(c.data@)));
    let e = (if c.match_spec is Some { e.push(("match"@, SpecJson::Str(c.match_spec->0@))) } else { e });
    let e = (if c.match_tab is Some { e.push(("match_tab"@, SpecJson::Str(c.match_tab->0@))) } else { e });
    let e = (if c.all { e.push(("all"@, SpecJson::Bool(true))) } else { e });
    let e = (if c.exclude_active { e.push(("exclude_active"@, SpecJson::Bool(true))) } else { e });
    let e = (if c.bracketed_paste@ != "disable"@ { e.push(("bracketed_paste"@, SpecJson::Str(c.bracketed_paste@))) } else { e });
    e
}

impl SendTextCommand {
    pub fn new(data: &str) -> (r: SendTextCommand)
        ensures
            r.data@ == data@,
            r.match_spec is None,
            r.match_tab is None,
            r.all == false,
            r.exclude_active == false,
            r.bracketed_paste@ == "disable"@,
    {
        SendTextCommand {
            data: String::from_str(data),
            match_spec: None,
            match_tab: None,
            all: false,
            exclude_active: false,
            bracketed_paste: String::from_str("disable"),
        }
    }

    pub fn match_spec(self, value: &str) -> (r: SendTextCommand)
        ensures
            (r.match_spec matches Some(s2) && s2@ == value@) && r.data == self.data && r.match_tab == self.match_tab && r.all == self.all && r.exclude_active == self.exclude_active && r.bracketed_paste == self.bracketed_paste,
    {
        SendTextCommand { match_spec: Some(String::from_str(value)), ..self }
    }

    pub fn match_tab(self, value: &str) -> (r: SendTextCommand)
        ensures
            (r.match_tab matches Some(s2) && s2@ == value@) && r.data == self.data && r.match_spec == self.match_spec && r.all == self.all && r.exclude_active == self.exclude_active && r.bracketed_paste == self.bracketed_paste,
    {
        SendTextCommand { match_tab: Some(String::from_str(value)), ..self }
    }

    pub fn all(self, value: bool) -> (r: SendTextCommand)
        ensures
            r.all == value && r.data == self.data && r.match_spec == self.match_spec && r.match_tab == self.match_tab && r.exclude_active == self.exclude_active && r.bracketed_paste == self.bracketed_paste,
    {
        SendTextCommand { all: value, ..self }
    }

    pub fn exclude_active(self, value: bool) -> (r: SendTextCommand)
        ensures
            r.exclude_active == value && r.data == self.data && r.match_spec == self.match_spec && r.match_tab == self.match_tab && r.all == self.all && r.bracketed_paste == self.bracketed_paste,
    {
        SendTextCommand { exclude_active: value, ..self }
    }

    pub fn bracketed_paste(self, value: &str) -> (r: SendTextCommand)
        ensures
            r.bracketed_paste@ == value@ && r.data == self.data && r.match_spec == self.match_spec && r.match_tab == self.match_tab && r.all == self.all && r.exclude_active == self.exclude_active,
    {
        SendTextCommand { bracketed_paste: String::from_str(value), ..self }
    }

    /// Builds the wire envelope this command denotes.
    #[verifier::loop_isolation(false)]
    #[verifier::rlimit(100)]
    pub fn build(self) -> (r: Result<KittyMessage, CommandError>)
        ensures
            self.data@.len() == 0 ==> (r matches Err(e) && (e matches CommandError::MissingParameter(p, cc) && p@ == "data"@ && cc@ == "send-text"@)),
            self.data@.len() > 0 ==> (r matches Ok(m) && m@.cmd == "send-text"@ && m@.version == default_version()
                && m@.no_response is None && m@.kitty_window_id is None && m@.async_id is None
                && m@.cancel_async is None && m@.stream_id is None && m@.stream is None
                && m@.payload == Some(SpecJson::Obj(spec_send_text_command_entries(self)))),
    {
        let ghost orig = self;
        if self.data.as_str().is_empty() {
            return Err(CommandError::MissingParameter(String::from_str("data"), String::from_str("send-text")));
        }
        let SendTextCommand { data, match_spec, match_tab, all, exclude_active, bracketed_paste } = self;
        let mut entries: Vec<(String, JsonValue)> = Vec::new();
        proof {
            lemma_jv_entry_views_index(entries@);
        }
        let ghost mut ge: Seq<(Seq<char>, SpecJson)> = Seq::empty();
        assert(jv_entry_views(entries@) =~= ge);
        proof {
            ge = ge.push(("data"@, SpecJson::Str(data@)));
        }
        push_entry(&mut entries, (String::from_str("data"), JsonValue::Str(data)));
        assert(jv_entry_views(entries@) == ge);
        if let Some(x) = match_spec {
            proof {
                ge = ge.push(("match"@, SpecJson::Str(x@)));
            }
            push_entry(&mut entries, (String::from_str("match"), JsonValue::Str(x)));
        }
        assert(jv_entry_views(entries@) == ge);
        if let Some(x) = match_tab {
            proof {
                ge = ge.push(("match_tab"@, SpecJson::Str(x@)));
            }
            push_entry(&mut entries, (String::from_str("match_tab"), JsonValue::Str(x)));
        }
        assert(jv_entry_views(entries@) == ge);
        if all {
            proof {
                ge = ge.push(("all"@, SpecJson::Bool(true)));
            }
            push_entry(&mut entries, (String::from_str("all"), JsonValue::Bool(true)));
        }
        assert(jv_entry_views(entries@) == ge);
        if exclude_active {
            proof {
                ge = ge.push(("exclude_active"@, SpecJson::Bool(true)));
            }
            push_entry(&mut entries, (String::from_str("exclude_active"), JsonValue::Bool(true)));
        }
        assert(jv_entry_views(entries@) == ge);
        let dflt = String::from_str("disable");
        if !(bracketed_paste == dflt) {
            proof {
                ge = ge.push(("bracketed_paste"@, SpecJson::Str(bracketed_paste@)));
            }
            push_entry(&mut entries, (String::from_str("bracketed_paste"), JsonValue::Str(bracketed_paste)));
        }
        assert(jv_entry_views(entries@) == ge);
        proof {
            assert(ge == spec_send_text_command_entries(orig));
        }
        let msg = KittyMessage::new(String::from_str("send-text"), default_version_vec());
        Ok(msg.payload(JsonValue::Obj(entries)))
    }
}

pub struct SendKeyCommand {
    pub keys: String,
    pub match_spec: Option<String>,
    pub match_tab: Option<String>,
    pub all: bool,
    pub exclude_active: bool,
}

/// The payload members `send-key` sends, in order.
pub open spec fn spec_send_key_command_entries(c: SendKeyCommand) -> Seq<(Seq<char>, SpecJson)> {
    let e = Seq::<(Seq<char>, SpecJson)>::empty();
    let e = e.push(("keys"@, SpecJson::Str(c.keys@)));
    let e = (if c.match_spec is Some { e.push(("match"@, SpecJson::Str(c.match_spec->0@))) } else { e });
    let e = (if c.match_tab is Some { e.push(("match_tab"@, SpecJson::Str(c.match_tab->0@))) } else { e });
    let e = (if c.all { e.push(("all"@, SpecJson::Bool(true))) } else { e });
    let e = (if c.exclude_active { e.push(("exclude_active"@, SpecJson::Bool(true))) } else { e });
    e
}

impl SendKeyCommand {
    pub fn new(keys: &str) -> (r: SendKeyCommand)
        ensures
            r.keys@ == keys@,
            r.match_spec is None,
            r.match_tab is None,
            r.all == false,
            r.exclude_active == false,
    {
        SendKeyCommand {
            keys: String::from_str(keys),
            match_spec: None,
            match_tab: None,
            all: false,
            exclude_active: false,
        }
    }

    pub fn match_spec(self, value: &str) -> (r: SendKeyCommand)
        ensures
            (r.match_spec matches Some(s2) && s2@ == value@) && r.keys == self.keys && r.match_tab == self.match_tab && r.all == self.all && r.exclude_active == self.exclude_active,
    {
        SendKeyCommand { match_spec: Some(String::from_str(value)), ..self }
    }

    pub fn match_tab(self, value: &str) -> (r: SendKeyCommand)
        ensures
            (r.match_tab matches Some(s2) && s2@ == value@) && r.keys == self.keys && r.match_spec == self.match_spec && r.all == self.all && r.exclude_active == self.exclude_active,
    {
        SendKeyCommand { match_tab: Some(String::from_str(value)), ..self }
    }

    pub fn all(self, value: bool) -> (r: SendKeyCommand)
        ensures
            r.all == value && r.keys == self.keys && r.match_spec == self.match_spec && r.match_tab == self.match_tab && r.exclude_active == self.exclude_active,
    {
        SendKeyCommand { all: value, ..self }
    }

    pub fn exclude_active(self, value: bool) -> (r: SendKeyCommand)
        ensures
            r.exclude_active == value && r.keys == self.keys && r.match_spec == self.match_spec && r.match_tab == self.match_tab && r.all == self.all,
    {
        SendKeyCommand { exclude_active: value, ..self }
    }

    /// Builds the wire envelope this command denotes.
    #[verifier::loop_isolation(false)]
    #[verifier::rlimit(100)]
    pub fn build(self) -> (r: Result<KittyMessage, CommandError>)
        ensures
            self.keys@.len() == 0 ==> (r matches Err(e) && (e matches CommandError::MissingParameter(p, cc) && p@ == "keys"@ && cc@ == "send-key"@)),
            self.keys@.len() > 0 ==> (r matches Ok(m) && m@.cmd == "send-key"@ && m@.version == default_version()
                && m@.no_response is None && m@.kitty_window_id is None && m@.async_id is None
                && m@.cancel_async is None && m@.stream_id is None && m@.stream is None
                && m@.payload == Some(SpecJson::Obj(spec_send_key_command_entries(self)))),
    {
        let ghost orig = self;
        if self.keys.as_str().is_empty() {
            return Err(CommandError::MissingParameter(String::from_str("keys"), String::from_str("send-key")));
        }
        let SendKeyCommand { keys, match_spec, match_tab, all, exclude_active } = self;
        let mut entries: Vec<(String, JsonValue)> = Vec::new();
        proof {
            lemma_jv_entry_views_index(entries@);
        }
        let ghost mut ge: Seq<(Seq<char>, SpecJson)> = Seq::empty();
        assert(jv_entry_views(entries@) =~= ge);
        proof {
            ge = ge.push(("keys"@, SpecJson::Str(keys@)));
        }
        push_entry(&mut entries, (String::from_str("keys"), JsonValue::Str(keys)));
        assert(jv_entry_views(entries@) == ge);
        if let Some(x) = match_spec {
            proof {
                ge = ge.push(("match"@, SpecJson::Str(x@)));
            }
            push_entry(&mut entries, (String::from_str("match"), JsonValue::Str(x)));
        }
        assert(jv_entry_views(entries@) == ge);
        if let Some(x) = match_tab {
            proof {
                ge = ge.push(("match_tab"@, SpecJson::Str(x@)));
            }
            push_entry(&mut entries, (String::from_str("match_tab"), JsonValue::Str(x)));
        }
        assert(jv_entry_views(entries@) == ge);
        if all {
            proof {
                ge = ge.push(("all"@, SpecJson::Bool(true)));
            }
            push_entry(&mut entries, (String::from_str("all"), JsonValue::Bool(true)));
        }
        assert(jv_entry_views(entries@) == ge);
        if exclude_active {
            proof {
                ge = ge.push(("exclude_active"@, SpecJson::Bool(true)));
            }
            push_entry(&mut entries, (String::from_str("exclude_active"), JsonValue::Bool(true)));
        }
        assert(jv_entry_views(entries@) == ge);
        proof {
            assert(ge == spec_send_key_command_entries(orig));
        }
        let msg = KittyMessage::new(String::from_str("send-key"), default_version_vec());
        Ok(msg.payload(JsonValue::Obj(entries)))
    }
}

pub struct CloseWindowCommand {
    pub match_spec: Option<String>,
    pub self_window: bool,
    pub ignore_no_match: bool,
}

/// The payload members `close-window` sends, in order.
pub open spec fn spec_close_window_command_entries(c: CloseWindowCommand) -> Seq<(Seq<char>, SpecJson)> {
    let e = Seq::<(Seq<char>, SpecJson)>::empty();
    let e = (if c.match_spec is Some { e.push(("match"@, SpecJson::Str(c.match_spec->0@))) } else { e });
    let e = (if c.self_window { e.push(("self"@, SpecJson::Bool(true))) } else { e });
    let e = (if c.ignore_no_match { e.push(("ignore_no_match"@, SpecJson::Bool(true))) } else { e });
    e
}

impl CloseWindowCommand {
    pub fn new() -> (r: CloseWindowCommand)
        ensures
            r.match_spec is None,
            r.self_window == false,
            r.ignore_no_match == false,
    {
        CloseWindowCommand {
            match_spec: None,
            self_window: false,
            ignore_no_match: false,
        }
    }

    pub fn match_spec(self, value: &str) -> (r: CloseWindowCommand)
        ensures
            (r.match_spec matches Some(s2) && s2@ == value@) && r.self_window == self.self_window && r.ignore_no_match == self.ignore_no_match,
    {
        CloseWindowCommand { match_spec: Some(String::from_str(value)), ..self }
    }

    pub fn self_window(self, value: bool) -> (r: CloseWindowCommand)
        ensures
            r.self_window == value && r.match_spec == self.match_spec && r.ignore_no_match == self.ignore_no_match,
    {
        CloseWindowCommand { self_window: value, ..self }
    }

    pub fn ignore_no_match(self, value: bool) -> (r: CloseWindowCommand)
        ensures
            r.ignore_no_match == value && r.match_spec == self.match_spec && r.self_window == self.self_window,
    {
        CloseWindowCommand { ignore_no_match: value, ..self }
    }

    /// Builds the wire envelope this command denotes.
    #[verifier::loop_isolation(false)]
    pub fn build(self) -> (r: Result<KittyMessage, CommandError>)
        ensures
            (r matches Ok(m) && m@.cmd == "close-window"@ && m@.version == default_version()
                && m@.no_response is None && m@.kitty_window_id is None && m@.async_id is None
                && m@.cancel_async is None && m@.stream_id is None && m@.stream is None
                && m@.payload == Some(SpecJson::Obj(spec_close_window_command_entries(self)))),
    {
        let ghost orig = self;
        let CloseWindowCommand { match_spec, self_window, ignore_no_match } = self;
        let mut entries: Vec<(String, JsonValue)> = Vec::new();
        proof {
            lemma_jv_entry_views_index(entries@);
        }
        let ghost mut ge: Seq<(Seq<char>, SpecJson)> = Seq::empty();
        assert(jv_entry_views(entries@) =~= ge);
        if let Some(x) = match_spec {
            proof {
                ge = ge.push(("match"@, SpecJson::Str(x@)));
            }
            push_entry(&mut entries, (String::from_str("match"), JsonValue::Str(x)));
        }
        assert(jv_entry_views(entries@) == ge);
        if self_window {
            proof {
                ge = ge.push(("self"@, SpecJson::Bool(true)));
            }
            push_entry(&mut entries, (String::from_str("self"), JsonValue::Bool(true)));
        }
        assert(jv_entry_views(entries@) == ge);
        if ignore_no_match {
            proof {
                ge = ge.push(("ignore_no_match"@, SpecJson::Bool(true)));
            }
            push_entry(&mut entries, (String::from_str("ignore_no_match"), JsonValue::Bool(true)));
        }
        assert(jv_entry_views(entries@) == ge);
        proof {
            assert(ge == spec_close_window_command_entries(orig));
        }
        let msg = KittyMessage::new(String::from_str("close-window"), default_version_vec());
        Ok(msg.payload(JsonValue::Obj(entries)))
    }
}

pub struct ResizeWindowCommand {
    pub match_spec: Option<String>,
    pub self_window: bool,
    pub increment: i32,
    pub axis: String,
}

/// The payload members `resize-window` sends, in order.
pub open spec fn spec_resize_window_command_entries(c: ResizeWindowCommand) -> Seq<(Seq<char>, SpecJson)> {
    let e = Seq::<(Seq<char>, SpecJson)>::empty();
    let e = (if c.match_spec is Some { e.push(("match"@, SpecJson::Str(c.match_spec->0@))) } else { e });
    let e = (if c.self_window { e.push(("self"@, SpecJson::Bool(true))) } else { e });
    let e = e.push(("increment"@, SpecJson::Int(c.increment as i64)));
    let e = (if c.axis@ != "horizontal"@ { e.push(("axis"@, SpecJson::Str(c.axis@))) } else { e });
    e
}

impl ResizeWindowCommand {
    pub fn new() -> (r: ResizeWindowCommand)
        ensures
            r.match_spec is None,
            r.self_window == false,
            r.increment == 2,
            r.axis@ == "horizontal"@,
    {
        ResizeWindowCommand {
            match_spec: None,
            self_window: false,
            increment: 2,
            axis: String::from_str("horizontal"),
        }
    }

    pub fn match_spec(self, value: &str) -> (r: ResizeWindowCommand)
        ensures
            (r.match_spec matches Some(s2) && s2@ == value@) && r.self_window == self.self_window && r.increment == self.increment && r.axis == self.axis,
    {
        ResizeWindowCommand { match_spec: Some(String::from_str(value)), ..self }
    }

    pub fn self_window(self, value: bool) -> (r: ResizeWindowCommand)
        ensures
            r.self_window == value && r.match_spec == self.match_spec && r.increment == self.increment && r.axis == self.axis,
    {
        ResizeWindowCommand { self_window: value, ..self }
    }

    pub fn increment(self, value: i32) -> (r: ResizeWindowCommand)
        ensures
            r.increment == value && r.match_spec == self.match_spec && r.self_window == self.self_window && r.axis == self.axis,
    {
        ResizeWindowCommand { increment: value, ..self }
    }

    pub fn axis(self, value: &str) -> (r: ResizeWindowCommand)
        ensures
            r.axis@ == value@ && r.match_spec == self.match_spec && r.self_window == self.self_window && r.increment == self.increment,
    {
        ResizeWindowCommand { axis: String::from_str(value), ..self }
    }

    /// Builds the wire envelope this command denotes.
    #[verifier::loop_isolation(false)]
    pub fn build(self) -> (r: Result<KittyMessage, CommandError>)
        ensures
            (r matches Ok(m) && m@.cmd == "resize-window"@ && m@.version == default_version()
                && m@.no_response is None && m@.kitty_window_id is None && m@.async_id is None
                && m@.cancel_async is None && m@.stream_id is None && m@.stream is None
                && m@.payload == Some(SpecJson::Obj(spec_resize_window_command_entries(self)))),
    {
        let ghost orig = self;
        let ResizeWindowCommand { match_spec, self_window, increment, axis } = self;
        let mut entries: Vec<(String, JsonValue)> = Vec::new();
        proof {
            lemma_jv_entry_views_index(entries@);
        }
        let ghost mut ge: Seq<(Seq<char>, SpecJson)> = Seq::empty();
        assert(jv_entry_views(entries@) =~= ge);
        if let Some(x) = match_spec {
            proof {
                ge = ge.push(("match"@, SpecJson::Str(x@)));
            }
            push_entry(&mut entries, (String::from_str("match"), JsonValue::Str(x)));
        }
        assert(jv_entry_views(entries@) == ge);
        if self_window {
            proof {
                ge = ge.push(("self"@, SpecJson::Bool(true)));
            }
            push_entry(&mut entries, (String::from_str("self"), JsonValue::Bool(true)));
        }
        assert(jv_entry_views(entries@) == ge);
        proof {
            ge = ge.push(("increment"@, SpecJson::Int(increment as i64)));
        }
        push_entry(&mut entries, (String::from_str("increment"), JsonValue::Int(increment as i64)));
        assert(jv_entry_views(entries@) == ge);
        let dflt = String::from_str("horizontal");
        if !(axis == dflt) {
            proof {
                ge = ge.push(("axis"@, SpecJson::Str(axis@)));
            }
            push_entry(&mut entries, (String::from_str("axis"), JsonValue::Str(axis)));
        }
        assert(jv_entry_views(entries@) == ge);
        proof {
            assert(ge == spec_resize_window_command_entries(orig));
        }
        let msg = KittyMessage::new(String::from_str("resize-window"), default_version_vec());
        Ok(msg.payload(JsonValue::Obj(entries)))
    }
}

pub struct FocusWindowCommand {
    pub match_spec: Option<String>,
}

/// The payload members `focus-window` sends, in order.
pub open spec fn spec_focus_window_command_entries(c: FocusWindowCommand) -> Seq<(Seq<char>, SpecJson)> {
    let e = Seq::<(Seq<char>, SpecJson)>::empty();
    let e = (if c.match_spec is Some { e.push(("match"@, SpecJson::Str(c.match_spec->0@))) } else { e });
    e
}

impl FocusWindowCommand {
    pub fn new() -> (r: FocusWindowCommand)
        ensures
            r.match_spec is None,
    {
        FocusWindowCommand {
            match_spec: None,
        }
    }

    pub fn match_spec(self, value: &str) -> (r: FocusWindowCommand)
        ensures
            (r.match_spec matches Some(s2) && s2@ == value@) ,
    {
        FocusWindowCommand { match_spec: Some(String::from_str(value)), ..self }
    }

    /// Builds the wire envelope this command denotes.
    #[verifier::loop_isolation(false)]
    pub fn build(self) -> (r: Result<KittyMessage, CommandError>)
        ensures
            (r matches Ok(m) && m@.cmd == "focus-window"@ && m@.version == default_version()
                && m@.no_response is None && m@.kitty_window_id is None && m@.async_id is None
                && m@.cancel_async is None && m@.stream_id is None && m@.stream is None
                && m@.payload == Some(SpecJson::Obj(spec_focus_window_command_entries(self)))),
    {
        let ghost orig = self;
        let FocusWindowCommand { match_spec } = self;
        let mut entries: Vec<(String, JsonValue)> = Vec::new();
        proof {
            lemma_jv_entry_views_index(entries@);
        }
        let ghost mut ge: Seq<(Seq<char>, SpecJson)> = Seq::empty();
        assert(jv_entry_views(entries@) =~= ge);
        if let Some(x) = match_spec {
            proof {
                ge = ge.push(("match"@, SpecJson::Str(x@)));
            }
            push_entry(&mut entries, (String::from_str("match"), JsonValue::Str(x)));
        }
        assert(jv_entry_views(entries@) == ge);
        proof {
            assert(ge == spec_focus_window_command_entries(orig));
        }
        let msg = KittyMessage::new(String::from_str("focus-window"), default_version_vec());
        Ok(msg.payload(JsonValue::Obj(entries)))
    }
}

pub struct SelectWindowCommand {
    pub match_spec: Option<String>,
    pub title: Option<String>,
    pub exclude_active: bool,
    pub reactivate_prev_tab: bool,
}

/// The payload members `select-window` sends, in order.
pub open spec fn spec_select_window_command_entries(c: SelectWindowCommand) -> Seq<(Seq<char>, SpecJson)> {
    let e = Seq::<(Seq<char>, SpecJson)>::empty();
    let e = (if c.match_spec is Some { e.push(("match"@, SpecJson::Str(c.match_spec->0@))) } else { e });
    let e = (if c.title is Some { e.push(("title"@, SpecJson::Str(c.title->0@))) } else { e });
    let e = (if c.exclude_active { e.push(("exclude_active"@, SpecJson::Bool(true))) } else { e });
    let e = (if c.reactivate_prev_tab { e.push(("reactivate_prev_tab"@, SpecJson::Bool(true))) } else { e });
    e
}

impl SelectWindowCommand {
    pub fn new() -> (r: SelectWindowCommand)
        ensures
            r.match_spec is None,
            r.title is None,
            r.exclude_active == false,
            r.reactivate_prev_tab == false,
    {
        SelectWindowCommand {
            match_spec: None,
            title: None,
            exclude_active: false,
            reactivate_prev_tab: false,
        }
    }

    pub fn match_spec(self, value: &str) -> (r: SelectWindowCommand)
        ensures
            (r.match_spec matches Some(s2) && s2@ == value@) && r.title == self.title && r.exclude_active == self.exclude_active && r.reactivate_prev_tab == self.reactivate_prev_tab,
    {
        SelectWindowCommand { match_spec: Some(String::from_str(value)), ..self }
    }

    pub fn title(self, value: &str) -> (r: SelectWindowCommand)
        ensures
            (r.title matches Some(s2) && s2@ == value@) && r.match_spec == self.match_spec && r.exclude_active == self.exclude_active && r.reactivate_prev_tab == self.reactivate_prev_tab,
    {
        SelectWindowCommand { title: Some(String::from_str(value)), ..self }
    }

    pub fn exclude_active(self, value: bool) -> (r: SelectWindowCommand)
        ensures
            r.exclude_active == value && r.match_spec == self.match_spec && r.title == self.title && r.reactivate_prev_tab == self.reactivate_prev_tab,
    {
        SelectWindowCommand { exclude_active: value, ..self }
    }

    pub fn reactivate_prev_tab(self, value: bool) -> (r: SelectWindowCommand)
        ensures
            r.reactivate_prev_tab == value && r.match_spec == self.match_spec && r.title == self.title && r.exclude_active == self.exclude_active,
    {
        SelectWindowCommand { reactivate_prev_tab: value, ..self }
    }

    /// Builds the wire envelope this command denotes.
    #[verifier::loop_isolation(false)]
    pub fn build(self) -> (r: Result<KittyMessage, CommandError>)
        ensures
            (r matches Ok(m) && m@.cmd == "select-window"@ && m@.version == default_version()
                && m@.no_response is None && m@.kitty_window_id is None && m@.async_id is None
                && m@.cancel_async is None && m@.stream_id is None && m@.stream is None
                && m@.payload == Some(SpecJson::Obj(spec_select_window_command_entries(self)))),
    {
        let ghost orig = self;
        let SelectWindowCommand { match_spec, title, exclude_active, reactivate_prev_tab } = self;
        let mut entries: Vec<(String, JsonValue)> = Vec::new();
        proof {
            lemma_jv_entry_views_index(entries@);
        }
        let ghost mut ge: Seq<(Seq<char>, SpecJson)> = Seq::empty();
        assert(jv_entry_views(entries@) =~= ge);
        if let Some(x) = match_spec {
            proof {
                ge = ge.push(("match"@, SpecJson::Str(x@)));
            }
            push_entry(&mut entries, (String::from_str("match"), JsonValue::Str(x)));
        }
        assert(jv_entry_views(entries@) == ge);
        if let Some(x) = title {
            proof {
                ge = ge.push(("title"@, SpecJson::Str(x@)));
            }
            push_entry(&mut entries, (String::from_str("title"), JsonValue::Str(x)));
        }
        assert(jv_entry_views(entries@) == ge);
        if exclude_active {
            proof {
                ge = ge.push(("exclude_active"@, SpecJson::Bool(true)));
            }
            push_entry(&mut entries, (String::from_str("exclude_active"), JsonValue::Bool(true)));
        }
        assert(jv_entry_views(entries@) == ge);
        if reactivate_prev_tab {
            proof {
                ge = ge.push(("reactivate_prev_tab"@, SpecJson::Bool(true)));
            }
            push_entry(&mut entries, (String::from_str("reactivate_prev_tab"), JsonValue::Bool(true)));
        }
        assert(jv_entry_views(entries@) == ge);
        proof {
            assert(ge == spec_select_window_command_entries(orig));
        }
        let msg = KittyMessage::new(String::from_str("select-window"), default_version_vec());
        Ok(msg.payload(JsonValue::Obj(entries)))
    }
}

pub struct NewWindowCommand {
    pub args: Option<String>,
    pub title: Option<String>,
    pub cwd: Option<String>,
    pub keep_focus: bool,
    pub window_type: Option<String>,
    pub new_tab: bool,
    pub tab_title: Option<String>,
}

/// The payload members `new-window` sends, in order.
pub open spec fn spec_new_window_command_entries(c: NewWindowCommand) -> Seq<(Seq<char>, SpecJson)> {
    let e = Seq::<(Seq<char>, SpecJson)>::empty();
    let e = (if c.args is Some { e.push(("args"@, SpecJson::Str(c.args->0@))) } else { e });
    let e = (if c.title is Some { e.push(("title"@, SpecJson::Str(c.title->0@))) } else { e });
    let e = (if c.cwd is Some { e.push(("cwd"@, SpecJson::Str(c.cwd->0@))) } else { e });
    let e = (if c.keep_focus { e.push(("keep_focus"@, SpecJson::Bool(true))) } else { e });
    let e = (if c.window_type is Some { e.push(("window_type"@, SpecJson::Str(c.window_type->0@))) } else { e });
    let e = (if c.new_tab { e.push(("new_tab"@, SpecJson::Bool(true))) } else { e });
    let e = (if c.tab_title is Some { e.push(("tab_title"@, SpecJson::Str(c.tab_title->0@))) } else { e });
    e
}

impl NewWindowCommand {
    pub fn new() -> (r: NewWindowCommand)
        ensures
            r.args is None,
            r.title is None,
            r.cwd is None,
            r.keep_focus == false,
            r.window_type is None,
            r.new_tab == false,
            r.tab_title is None,
    {
        NewWindowCommand {
            args: None,
            title: None,
            cwd: None,
            keep_focus: false,
            window_type: None,
            new_tab: false,
            tab_title: None,
        }
    }

    pub fn args(self, value: &str) -> (r: NewWindowCommand)
        ensures
            (r.args matches Some(s2) && s2@ == value@) && r.title == self.title && r.cwd == self.cwd && r.keep_focus == self.keep_focus && r.window_type == self.window_type && r.new_tab == self.new_tab && r.tab_title == self.tab_title,
    {
        NewWindowCommand { args: Some(String::from_str(value)), ..self }
    }

    pub fn title(self, value: &str) -> (r: NewWindowCommand)
        ensures
            (r.title matches Some(s2) && s2@ == value@) && r.args == self.args && r.cwd == self.cwd && r.keep_focus == self.keep_focus && r.window_type == self.window_type && r.new_tab == self.new_tab && r.tab_title == self.tab_title,
    {
        NewWindowCommand { title: Some(String::from_str(value)), ..self }
    }

    pub fn cwd(self, value: &str) -> (r: NewWindowCommand)
        ensures
            (r.cwd matches Some(s2) && s2@ == value@) && r.args == self.args && r.title == self.title && r.keep_focus == self.keep_focus && r.window_type == self.window_type && r.new_tab == self.new_tab && r.tab_title == self.tab_title,
    {
        NewWindowCommand { cwd: Some(String::from_str(value)), ..self }
    }

    pub fn keep_focus(self, value: bool) -> (r: NewWindowCommand)
        ensures
            r.keep_focus == value && r.args == self.args && r.title == self.title && r.cwd == self.cwd && r.window_type == self.window_type && r.new_tab == self.new_tab && r.tab_title == self.tab_title,
    {
        NewWindowCommand { keep_focus: value, ..self }
    }

    pub fn window_type(self, value: &str) -> (r: NewWindowCommand)
        ensures
            (r.window_type matches Some(s2) && s2@ == value@) && r.args == self.args && r.title == self.title && r.cwd == self.cwd && r.keep_focus == self.keep_focus && r.new_tab == self.new_tab && r.tab_title == self.tab_title,
    {
        NewWindowCommand { window_type: Some(String::from_str(value)), ..self }
    }

    pub fn new_tab(self, value: bool) -> (r: NewWindowCommand)
        ensures
            r.new_tab == value && r.args == self.args && r.title == self.title && r.cwd == self.cwd && r.keep_focus == self.keep_focus && r.window_type == self.window_type && r.tab_title == self.tab_title,
    {
        NewWindowCommand { new_tab: value, ..self }
    }

    pub fn tab_title(self, value: &str) -> (r: NewWindowCommand)
        ensures
            (r.tab_title matches Some(s2) && s2@ == value@) && r.args == self.args && r.title == self.title && r.cwd == self.cwd && r.keep_focus == self.keep_focus && r.window_type == self.window_type && r.new_tab == self.new_tab,
    {
        NewWindowCommand { tab_title: Some(String::from_str(value)), ..self }
    }

    /// Builds the wire envelope this command denotes.
    #[verifier::loop_isolation(false)]
    #[verifier::rlimit(100)]
    pub fn build(self) -> (r: Result<KittyMessage, CommandError>)
        ensures
            (r matches Ok(m) && m@.cmd == "new-window"@ && m@.version == default_version()
                && m@.no_response is None && m@.kitty_window_id is None && m@.async_id is None
                && m@.cancel_async is None && m@.stream_id is None && m@.stream is None
                && m@.payload == Some(SpecJson::Obj(spec_new_window_command_entries(self)))),
    {
        let ghost orig = self;
        let NewWindowCommand { args, title, cwd, keep_focus, window_type, new_tab, tab_title } = self;
        let mut entries: Vec<(String, JsonValue)> = Vec::new();
        proof {
            lemma_jv_entry_views_index(entries@);
        }
        let ghost mut ge: Seq<(Seq<char>, SpecJson)> = Seq::empty();
        assert(jv_entry_views(entries@) =~= ge);
        if let Some(x) = args {
            proof {
                ge = ge.push(("args"@, SpecJson::Str(x@)));
            }
            push_entry(&mut entries, (String::from_str("args"), JsonValue::Str(x)));
        }
        assert(jv_entry_views(entries@) == ge);
        if let Some(x) = title {
            proof {
                ge = ge.push(("title"@, SpecJson::Str(x@)));
            }
            push_entry(&mut entries, (String::from_str("title"), JsonValue::Str(x)));
        }
        assert(jv_entry_views(entries@) == ge);
        if let Some(x) = cwd {
            proof {
                ge = ge.push(("cwd"@, SpecJson::Str(x@)));
            }
            push_entry(&mut entries, (String::from_str("cwd"), JsonValue::Str(x)));
        }
        assert(jv_entry_views(entries@) == ge);
        if keep_focus {
            proof {
                ge = ge.push(("keep_focus"@, SpecJson::Bool(true)));
            }
            push_entry(&mut entries, (String::from_str("keep_focus"), JsonValue::Bool(true)));
        }
        assert(jv_entry_views(entries@) == ge);
        if let Some(x) = window_type {
            proof {
                ge = ge.push(("window_type"@, SpecJson::Str(x@)));
            }
            push_entry(&mut entries, (String::from_str("window_type"), JsonValue::Str(x)));
        }
        assert(jv_entry_views(entries@) == ge);
        if new_tab {
            proof {
                ge = ge.push(("new_tab"@, SpecJson::Bool(true)));
            }
            push_entry(&mut entries, (String::from_str("new_tab"), JsonValue::Bool(true)));
        }
        assert(jv_entry_views(entries@) == ge);
        if let Some(x) = tab_title {
            proof {
                ge = ge.push(("tab_title"@, SpecJson::Str(x@)));
            }
            push_entry(&mut entries, (String::from_str("tab_title"), JsonValue::Str(x)));
        }
        assert(jv_entry_views(entries@) == ge);
        proof {
            assert(ge == spec_new_window_command_entries(orig));
        }
        let msg = KittyMessage::new(String::from_str("new-window"), default_version_vec());
        Ok(msg.payload(JsonValue::Obj(entries)))
    }
}

pub struct DetachWindowCommand {
    pub match_spec: Option<String>,
    pub target_tab: Option<String>,
    pub self_window: bool,
    pub stay_in_tab: bool,
}

/// The payload members `detach-window` sends, in order.
pub open spec fn spec_detach_window_command_entries(c: DetachWindowCommand) -> Seq<(Seq<char>, SpecJson)> {
    let e = Seq::<(Seq<char>, SpecJson)>::empty();
    let e = (if c.match_spec is Some { e.push(("match"@, SpecJson::Str(c.match_spec->0@))) } else { e });
    let e = (if c.target_tab is Some { e.push(("target_tab"@, SpecJson::Str(c.target_tab->0@))) } else { e });
    let e = (if c.self_window { e.push(("self"@, SpecJson::Bool(true))) } else { e });
    let e = (if c.stay_in_tab { e.push(("stay_in_tab"@, SpecJson::Bool(true))) } else { e });
    e
}

impl DetachWindowCommand {
    pub fn new() -> (r: DetachWindowCommand)
        ensures
            r.match_spec is None,
            r.target_tab is None,
            r.self_window == false,
            r.stay_in_tab == false,
    {
        DetachWindowCommand {
            match_spec: None,
            target_tab: None,
            self_window: false,
            stay_in_tab: false,
        }
    }

    pub fn match_spec(self, value: &str) -> (r: DetachWindowCommand)
        ensures
            (r.match_spec matches Some(s2) && s2@ == value@) && r.target_tab == self.target_tab && r.self_window == self.self_window && r.stay_in_tab == self.stay_in_tab,
    {
        DetachWindowCommand { match_spec: Some(String::from_str(value)), ..self }
    }

    pub fn target_tab(self, value: &str) -> (r: DetachWindowCommand)
        ensures
            (r.target_tab matches Some(s2) && s2@ == value@) && r.match_spec == self.match_spec && r.self_window == self.self_window && r.stay_in_tab == self.stay_in_tab,
    {
        DetachWindowCommand { target_tab: Some(String::from_str(value)), ..self }
    }

    pub fn self_window(self, value: bool) -> (r: DetachWindowCommand)
        ensures
            r.self_window == value && r.match_spec == self.match_spec && r.target_tab == self.target_tab && r.stay_in_tab == self.stay_in_tab,
    {
        DetachWindowCommand { self_window: value, ..self }
    }

    pub fn stay_in_tab(self, value: bool) -> (r: DetachWindowCommand)
        ensures
            r.stay_in_tab == value && r.match_spec == self.match_spec && r.target_tab == self.target_tab && r.self_window == self.self_window,
    {
        DetachWindowCommand { stay_in_tab: value, ..self }
    }

    /// Builds the wire envelope this command denotes.
    #[verifier::loop_isolation(false)]
    pub fn build(self) -> (r: Result<KittyMessage, CommandError>)
        ensures
            (r matches Ok(m) && m@.cmd == "detach-window"@ && m@.version == default_version()
                && m@.no_response is None && m@.kitty_window_id is None && m@.async_id is None
                && m@.cancel_async is None && m@.stream_id is None && m@.stream is None
                && m@.payload == Some(SpecJson::Obj(spec_detach_window_command_entries(self)))),
    {
        let ghost orig = self;
        let DetachWindowCommand { match_spec, target_tab, self_window, stay_in_tab } = self;
        let mut entries: Vec<(String, JsonValue)> = Vec::new();
        proof {
            lemma_jv_entry_views_index(entries@);
        }
        let ghost mut ge: Seq<(Seq<char>, SpecJson)> = Seq::empty();
        assert(jv_entry_views(entries@) =~= ge);
        if let Some(x) = match_spec {
            proof {
                ge = ge.push(("match"@, SpecJson::Str(x@)));
            }
            push_entry(&mut entries, (String::from_str("match"), JsonValue::Str(x)));
        }
        assert(jv_entry_views(entries@) == ge);
        if let Some(x) = target_tab {
            proof {
                ge = ge.push(("target_tab"@, SpecJson::Str(x@)));
            }
            push_entry(&mut entries, (String::from_str("target_tab"), JsonValue::Str(x)));
        }
        assert(jv_entry_views(entries@) == ge);
        if self_window {
            proof {
                ge = ge.push(("self"@, SpecJson::Bool(true)));
            }
            push_entry(&mut entries, (String::from_str("self"), JsonValue::Bool(true)));
        }
        assert(jv_entry_views(entries@) == ge);
        if stay_in_tab {
            proof {
                ge = ge.push(("stay_in_tab"@, SpecJson::Bool(true)));
            }
            push_entry(&mut entries, (String::from_str("stay_in_tab"), JsonValue::Bool(true)));
        }
        assert(jv_entry_views(entries@) == ge);
        proof {
            assert(ge == spec_detach_window_command_entries(orig));
        }
        let msg = KittyMessage::new(String::from_str("detach-window"), default_version_vec());
        Ok(msg.payload(JsonValue::Obj(entries)))
    }
}

pub struct SetWindowTitleCommand {
    pub title: String,
    pub match_spec: Option<String>,
    pub temporary: bool,
}

/// The payload members `set-window-title` sends, in order.
pub open spec fn spec_set_window_title_command_entries(c: SetWindowTitleCommand) -> Seq<(Seq<char>, SpecJson)> {
    let e = Seq::<(Seq<char>, SpecJson)>::empty();
    let e = e.push(("title"@, SpecJson::Str(c.title@)));
    let e = (if c.match_spec is Some { e.push(("match"@, SpecJson::Str(c.match_spec->0@))) } else { e });
    let e = (if c.temporary { e.push(("temporary"@, SpecJson::Bool(true))) } else { e });
    e
}

impl SetWindowTitleCommand {
    pub fn new(title: &str) -> (r: SetWindowTitleCommand)
        ensures
            r.title@ == title@,
            r.match_spec is None,
            r.temporary == false,
    {
        SetWindowTitleCommand {
            title: String::from_str(title),
            match_spec: None,
            temporary: false,
        }
    }

    pub fn match_spec(self, value: &str) -> (r: SetWindowTitleCommand)
        ensures
            (r.match_spec matches Some(s2) && s2@ == value@) && r.title == self.title && r.temporary == self.temporary,
    {
        SetWindowTitleCommand { match_spec: Some(String::from_str(value)), ..self }
    }

    pub fn temporary(self, value: bool) -> (r: SetWindowTitleCommand)
        ensures
            r.temporary == value && r.title == self.title && r.match_spec == self.match_spec,
    {
        SetWindowTitleCommand { temporary: value, ..self }
    }

    /// Builds the wire envelope this command denotes.
    #[verifier::loop_isolation(false)]
    pub fn build(self) -> (r: Result<KittyMessage, CommandError>)
        ensures
            self.title@.len() == 0 ==> (r matches Err(e) && (e matches CommandError::MissingParameter(p, cc) && p@ == "title"@ && cc@ == "set-window-title"@)),
            self.title@.len() > 0 ==> (r matches Ok(m) && m@.cmd == "set-window-title"@ && m@.version == default_version()
                && m@.no_response is None && m@.kitty_window_id is None && m@.async_id is None
                && m@.cancel_async is None && m@.stream_id is None && m@.stream is None
                && m@.payload == Some(SpecJson::Obj(spec_set_window_title_command_entries(self)))),
    {
        let ghost orig = self;
        if self.title.as_str().is_empty() {
            return Err(CommandError::MissingParameter(String::from_str("title"), String::from_str("set-window-title")));
        }
        let SetWindowTitleCommand { title, match_spec, temporary } = self;
        let mut entries: Vec<(String, JsonValue)> = Vec::new();
        proof {
            lemma_jv_entry_views_index(entries@);
        }
        let ghost mut ge: Seq<(Seq<char>, SpecJson)> = Seq::empty();
        assert(jv_entry_views(entries@) =~= ge);
        proof {
            ge = ge.push(("title"@, SpecJson::Str(title@)));
        }
        push_entry(&mut entries, (String::from_str("title"), JsonValue::Str(title)));
        assert(jv_entry_views(entries@) == ge);
        if let Some(x) = match_spec {
            proof {
                ge = ge.push(("match"@, SpecJson::Str(x@)));
            }
            push_entry(&mut entries, (String::from_str("match"), JsonValue::Str(x)));
        }
        assert(jv_entry_views(entries@) == ge);
        if temporary {
            proof {
                ge = ge.push(("temporary"@, SpecJson::Bool(true)));
            }
            push_entry(&mut entries, (String::from_str("temporary"), JsonValue::Bool(true)));
        }
        assert(jv_entry_views(entries@) == ge);
        proof {
            assert(ge == spec_set_window_title_command_entries(orig));
        }
        let msg = KittyMessage::new(String::from_str("set-window-title"), default_version_vec());
        Ok(msg.payload(JsonValue::Obj(entries)))
    }
}

pub struct GetTextCommand {
    pub match_spec: Option<String>,
    pub extent: Option<String>,
    pub ansi: bool,
    pub cursor: bool,
    pub wrap_markers: bool,
    pub clear_selection: bool,
    pub self_window: bool,
}

/// The payload members `get-text` sends, in order.
pub open spec fn spec_get_text_command_entries(c: GetTextCommand) -> Seq<(Seq<char>, SpecJson)> {
    let e = Seq::<(Seq<char>, SpecJson)>::empty();
    let e = (if c.match_spec is Some { e.push(("match"@, SpecJson::Str(c.match_spec->0@))) } else { e });
    let e = (if c.extent is Some { e.push(("extent"@, SpecJson::Str(c.extent->0@))) } else { e });
    let e = (if c.ansi { e.push(("ansi"@, SpecJson::Bool(true))) } else { e });
    let e = (if c.cursor { e.push(("cursor"@, SpecJson::Bool(true))) } else { e });
    let e = (if c.wrap_markers { e.push(("wrap_markers"@, SpecJson::Bool(true))) } else { e });
    let e = (if c.clear_selection { e.push(("clear_selection"@, SpecJson::Bool(true))) } else { e });
    let e = (if c.self_window { e.push(("self"@, SpecJson::Bool(true))) } else { e });
    e
}

impl GetTextCommand {
    pub fn new() -> (r: GetTextCommand)
        ensures
            r.match_spec is None,
            r.extent is None,
            r.ansi == false,
            r.cursor == false,
            r.wrap_markers == false,
            r.clear_selection == false,
            r.self_window == false,
    {
        GetTextCommand {
            match_spec: None,
            extent: None,
            ansi: false,
            cursor: false,
            wrap_markers: false,
            clear_selection: false,
            self_window: false,
        }
    }

    pub fn match_spec(self, value: &str) -> (r: GetTextCommand)
        ensures
            (r.match_spec matches Some(s2) && s2@ == value@) && r.extent == self.extent && r.ansi == self.ansi && r.cursor == self.cursor && r.wrap_markers == self.wrap_markers && r.clear_selection == self.clear_selection && r.self_window == self.self_window,
    {
        GetTextCommand { match_spec: Some(String::from_str(value)), ..self }
    }

    pub fn extent(self, value: &str) -> (r: GetTextCommand)
        ensures
            (r.extent matches Some(s2) && s2@ == value@) && r.match_spec == self.match_spec && r.ansi == self.ansi && r.cursor == self.cursor && r.wrap_markers == self.wrap_markers && r.clear_selection == self.clear_selection && r.self_window == self.self_window,
    {
        GetTextCommand { extent: Some(String::from_str(value)), ..self }
    }

    pub fn ansi(self, value: bool) -> (r: GetTextCommand)
        ensures
            r.ansi == value && r.match_spec == self.match_spec && r.extent == self.extent && r.cursor == self.cursor && r.wrap_markers == self.wrap_markers && r.clear_selection == self.clear_selection && r.self_window == self.self_window,
    {
        GetTextCommand { ansi: value, ..self }
    }

    pub fn cursor(self, value: bool) -> (r: GetTextCommand)
        ensures
            r.cursor == value && r.match_spec == self.match_spec && r.extent == self.extent && r.ansi == self.ansi && r.wrap_markers == self.wrap_markers && r.clear_selection == self.clear_selection && r.self_window == self.self_window,
    {
        GetTextCommand { cursor: value, ..self }
    }

    pub fn wrap_markers(self, value: bool) -> (r: GetTextCommand)
        ensures
            r.wrap_markers == value && r.match_spec == self.match_spec && r.extent == self.extent && r.ansi == self.ansi && r.cursor == self.cursor && r.clear_selection == self.clear_selection && r.self_window == self.self_window,
    {
        GetTextCommand { wrap_markers: value, ..self }
    }

    pub fn clear_selection(self, value: bool) -> (r: GetTextCommand)
        ensures
            r.clear_selection == value && r.match_spec == self.match_spec && r.extent == self.extent && r.ansi == self.ansi && r.cursor == self.cursor && r.wrap_markers == self.wrap_markers && r.self_window == self.self_window,
    {
        GetTextCommand { clear_selection: value, ..self }
    }

    pub fn self_window(self, value: bool) -> (r: GetTextCommand)
        ensures
            r.self_window == value && r.match_spec == self.match_spec && r.extent == self.extent && r.ansi == self.ansi && r.cursor == self.cursor && r.wrap_markers == self.wrap_markers && r.clear_selection == self.clear_selection,
    {
        GetTextCommand { self_window: value, ..self }
    }

    /// Builds the wire envelope this command denotes.
    #[verifier::loop_isolation(false)]
    #[verifier::rlimit(100)]
    pub fn build(self) -> (r: Result<KittyMessage, CommandError>)
        ensures
            (r matches Ok(m) && m@.cmd == "get-text"@ && m@.version == default_version()
                && m@.no_response is None && m@.kitty_window_id is None && m@.async_id is None
                && m@.cancel_async is None && m@.stream_id is None && m@.stream is None
                && m@.payload == Some(SpecJson::Obj(spec_get_text_command_entries(self)))),
    {
        let ghost orig = self;
        let GetTextCommand { match_spec, extent, ansi, cursor, wrap_markers, clear_selection, self_window } = self;
        let mut entries: Vec<(String, JsonValue)> = Vec::new();
        proof {
            lemma_jv_entry_views_index(entries@);
        }
        let ghost mut ge: Seq<(Seq<char>, SpecJson)> = Seq::empty();
        assert(jv_entry_views(entries@) =~= ge);
        if let Some(x) = match_spec {
            proof {
                ge = ge.push(("match"@, SpecJson::Str(x@)));
            }
            push_entry(&mut entries, (String::from_str("match"), JsonValue::Str(x)));
        }
        assert(jv_entry_views(entries@) == ge);
        if let Some(x) = extent {
            proof {
                ge = ge.push(("extent"@, SpecJson::Str(x@)));
            }
            push_entry(&mut entries, (String::from_str("extent"), JsonValue::Str(x)));
        }
        assert(jv_entry_views(entries@) == ge);
        if ansi {
            proof {
                ge = ge.push(("ansi"@, SpecJson::Bool(true)));
            }
            push_entry(&mut entries, (String::from_str("ansi"), JsonValue::Bool(true)));
        }
        assert(jv_entry_views(entries@) == ge);
        if cursor {
            proof {
                ge = ge.push(("cursor"@, SpecJson::Bool(true)));
            }
            push_entry(&mut entries, (String::from_str("cursor"), JsonValue::Bool(true)));
        }
        assert(jv_entry_views(entries@) == ge);
        if wrap_markers {
            proof {
                ge = ge.push(("wrap_markers"@, SpecJson::Bool(true)));
            }
            push_entry(&mut entries, (String::from_str("wrap_markers"), JsonValue::Bool(true)));
        }
        assert(jv_entry_views(entries@) == ge);
        if clear_selection {
            proof {
                ge = ge.push(("clear_selection"@, SpecJson::Bool(true)));
            }
            push_entry(&mut entries, (String::from_str("clear_selection"), JsonValue::Bool(true)));
        }
        assert(jv_entry_views(entries@) == ge);
        if self_window {
            proof {
                ge = ge.push(("self"@, SpecJson::Bool(true)));
            }
            push_entry(&mut entries, (String::from_str("self"), JsonValue::Bool(true)));
        }
        assert(jv_entry_views(entries@) == ge);
        proof {
            assert(ge == spec_get_text_command_entries(orig));
        }
        let msg = KittyMessage::new(String::from_str("get-text"), default_version_vec());
        Ok(msg.payload(JsonValue::Obj(entries)))
    }
}

pub struct ScrollWindowCommand {
    pub amount: i32,
    pub match_spec: Option<String>,
}

/// The payload members `scroll-window` sends, in order.
pub open spec fn spec_scroll_window_command_entries(c: ScrollWindowCommand) -> Seq<(Seq<char>, SpecJson)> {
    let e = Seq::<(Seq<char>, SpecJson)>::empty();
    let e = e.push(("amount"@, SpecJson::Int(c.amount as i64)));
    let e = (if c.match_spec is Some { e.push(("match"@, SpecJson::Str(c.match_spec->0@))) } else { e });
    e
}

impl ScrollWindowCommand {
    pub fn new(amount: i32) -> (r: ScrollWindowCommand)
        ensures
            r.amount == amount,
            r.match_spec is None,
    {
        ScrollWindowCommand {
            amount,
            match_spec: None,
        }
    }

    pub fn match_spec(self, value: &str) -> (r: ScrollWindowCommand)
        ensures
            (r.match_spec matches Some(s2) && s2@ == value@) && r.amount == self.amount,
    {
        ScrollWindowCommand { match_spec: Some(String::from_str(value)), ..self }
    }

    /// Builds the wire envelope this command denotes.
    #[verifier::loop_isolation(false)]
    pub fn build(self) -> (r: Result<KittyMessage, CommandError>)
        ensures
            (r matches Ok(m) && m@.cmd == "scroll-window"@ && m@.version == default_version()
                && m@.no_response is None && m@.kitty_window_id is None && m@.async_id is None
                && m@.cancel_async is None && m@.stream_id is None && m@.stream is None
                && m@.payload == Some(SpecJson::Obj(spec_scroll_window_command_entries(self)))),
    {
        let ghost orig = self;
        let ScrollWindowCommand { amount, match_spec } = self;
        let mut entries: Vec<(String, JsonValue)> = Vec::new();
        proof {
            lemma_jv_entry_views_index(entries@);
        }
        let ghost mut ge: Seq<(Seq<char>, SpecJson)> = Seq::empty();
        assert(jv_entry_views(entries@) =~= ge);
        proof {
            ge = ge.push(("amount"@, SpecJson::Int(amount as i64)));
        }
        push_entry(&mut entries, (String::from_str("amount"), JsonValue::Int(amount as i64)));
        assert(jv_entry_views(entries@) == ge);
        if let Some(x) = match_spec {
            proof {
                ge = ge.push(("match"@, SpecJson::Str(x@)));
            }
            push_entry(&mut entries, (String::from_str("match"), JsonValue::Str(x)));
        }
        assert(jv_entry_views(entries@) == ge);
        proof {
            assert(ge == spec_scroll_window_command_entries(orig));
        }
        let msg = KittyMessage::new(String::from_str("scroll-window"), default_version_vec());
        Ok(msg.payload(JsonValue::Obj(entries)))
    }
}

pub struct CreateMarkerCommand {
    pub match_spec: Option<String>,
    pub self_window: bool,
    pub marker_spec: Option<String>,
}

/// The payload members `create-marker` sends, in order.
pub open spec fn spec_create_marker_command_entries(c: CreateMarkerCommand) -> Seq<(Seq<char>, SpecJson)> {
    let e = Seq::<(Seq<char>, SpecJson)>::empty();
    let e = (if c.match_spec is Some { e.push(("match"@, SpecJson::Str(c.match_spec->0@))) } else { e });
    let e = (if c.self_window { e.push(("self"@, SpecJson::Bool(true))) } else { e });
    let e = (if c.marker_spec is Some { e.push(("marker_spec"@, SpecJson::Str(c.marker_spec->0@))) } else { e });
    e
}

impl CreateMarkerCommand {
    pub fn new() -> (r: CreateMarkerCommand)
        ensures
            r.match_spec is None,
            r.self_window == false,
            r.marker_spec is None,
    {
        CreateMarkerCommand {
            match_spec: None,
            self_window: false,
            marker_spec: None,
        }
    }

    pub fn match_spec(self, value: &str) -> (r: CreateMarkerCommand)
        ensures
            (r.match_spec matches Some(s2) && s2@ == value@) && r.self_window == self.self_window && r.marker_spec == self.marker_spec,
    {
        CreateMarkerCommand { match_spec: Some(String::from_str(value)), ..self }
    }

    pub fn self_window(self, value: bool) -> (r: CreateMarkerCommand)
        ensures
            r.self_window == value && r.match_spec == self.match_spec && r.marker_spec == self.marker_spec,
    {
        CreateMarkerCommand { self_window: value, ..self }
    }

    pub fn marker_spec(self, value: &str) -> (r: CreateMarkerCommand)
        ensures
            (r.marker_spec matches Some(s2) && s2@ == value@) && r.match_spec == self.match_spec && r.self_window == self.self_window,
    {
        CreateMarkerCommand { marker_spec: Some(String::from_str(value)), ..self }
    }

    /// Builds the wire envelope this command denotes.
    #[verifier::loop_isolation(false)]
    pub fn build(self) -> (r: Result<KittyMessage, CommandError>)
        ensures
            (r matches Ok(m) && m@.cmd == "create-marker"@ && m@.version == default_version()
                && m@.no_response is None && m@.kitty_window_id is None && m@.async_id is None
                && m@.cancel_async is None && m@.stream_id is None && m@.stream is None
                && m@.payload == Some(SpecJson::Obj(spec_create_marker_command_entries(self)))),
    {
        let ghost orig = self;
        let CreateMarkerCommand { match_spec, self_window, marker_spec } = self;
        let mut entries: Vec<(String, JsonValue)> = Vec::new();
        proof {
            lemma_jv_entry_views_index(entries@);
        }
        let ghost mut ge: Seq<(Seq<char>, SpecJson)> = Seq::empty();
        assert(jv_entry_views(entries@) =~= ge);
        if let Some(x) = match_spec {
            proof {
                ge = ge.push(("match"@, SpecJson::Str(x@)));
            }
            push_entry(&mut entries, (String::from_str("match"), JsonValue::Str(x)));
        }
        assert(jv_entry_views(entries@) == ge);
        if self_window {
            proof {
                ge = ge.push(("self"@, SpecJson::Bool(true)));
            }
            push_entry(&mut entries, (String::from_str("self"), JsonValue::Bool(true)));
        }
        assert(jv_entry_views(entries@) == ge);
        if let Some(x) = marker_spec {
            proof {
                ge = ge.push(("marker_spec"@, SpecJson::Str(x@)));
            }
            push_entry(&mut entries, (String::from_str("marker_spec"), JsonValue::Str(x)));
        }
        assert(jv_entry_views(entries@) == ge);
        proof {
            assert(ge == spec_create_marker_command_entries(orig));
        }
        let msg = KittyMessage::new(String::from_str("create-marker"), default_version_vec());
        Ok(msg.payload(JsonValue::Obj(entries)))
    }
}

pub struct RemoveMarkerCommand {
    pub match_spec: Option<String>,
    pub self_window: bool,
}

/// The payload members `remove-marker` sends, in order.
pub open spec fn spec_remove_marker_command_entries(c: RemoveMarkerCommand) -> Seq<(Seq<char>, SpecJson)> {
    let e = Seq::<(Seq<char>, SpecJson)>::empty();
    let e = (if c.match_spec is Some { e.push(("match"@, SpecJson::Str(c.match_spec->0@))) } else { e });
    let e = (if c.self_window { e.push(("self"@, SpecJson::Bool(true))) } else { e });
    e
}

impl RemoveMarkerCommand {
    pub fn new() -> (r: RemoveMarkerCommand)
        ensures
            r.match_spec is None,
            r.self_window == false,
    {
        RemoveMarkerCommand {
            match_spec: None,
            self_window: false,
        }
    }

    pub fn match_spec(self, value: &str) -> (r: RemoveMarkerCommand)
        ensures
            (r.match_spec matches Some(s2) && s2@ == value@) && r.self_window == self.self_window,
    {
        RemoveMarkerCommand { match_spec: Some(String::from_str(value)), ..self }
    }

    pub fn self_window(self, value: bool) -> (r: RemoveMarkerCommand)
        ensures
            r.self_window == value && r.match_spec == self.match_spec,
    {
        RemoveMarkerCommand { self_window: value, ..self }
    }

    /// Builds the wire envelope this command denotes.
    #[verifier::loop_isolation(false)]
    pub fn build(self) -> (r: Result<KittyMessage, CommandError>)
        ensures
            (r matches Ok(m) && m@.cmd == "remove-marker"@ && m@.version == default_version()
                && m@.no_response is None && m@.kitty_window_id is None && m@.async_id is None
                && m@.cancel_async is None && m@.stream_id is None && m@.stream is None
                && m@.payload == Some(SpecJson::Obj(spec_remove_marker_command_entries(self)))),
    {
        let ghost orig = self;
        let RemoveMarkerCommand { match_spec, self_window } = self;
        let mut entries: Vec<(String, JsonValue)> = Vec::new();
        proof {
            lemma_jv_entry_views_index(entries@);
        }
        let ghost mut ge: Seq<(Seq<char>, SpecJson)> = Seq::empty();
        assert(jv_entry_views(entries@) =~= ge);
        if let Some(x) = match_spec {
            proof {
                ge = ge.push(("match"@, SpecJson::Str(x@)));
            }
            push_entry(&mut entries, (String::from_str("match"), JsonValue::Str(x)));
        }
        assert(jv_entry_views(entries@) == ge);
        if self_window {
            proof {
                ge = ge.push(("self"@, SpecJson::Bool(true)));
            }
            push_entry(&mut entries, (String::from_str("self"), JsonValue::Bool(true)));
        }
        assert(jv_entry_views(entries@) == ge);
        proof {
            assert(ge == spec_remove_marker_command_entries(orig));
        }
        let msg = KittyMessage::new(String::from_str("remove-marker"), default_version_vec());
        Ok(msg.payload(JsonValue::Obj(entries)))
    }
}

} // verus!
