//! Builders for the process commands: running programs, launching windows, environment, configuration, signals.
use crate::command::default_version;
use crate::command::default_version_vec;
use crate::command::push_entry;
use crate::error::CommandError;
use crate::json::JsonValue;
use crate::json::SpecJson;
use crate::json::jv_entry_views;
use crate::json::lemma_jv_entry_views_index;
use crate::protocol::KittyMessage;
use vstd::prelude::*;
use vstd::string::StringExecFns;

verus! {

pub struct RunCommand {
    pub data: Option<String>,
    pub cmdline: Option<String>,
    pub env: Option<Vec<(String, JsonValue)>>,
    pub allow_remote_control: bool,
    pub remote_control_password: Option<String>,
}

/// The payload members `run` sends, in order.
pub open spec fn spec_run_command_entries(c: RunCommand) -> Seq<(Seq<char>, SpecJson)> {
    let e = Seq::<(Seq<char>, SpecJson)>::empty();
    let e = (if c.data is Some { e.push(("data"@, SpecJson::Str(c.data->0@))) } else { e });
    let e = (if c.cmdline is Some { e.push(("cmdline"@, SpecJson::Str(c.cmdline->0@))) } else { e });
    let e = (if c.env is Some { e.push(("env"@, SpecJson::Obj(jv_entry_views(c.env->0@)))) } else { e });
    let e = (if c.allow_remote_control { e.push(("allow_remote_control"@, SpecJson::Bool(true))) } else { e });
    let e = (if c.remote_control_password is Some { e.push(("remote_control_password"@, SpecJson::Str(c.remote_control_password->0@))) } else { e });
    e
}

impl RunCommand {
    pub fn new() -> (r: RunCommand)
        ensures
            r.data is None,
            r.cmdline is None,
            r.env is None,
            r.allow_remote_control == false,
            r.remote_control_password is None,
    {
        RunCommand {
            data: None,
            cmdline: None,
            env: None,
            allow_remote_control: false,
            remote_control_password: None,
        }
    }

    pub fn data(self, value: &str) -> (r: RunCommand)
        ensures
            (r.data matches Some(s2) && s2@ == value@) && r.cmdline == self.cmdline && r.env == self.env && r.allow_remote_control == self.allow_remote_control && r.remote_control_password == self.remote_control_password,
    {
        RunCommand { data: Some(String::from_str(value)), ..self }
    }

    pub fn cmdline(self, value: &str) -> (r: RunCommand)
        ensures
            (r.cmdline matches Some(s2) && s2@ == value@) && r.data == self.data && r.env == self.env && r.allow_remote_control == self.allow_remote_control && r.remote_control_password == self.remote_control_password,
    {
        RunCommand { cmdline: Some(String::from_str(value)), ..self }
    }

    pub fn env(self, value: Vec<(String, JsonValue)>) -> (r: RunCommand)
        ensures
            r.env == Some(value) && r.data == self.data && r.cmdline == self.cmdline && r.allow_remote_control == self.allow_remote_control && r.remote_control_password == self.remote_control_password,
    {
        RunCommand { env: Some(value), ..self }
    }

    pub fn allow_remote_control(self, value: bool) -> (r: RunCommand)
        ensures
            r.allow_remote_control == value && r.data == self.data && r.cmdline == self.cmdline && r.env == self.env && r.remote_control_password == self.remote_control_password,
    {
        RunCommand { allow_remote_control: value, ..self }
    }

    pub fn remote_control_password(self, value: &str) -> (r: RunCommand)
        ensures
            (r.remote_control_password matches Some(s2) && s2@ == value@) && r.data == self.data && r.cmdline == self.cmdline && r.env == self.env && r.allow_remote_control == self.allow_remote_control,
    {
        RunCommand { remote_control_password: Some(String::from_str(value)), ..self }
    }

    /// Builds the wire envelope this command denotes.
    #[verifier::loop_isolation(false)]
    #[verifier::rlimit(100)]
    pub fn build(self) -> (r: Result<KittyMessage, CommandError>)
        ensures
            (r matches Ok(m) && m@.cmd == "run"@ && m@.version == default_version()
                && m@.no_response is None && m@.kitty_window_id is None && m@.async_id is None
                && m@.cancel_async is None && m@.stream_id is None && m@.stream is None
                && m@.payload == Some(SpecJson::Obj(spec_run_command_entries(self)))),
    {
        let ghost orig = self;
        let RunCommand { data, cmdline, env, allow_remote_control, remote_control_password } = self;
        let mut entries: Vec<(String, JsonValue)> = Vec::new();
        proof {
            lemma_jv_entry_views_index(entries@);
        }
        let ghost mut ge: Seq<(Seq<char>, SpecJson)> = Seq::empty();
        assert(jv_entry_views(entries@) =~= ge);
        if let Some(x) = data {
            proof {
                ge = ge.push(("data"@, SpecJson::Str(x@)));
            }
            push_entry(&mut entries, (String::from_str("data"), JsonValue::Str(x)));
        }
        assert(jv_entry_views(entries@) == ge);
        if let Some(x) = cmdline {
            proof {
                ge = ge.push(("cmdline"@, SpecJson::Str(x@)));
            }
            push_entry(&mut entries, (String::from_str("cmdline"), JsonValue::Str(x)));
        }
        assert(jv_entry_views(entries@) == ge);
        if let Some(x) = env {
            proof {
                ge = ge.push(("env"@, SpecJson::Obj(jv_entry_views(x@))));
            }
            push_entry(&mut entries, (String::from_str("env"), JsonValue::Obj(x)));
        }
        assert(jv_entry_views(entries@) == ge);
        if allow_remote_control {
            proof {
                ge = ge.push(("allow_remote_control"@, SpecJson::Bool(true)));
            }
            push_entry(&mut entries, (String::from_str("allow_remote_control"), JsonValue::Bool(true)));
        }
        assert(jv_entry_views(entries@) == ge);
        if let Some(x) = remote_control_password {
            proof {
                ge = ge.push(("remote_control_password"@, SpecJson::Str(x@)));
            }
            push_entry(&mut entries, (String::from_str("remote_control_password"), JsonValue::Str(x)));
        }
        assert(jv_entry_views(entries@) == ge);
        proof {
            assert(ge == spec_run_command_entries(orig));
        }
        let msg = KittyMessage::new(String::from_str("run"), default_version_vec());
        Ok(msg.payload(JsonValue::Obj(entries)))
    }
}

pub struct KittenCommand {
    pub args: Option<String>,
    pub match_spec: Option<String>,
}

/// The payload members `kitten` sends, in order.
pub open spec fn spec_kitten_command_entries(c: KittenCommand) -> Seq<(Seq<char>, SpecJson)> {
    let e = Seq::<(Seq<char>, SpecJson)>::empty();
    let e = (if c.args is Some { e.push(("args"@, SpecJson::Str(c.args->0@))) } else { e });
    let e = (if c.match_spec is Some { e.push(("match"@, SpecJson::Str(c.match_spec->0@))) } else { e });
    e
}

impl KittenCommand {
    pub fn new() -> (r: KittenCommand)
        ensures
            r.args is None,
            r.match_spec is None,
    {
        KittenCommand {
            args: None,
            match_spec: None,
        }
    }

    pub fn args(self, value: &str) -> (r: KittenCommand)
        ensures
            (r.args matches Some(s2) && s2@ == value@) && r.match_spec == self.match_spec,
    {
        KittenCommand { args: Some(String::from_str(value)), ..self }
    }

    pub fn match_spec(self, value: &str) -> (r: KittenCommand)
        ensures
            (r.match_spec matches Some(s2) && s2@ == value@) && r.args == self.args,
    {
        KittenCommand { match_spec: Some(String::from_str(value)), ..self }
    }

    /// Builds the wire envelope this command denotes.
    #[verifier::loop_isolation(false)]
    pub fn build(self) -> (r: Result<KittyMessage, CommandError>)
        ensures
            (r matches Ok(m) && m@.cmd == "kitten"@ && m@.version == default_version()
                && m@.no_response is None && m@.kitty_window_id is None && m@.async_id is None
                && m@.cancel_async is None && m@.stream_id is None && m@.stream is None
                && m@.payload == Some(SpecJson::Obj(spec_kitten_command_entries(self)))),
    {
        let ghost orig = self;
        let KittenCommand { args, match_spec } = self;
        let mut entries: Vec<(String, JsonValue)> = Vec::new();
        proof {
            lemma_jv_entry_views_index(entries@);
        }
        let ghost mut ge: Seq<(Seq<char>, SpecJson)> = Seq::empty();
        assert(jv_entry_views(entries@) =~= ge);
        if let Some(x) = args {
            proof {
                ge = ge.push(("args"@, SpecJson::Str(x@)));
            }
            push_entry(&mut entries, (String::from_str("args"), JsonValue::Str(x)));
        }
        assert(jv_entry_views(entries@) == ge);
        if let Some(x) = match_spec {
            proof {
                ge = ge.push(("match"@, SpecJson::Str(x@)));
            }
            push_entry(&mut entries, (String::from_str("match"), JsonValue::Str(x)));
        }
        assert(jv_entry_views(entries@) == ge);
        proof {
            assert(ge == spec_kitten_command_entries(orig));
        }
        let msg = KittyMessage::new(String::from_str("kitten"), default_version_vec());
        Ok(msg.payload(JsonValue::Obj(entries)))
    }
}

pub struct EnvCommand {
    pub env: Vec<(String, JsonValue)>,
}

/// The payload members `env` sends, in order.
pub open spec fn spec_env_command_entries(c: EnvCommand) -> Seq<(Seq<char>, SpecJson)> {
    let e = Seq::<(Seq<char>, SpecJson)>::empty();
    let e = e.push(("env"@, SpecJson::Obj(jv_entry_views(c.env@))));
    e
}

impl EnvCommand {
    pub fn new(env: Vec<(String, JsonValue)>) -> (r: EnvCommand)
        ensures
            r.env == env,
    {
        EnvCommand {
            env,
        }
    }

    /// Builds the wire envelope this command denotes.
    #[verifier::loop_isolation(false)]
    pub fn build(self) -> (r: Result<KittyMessage, CommandError>)
        ensures
            self.env@.len() == 0 ==> (r matches Err(e) && (e matches CommandError::MissingParameter(p, cc) && p@ == "env"@ && cc@ == "env"@)),
            self.env@.len() > 0 ==> (r matches Ok(m) && m@.cmd == "env"@ && m@.version == default_version()
                && m@.no_response is None && m@.kitty_window_id is None && m@.async_id is None
                && m@.cancel_async is None && m@.stream_id is None && m@.stream is None
                && m@.payload == Some(SpecJson::Obj(spec_env_command_entries(self)))),
    {
        let ghost orig = self;
        if self.env.len() == 0 {
            return Err(CommandError::MissingParameter(String::from_str("env"), String::from_str("env")));
        }
        let EnvCommand { env } = self;
        let mut entries: Vec<(String, JsonValue)> = Vec::new();
        proof {
            lemma_jv_entry_views_index(entries@);
        }
        let ghost mut ge: Seq<(Seq<char>, SpecJson)> = Seq::empty();
        assert(jv_entry_views(entries@) =~= ge);
        proof {
            ge = ge.push(("env"@, SpecJson::Obj(jv_entry_views(env@))));
        }
        push_entry(&mut entries, (String::from_str("env"), JsonValue::Obj(env)));
        assert(jv_entry_views(entries@) == ge);
        proof {
            assert(ge == spec_env_command_entries(orig));
        }
        let msg = KittyMessage::new(String::from_str("env"), default_version_vec());
        Ok(msg.payload(JsonValue::Obj(entries)))
    }
}

pub struct SetUserVarsCommand {
    pub var: Vec<String>,
    pub match_spec: Option<String>,
}

/// The payload members `set-user-vars` sends, in order.
pub open spec fn spec_set_user_vars_command_entries(c: SetUserVarsCommand) -> Seq<(Seq<char>, SpecJson)> {
    let e = Seq::<(Seq<char>, SpecJson)>::empty();
    let e = e.push(("var"@, SpecJson::Arr(crate::command::strs_json(c.var@))));
    let e = (if c.match_spec is Some { e.push(("match"@, SpecJson::Str(c.match_spec->0@))) } else { e });
    e
}

impl SetUserVarsCommand {
    pub fn new(var: Vec<String>) -> (r: SetUserVarsCommand)
        ensures
            r.var == var,
            r.match_spec is None,
    {
        SetUserVarsCommand {
            var,
            match_spec: None,
        }
    }

    pub fn match_spec(self, value: &str) -> (r: SetUserVarsCommand)
        ensures
            (r.match_spec matches Some(s2) && s2@ == value@) && r.var == self.var,
    {
        SetUserVarsCommand { match_spec: Some(String::from_str(value)), ..self }
    }

    /// Builds the wire envelope this command denotes.
    #[verifier::loop_isolation(false)]
    pub fn build(self) -> (r: Result<KittyMessage, CommandError>)
        ensures
            self.var@.len() == 0 ==> (r matches Err(e) && (e matches CommandError::MissingParameter(p, cc) && p@ == "var"@ && cc@ == "set-user-vars"@)),
            self.var@.len() > 0 ==> (r matches Ok(m) && m@.cmd == "set-user-vars"@ && m@.version == default_version()
                && m@.no_response is None && m@.kitty_window_id is None && m@.async_id is None
                && m@.cancel_async is None && m@.stream_id is None && m@.stream is None
                && m@.payload == Some(SpecJson::Obj(spec_set_user_vars_command_entries(self)))),
    {
        let ghost orig = self;
        if self.var.len() == 0 {
            return Err(CommandError::MissingParameter(String::from_str("var"), String::from_str("set-user-vars")));
        }
        let SetUserVarsCommand { var, match_spec } = self;
        let mut entries: Vec<(String, JsonValue)> = Vec::new();
        proof {
            lemma_jv_entry_views_index(entries@);
        }
        let ghost mut ge: Seq<(Seq<char>, SpecJson)> = Seq::empty();
        assert(jv_entry_views(entries@) =~= ge);
        proof {
            ge = ge.push(("var"@, SpecJson::Arr(crate::command::strs_json(var@))));
        }
        push_entry(&mut entries, (String::from_str("var"), JsonValue::Arr(crate::command::strs_to_json(var))));
        assert(jv_entry_views(entries@) == ge);
        if let Some(x) = match_spec {
            proof {
                ge = ge.push(("match"@, SpecJson::Str(x@)));
            }
            push_entry(&mut entries, (String::from_str("match"), JsonValue::Str(x)));
        }
        assert(jv_entry_views(entries@) == ge);
        proof {
            assert(ge == spec_set_user_vars_command_entries(orig));
        }
        let msg = KittyMessage::new(String::from_str("set-user-vars"), default_version_vec());
        Ok(msg.payload(JsonValue::Obj(entries)))
    }
}

pub struct LoadConfigCommand {
    pub paths: Vec<String>,
    pub override_config: bool,
    pub ignore_overrides: bool,
}

/// The payload members `load-config` sends, in order.
pub open spec fn spec_load_config_command_entries(c: LoadConfigCommand) -> Seq<(Seq<char>, SpecJson)> {
    let e = Seq::<(Seq<char>, SpecJson)>::empty();
    let e = e.push(("paths"@, SpecJson::Arr(crate::command::strs_json(c.paths@))));
    let e = (if c.override_config { e.push(("override"@, SpecJson::Bool(true))) } else { e });
    let e = (if c.ignore_overrides { e.push(("ignore_overrides"@, SpecJson::Bool(true))) } else { e });
    e
}

impl LoadConfigCommand {
    pub fn new(paths: Vec<String>) -> (r: LoadConfigCommand)
        ensures
            r.paths == paths,
            r.override_config == false,
            r.ignore_overrides == false,
    {
        LoadConfigCommand {
            paths,
            override_config: false,
            ignore_overrides: false,
        }
    }

    pub fn override_config(self, value: bool) -> (r: LoadConfigCommand)
        ensures
            r.override_config == value && r.paths == self.paths && r.ignore_overrides == self.ignore_overrides,
    {
        LoadConfigCommand { override_config: value, ..self }
    }

    pub fn ignore_overrides(self, value: bool) -> (r: LoadConfigCommand)
        ensures
            r.ignore_overrides == value && r.paths == self.paths && r.override_config == self.override_config,
    {
        LoadConfigCommand { ignore_overrides: value, ..self }
    }

    /// Builds the wire envelope this command denotes.
    #[verifier::loop_isolation(false)]
    pub fn build(self) -> (r: Result<KittyMessage, CommandError>)
        ensures
            self.paths@.len() == 0 ==> (r matches Err(e) && (e matches CommandError::MissingParameter(p, cc) && p@ == "paths"@ && cc@ == "load-config"@)),
            self.paths@.len() > 0 ==> (r matches Ok(m) && m@.cmd == "load-config"@ && m@.version == default_version()
                && m@.no_response is None && m@.kitty_window_id is None && m@.async_id is None
                && m@.cancel_async is None && m@.stream_id is None && m@.stream is None
                && m@.payload == Some(SpecJson::Obj(spec_load_config_command_entries(self)))),
    {
        let ghost orig = self;
        if self.paths.len() == 0 {
            return Err(CommandError::MissingParameter(String::from_str("paths"), String::from_str("load-config")));
        }
        let LoadConfigCommand { paths, override_config, ignore_overrides } = self;
        let mut entries: Vec<(String, JsonValue)> = Vec::new();
        proof {
            lemma_jv_entry_views_index(entries@);
        }
        let ghost mut ge: Seq<(Seq<char>, SpecJson)> = Seq::empty();
        assert(jv_entry_views(entries@) =~= ge);
        proof {
            ge = ge.push(("paths"@, SpecJson::Arr(crate::command::strs_json(paths@))));
        }
        push_entry(&mut entries, (String::from_str("paths"), JsonValue::Arr(crate::command::strs_to_json(paths))));
        assert(jv_entry_views(entries@) == ge);
        if override_config {
            proof {
                ge = ge.push(("override"@, SpecJson::Bool(true)));
            }
            push_entry(&mut entries, (String::from_str("override"), JsonValue::Bool(true)));
        }
        assert(jv_entry_views(entries@) == ge);
        if ignore_overrides {
            proof {
                ge = ge.push(("ignore_overrides"@, SpecJson::Bool(true)));
            }
            push_entry(&mut entries, (String::from_str("ignore_overrides"), JsonValue::Bool(true)));
        }
        assert(jv_entry_views(entries@) == ge);
        proof {
            assert(ge == spec_load_config_command_entries(orig));
        }
        let msg = KittyMessage::new(String::from_str("load-config"), default_version_vec());
        Ok(msg.payload(JsonValue::Obj(entries)))
    }
}

pub struct ResizeOSWindowCommand {
    pub match_spec: Option<String>,
    pub self_window: bool,
    pub incremental: bool,
    pub action: Option<String>,
    pub unit: Option<String>,
    pub width: Option<i32>,
    pub height: Option<i32>,
}

/// The payload members `resize-os-window` sends, in order.
pub open spec fn spec_resize_o_s_window_command_entries(c: ResizeOSWindowCommand) -> Seq<(Seq<char>, SpecJson)> {
    let e = Seq::<(Seq<char>, SpecJson)>::empty();
    let e = (if c.match_spec is Some { e.push(("match"@, SpecJson::Str(c.match_spec->0@))) } else { e });
    let e = (if c.self_window { e.push(("self"@, SpecJson::Bool(true))) } else { e });
    let e = (if c.incremental { e.push(("incremental"@, SpecJson::Bool(true))) } else { e });
    let e = (if c.action is Some { e.push(("action"@, SpecJson::Str(c.action->0@))) } else { e });
    let e = (if c.unit is Some { e.push(("unit"@, SpecJson::Str(c.unit->0@))) } else { e });
    let e = (if c.width is Some { e.push(("width"@, SpecJson::Int(c.width->0 as i64))) } else { e });
    let e = (if c.height is Some { e.push(("height"@, SpecJson::Int(c.height->0 as i64))) } else { e });
    e
}

impl ResizeOSWindowCommand {
    pub fn new() -> (r: ResizeOSWindowCommand)
        ensures
            r.match_spec is None,
            r.self_window == false,
            r.incremental == false,
            r.action is None,
            r.unit is None,
            r.width is None,
            r.height is None,
    {
        ResizeOSWindowCommand {
            match_spec: None,
            self_window: false,
            incremental: false,
            action: None,
            unit: None,
            width: None,
            height: None,
        }
    }

    pub fn match_spec(self, value: &str) -> (r: ResizeOSWindowCommand)
        ensures
            (r.match_spec matches Some(s2) && s2@ == value@) && r.self_window == self.self_window && r.incremental == self.incremental && r.action == self.action && r.unit == self.unit && r.width == self.width && r.height == self.height,
    {
        ResizeOSWindowCommand { match_spec: Some(String::from_str(value)), ..self }
    }

    pub fn self_window(self, value: bool) -> (r: ResizeOSWindowCommand)
        ensures
            r.self_window == value && r.match_spec == self.match_spec && r.incremental == self.incremental && r.action == self.action && r.unit == self.unit && r.width == self.width && r.height == self.height,
    {
        ResizeOSWindowCommand { self_window: value, ..self }
    }

    pub fn incremental(self, value: bool) -> (r: ResizeOSWindowCommand)
        ensures
            r.incremental == value && r.match_spec == self.match_spec && r.self_window == self.self_window && r.action == self.action && r.unit == self.unit && r.width == self.width && r.height == self.height,
    {
        ResizeOSWindowCommand { incremental: value, ..self }
    }

    pub fn action(self, value: &str) -> (r: ResizeOSWindowCommand)
        ensures
            (r.action matches Some(s2) && s2@ == value@) && r.match_spec == self.match_spec && r.self_window == self.self_window && r.incremental == self.incremental && r.unit == self.unit && r.width == self.width && r.height == self.height,
    {
        ResizeOSWindowCommand { action: Some(String::from_str(value)), ..self }
    }

    pub fn unit(self, value: &str) -> (r: ResizeOSWindowCommand)
        ensures
            (r.unit matches Some(s2) && s2@ == value@) && r.match_spec == self.match_spec && r.self_window == self.self_window && r.incremental == self.incremental && r.action == self.action && r.width == self.width && r.height == self.height,
    {
        ResizeOSWindowCommand { unit: Some(String::from_str(value)), ..self }
    }

    pub fn width(self, value: i32) -> (r: ResizeOSWindowCommand)
        ensures
            r.width == Some(value) && r.match_spec == self.match_spec && r.self_window == self.self_window && r.incremental == self.incremental && r.action == self.action && r.unit == self.unit && r.height == self.height,
    {
        ResizeOSWindowCommand { width: Some(value), ..self }
    }

    pub fn height(self, value: i32) -> (r: ResizeOSWindowCommand)
        ensures
            r.height == Some(value) && r.match_spec == self.match_spec && r.self_window == self.self_window && r.incremental == self.incremental && r.action == self.action && r.unit == self.unit && r.width == self.width,
    {
        ResizeOSWindowCommand { height: Some(value), ..self }
    }

    /// Builds the wire envelope this command denotes.
    #[verifier::loop_isolation(false)]
    #[verifier::rlimit(100)]
    pub fn build(self) -> (r: Result<KittyMessage, CommandError>)
        ensures
            (r matches Ok(m) && m@.cmd == "resize-os-window"@ && m@.version == default_version()
                && m@.no_response is None && m@.kitty_window_id is None && m@.async_id is None
                && m@.cancel_async is None && m@.stream_id is None && m@.stream is None
                && m@.payload == Some(SpecJson::Obj(spec_resize_o_s_window_command_entries(self)))),
    {
        let ghost orig = self;
        let ResizeOSWindowCommand { match_spec, self_window, incremental, action, unit, width, height } = self;
        let mut entries: Vec<(String, JsonValue)> = Vec::new();
        proof {
            lemma_jv_entry_views_index(entries@);
        }
        let ghost mut ge: Seq<(Seq<char>, SpecJson)> = Seq::empty();
        assert(jv_entry_views(entries@) =~= ge);
        if let Some(x) = match_spec {
            proof {
                ge = ge.push(("match"@, SpecJson::Str(x@)));
            }
            push_entry(&mut entries, (String::from_str("match"), JsonValue::Str(x)));
        }
        assert(jv_entry_views(entries@) == ge);
        if self_window {
            proof {
                ge = ge.push(("self"@, SpecJson::Bool(true)));
            }
            push_entry(&mut entries, (String::from_str("self"), JsonValue::Bool(true)));
        }
        assert(jv_entry_views(entries@) == ge);
        if incremental {
            proof {
                ge = ge.push(("incremental"@, SpecJson::Bool(true)));
            }
            push_entry(&mut entries, (String::from_str("incremental"), JsonValue::Bool(true)));
        }
        assert(jv_entry_views(entries@) == ge);
        if let Some(x) = action {
            proof {
                ge = ge.push(("action"@, SpecJson::Str(x@)));
            }
            push_entry(&mut entries, (String::from_str("action"), JsonValue::Str(x)));
        }
        assert(jv_entry_views(entries@) == ge);
        if let Some(x) = unit {
            proof {
                ge = ge.push(("unit"@, SpecJson::Str(x@)));
            }
            push_entry(&mut entries, (String::from_str("unit"), JsonValue::Str(x)));
        }
        assert(jv_entry_views(entries@) == ge);
        if let Some(x) = width {
            proof {
                ge = ge.push(("width"@, SpecJson::Int(x as i64)));
            }
            push_entry(&mut entries, (String::from_str("width"), JsonValue::Int(x as i64)));
        }
        assert(jv_entry_views(entries@) == ge);
        if let Some(x) = height {
            proof {
                ge = ge.push(("height"@, SpecJson::Int(x as i64)));
            }
            push_entry(&mut entries, (String::from_str("height"), JsonValue::Int(x as i64)));
        }
        assert(jv_entry_views(entries@) == ge);
        proof {
            assert(ge == spec_resize_o_s_window_command_entries(orig));
        }
        let msg = KittyMessage::new(String::from_str("resize-os-window"), default_version_vec());
        Ok(msg.payload(JsonValue::Obj(entries)))
    }
}

pub struct DisableLigaturesCommand {
    pub strategy: Option<String>,
    pub match_window: Option<String>,
    pub match_tab: Option<String>,
    pub all: bool,
}

/// The payload members `disable-ligatures` sends, in order.
pub open spec fn spec_disable_ligatures_command_entries(c: DisableLigaturesCommand) -> Seq<(Seq<char>, SpecJson)> {
    let e = Seq::<(Seq<char>, SpecJson)>::empty();
    let e = (if c.strategy is Some { e.push(("strategy"@, SpecJson::Str(c.strategy->0@))) } else { e });
    let e = (if c.match_window is Some { e.push(("match_window"@, SpecJson::Str(c.match_window->0@))) } else { e });
    let e = (if c.match_tab is Some { e.push(("match_tab"@, SpecJson::Str(c.match_tab->0@))) } else { e });
    let e = (if c.all { e.push(("all"@, SpecJson::Bool(true))) } else { e });
    e
}

impl DisableLigaturesCommand {
    pub fn new() -> (r: DisableLigaturesCommand)
        ensures
            r.strategy is None,
            r.match_window is None,
            r.match_tab is None,
            r.all == false,
    {
        DisableLigaturesCommand {
            strategy: None,
            match_window: None,
            match_tab: None,
            all: false,
        }
    }

    pub fn strategy(self, value: &str) -> (r: DisableLigaturesCommand)
        ensures
            (r.strategy matches Some(s2) && s2@ == value@) && r.match_window == self.match_window && r.match_tab == self.match_tab && r.all == self.all,
    {
        DisableLigaturesCommand { strategy: Some(String::from_str(value)), ..self }
    }

    pub fn match_window(self, value: &str) -> (r: DisableLigaturesCommand)
        ensures
            (r.match_window matches Some(s2) && s2@ == value@) && r.strategy == self.strategy && r.match_tab == self.match_tab && r.all == self.all,
    {
        DisableLigaturesCommand { match_window: Some(String::from_str(value)), ..self }
    }

    pub fn match_tab(self, value: &str) -> (r: DisableLigaturesCommand)
        ensures
            (r.match_tab matches Some(s2) && s2@ == value@) && r.strategy == self.strategy && r.match_window == self.match_window && r.all == self.all,
    {
        DisableLigaturesCommand { match_tab: Some(String::from_str(value)), ..self }
    }

    pub fn all(self, value: bool) -> (r: DisableLigaturesCommand)
        ensures
            r.all == value && r.strategy == self.strategy && r.match_window == self.match_window && r.match_tab == self.match_tab,
    {
        DisableLigaturesCommand { all: value, ..self }
    }

    /// Builds the wire envelope this command denotes.
    #[verifier::loop_isolation(false)]
    pub fn build(self) -> (r: Result<KittyMessage, CommandError>)
        ensures
            (r matches Ok(m) && m@.cmd == "disable-ligatures"@ && m@.version == default_version()
                && m@.no_response is None && m@.kitty_window_id is None && m@.async_id is None
                && m@.cancel_async is None && m@.stream_id is None && m@.stream is None
                && m@.payload == Some(SpecJson::Obj(spec_disable_ligatures_command_entries(self)))),
    {
        let ghost orig = self;
        let DisableLigaturesCommand { strategy, match_window, match_tab, all } = self;
        let mut entries: Vec<(String, JsonValue)> = Vec::new();
        proof {
            lemma_jv_entry_views_index(entries@);
        }
        let ghost mut ge: Seq<(Seq<char>, SpecJson)> = Seq::empty();
        assert(jv_entry_views(entries@) =~= ge);
        if let Some(x) = strategy {
            proof {
                ge = ge.push(("strategy"@, SpecJson::Str(x@)));
            }
            push_entry(&mut entries, (String::from_str("strategy"), JsonValue::Str(x)));
        }
        assert(jv_entry_views(entries@) == ge);
        if let Some(x) = match_window {
            proof {
                ge = ge.push(("match_window"@, SpecJson::Str(x@)));
            }
            push_entry(&mut entries, (String::from_str("match_window"), JsonValue::Str(x)));
        }
        assert(jv_entry_views(entries@) == ge);
        if let Some(x) = match_tab {
            proof {
                ge = ge.push(("match_tab"@, SpecJson::Str(x@)));
            }
            push_entry(&mut entries, (String::from_str("match_tab"), JsonValue::Str(x)));
        }
        assert(jv_entry_views(entries@) == ge);
        if all {
            proof {
                ge = ge.push(("all"@, SpecJson::Bool(true)));
            }
            push_entry(&mut entries, (String::from_str("all"), JsonValue::Bool(true)));
        }
        assert(jv_entry_views(entries@) == ge);
        proof {
            assert(ge == spec_disable_ligatures_command_entries(orig));
        }
        let msg = KittyMessage::new(String::from_str("disable-ligatures"), default_version_vec());
        Ok(msg.payload(JsonValue::Obj(entries)))
    }
}

pub struct SignalChildCommand {
    pub signals: Vec<i32>,
    pub match_spec: Option<String>,
}

/// The payload members `signal-child` sends, in order.
pub open spec fn spec_signal_child_command_entries(c: SignalChildCommand) -> Seq<(Seq<char>, SpecJson)> {
    let e = Seq::<(Seq<char>, SpecJson)>::empty();
    let e = e.push(("signals"@, SpecJson::Arr(crate::command::ints_json(c.signals@))));
    let e = (if c.match_spec is Some { e.push(("match"@, SpecJson::Str(c.match_spec->0@))) } else { e });
    e
}

impl SignalChildCommand {
    pub fn new(signals: Vec<i32>) -> (r: SignalChildCommand)
        ensures
            r.signals == signals,
            r.match_spec is None,
    {
        SignalChildCommand {
            signals,
            match_spec: None,
        }
    }

    pub fn match_spec(self, value: &str) -> (r: SignalChildCommand)
        ensures
            (r.match_spec matches Some(s2) && s2@ == value@) && r.signals == self.signals,
    {
        SignalChildCommand { match_spec: Some(String::from_str(value)), ..self }
    }

    /// Builds the wire envelope this command denotes.
    #[verifier::loop_isolation(false)]
    pub fn build(self) -> (r: Result<KittyMessage, CommandError>)
        ensures
            self.signals@.len() == 0 ==> (r matches Err(e) && (e matches CommandError::MissingParameter(p, cc) && p@ == "signals"@ && cc@ == "signal-child"@)),
            self.signals@.len() > 0 ==> (r matches Ok(m) && m@.cmd == "signal-child"@ && m@.version == default_version()
                && m@.no_response is None && m@.kitty_window_id is None && m@.async_id is None
                && m@.cancel_async is None && m@.stream_id is None && m@.stream is None
                && m@.payload == Some(SpecJson::Obj(spec_signal_child_command_entries(self)))),
    {
        let ghost orig = self;
        if self.signals.len() == 0 {
            return Err(CommandError::MissingParameter(String::from_str("signals"), String::from_str("signal-child")));
        }
        let SignalChildCommand { signals, match_spec } = self;
        let mut entries: Vec<(String, JsonValue)> = Vec::new();
        proof {
            lemma_jv_entry_views_index(entries@);
        }
        let ghost mut ge: Seq<(Seq<char>, SpecJson)> = Seq::empty();
        assert(jv_entry_views(entries@) =~= ge);
        proof {
            ge = ge.push(("signals"@, SpecJson::Arr(crate::command::ints_json(signals@))));
        }
        push_entry(&mut entries, (String::from_str("signals"), JsonValue::Arr(crate::command::ints_to_json(signals))));
        assert(jv_entry_views(entries@) == ge);
        if let Some(x) = match_spec {
            proof {
                ge = ge.push(("match"@, SpecJson::Str(x@)));
            }
            push_entry(&mut entries, (String::from_str("match"), JsonValue::Str(x)));
        }
        assert(jv_entry_views(entries@) == ge);
        proof {
            assert(ge == spec_signal_child_command_entries(orig));
        }
        let msg = KittyMessage::new(String::from_str("signal-child"), default_version_vec());
        Ok(msg.payload(JsonValue::Obj(entries)))
    }
}

/// One stage of the `launch` payload, appended to members built so far.
pub open spec fn spec_launch_command_part_0(e: Seq<(Seq<char>, SpecJson)>, args: Option<String>, window_title: Option<String>, cwd: Option<String>, env: Option<Vec<(String, JsonValue)>>, var: Option<Vec<(String, JsonValue)>>, tab_title: Option<String>, window_type: Option<String>, keep_focus: bool, copy_colors: bool, copy_cmdline: bool) -> Seq<(Seq<char>, SpecJson)> {
    let e = (if args is Some { e.push(("args"@, SpecJson::Str(args->0@))) } else { e });
    let e = (if window_title is Some { e.push(("window_title"@, SpecJson::Str(window_title->0@))) } else { e });
    let e = (if cwd is Some { e.push(("cwd"@, SpecJson::Str(cwd->0@))) } else { e });
    let e = (if env is Some { e.push(("env"@, SpecJson::Obj(jv_entry_views(env->0@)))) } else { e });
    let e = (if var is Some { e.push(("var"@, SpecJson::Obj(jv_entry_views(var->0@)))) } else { e });
    let e = (if tab_title is Some { e.push(("tab_title"@, SpecJson::Str(tab_title->0@))) } else { e });
    let e = (if window_type is Some { e.push(("window_type"@, SpecJson::Str(window_type->0@))) } else { e });
    let e = (if keep_focus { e.push(("keep_focus"@, SpecJson::Bool(true))) } else { e });
    let e = (if copy_colors { e.push(("copy_colors"@, SpecJson::Bool(true))) } else { e });
    let e = (if copy_cmdline { e.push(("copy_cmdline"@, SpecJson::Bool(true))) } else { e });
    e
}

#[verifier::rlimit(100)]
fn launch_command_fill_0(entries: &mut Vec<(String, JsonValue)>, args: Option<String>, window_title: Option<String>, cwd: Option<String>, env: Option<Vec<(String, JsonValue)>>, var: Option<Vec<(String, JsonValue)>>, tab_title: Option<String>, window_type: Option<String>, keep_focus: bool, copy_colors: bool, copy_cmdline: bool)
    ensures
        jv_entry_views(final(entries)@) == spec_launch_command_part_0(jv_entry_views(old(entries)@), args, window_title, cwd, env, var, tab_title, window_type, keep_focus, copy_colors, copy_cmdline),
{
    let ghost g_args = args;
    let ghost g_window_title = window_title;
    let ghost g_cwd = cwd;
    let ghost g_env = env;
    let ghost g_var = var;
    let ghost g_tab_title = tab_title;
    let ghost g_window_type = window_type;
    let ghost g_keep_focus = keep_focus;
    let ghost g_copy_colors = copy_colors;
    let ghost g_copy_cmdline = copy_cmdline;
    let ghost mut ge: Seq<(Seq<char>, SpecJson)> = jv_entry_views(entries@);
        if let Some(x) = args {
            proof {
                ge = ge.push(("args"@, SpecJson::Str(x@)));
            }
            push_entry(entries, (String::from_str("args"), JsonValue::Str(x)));
        }
        assert(jv_entry_views(entries@) == ge);
        if let Some(x) = window_title {
            proof {
                ge = ge.push(("window_title"@, SpecJson::Str(x@)));
            }
            push_entry(entries, (String::from_str("window_title"), JsonValue::Str(x)));
        }
        assert(jv_entry_views(entries@) == ge);
        if let Some(x) = cwd {
            proof {
                ge = ge.push(("cwd"@, SpecJson::Str(x@)));
            }
            push_entry(entries, (String::from_str("cwd"), JsonValue::Str(x)));
        }
        assert(jv_entry_views(entries@) == ge);
        if let Some(x) = env {
            proof {
                ge = ge.push(("env"@, SpecJson::Obj(jv_entry_views(x@))));
            }
            push_entry(entries, (String::from_str("env"), JsonValue::Obj(x)));
        }
        assert(jv_entry_views(entries@) == ge);
        if let Some(x) = var {
            proof {
                ge = ge.push(("var"@, SpecJson::Obj(jv_entry_views(x@))));
            }
            push_entry(entries, (String::from_str("var"), JsonValue::Obj(x)));
        }
        assert(jv_entry_views(entries@) == ge);
        if let Some(x) = tab_title {
            proof {
                ge = ge.push(("tab_title"@, SpecJson::Str(x@)));
            }
            push_entry(entries, (String::from_str("tab_title"), JsonValue::Str(x)));
        }
        assert(jv_entry_views(entries@) == ge);
        if let Some(x) = window_type {
            proof {
                ge = ge.push(("window_type"@, SpecJson::Str(x@)));
            }
            push_entry(entries, (String::from_str("window_type"), JsonValue::Str(x)));
        }
        assert(jv_entry_views(entries@) == ge);
        if keep_focus {
            proof {
                ge = ge.push(("keep_focus"@, SpecJson::Bool(true)));
            }
            push_entry(entries, (String::from_str("keep_focus"), JsonValue::Bool(true)));
        }
        assert(jv_entry_views(entries@) == ge);
        if copy_colors {
            proof {
                ge = ge.push(("copy_colors"@, SpecJson::Bool(true)));
            }
            push_entry(entries, (String::from_str("copy_colors"), JsonValue::Bool(true)));
        }
        assert(jv_entry_views(entries@) == ge);
        if copy_cmdline {
            proof {
                ge = ge.push(("copy_cmdline"@, SpecJson::Bool(true)));
            }
            push_entry(entries, (String::from_str("copy_cmdline"), JsonValue::Bool(true)));
        }
        assert(jv_entry_views(entries@) == ge);
    proof {
        assert(ge == spec_launch_command_part_0(jv_entry_views(old(entries)@), g_args, g_window_title, g_cwd, g_env, g_var, g_tab_title, g_window_type, g_keep_focus, g_copy_colors, g_copy_cmdline));
    }
}

/// One stage of the `launch` payload, appended to members built so far.
pub open spec fn spec_launch_command_part_1(e: Seq<(Seq<char>, SpecJson)>, copy_env: bool, hold: bool, location: Option<String>, allow_remote_control: bool, remote_control_password: Option<String>, stdin_source: Option<String>, stdin_add_formatting: bool, stdin_add_line_wrap_markers: bool, spacing: Option<String>, marker: Option<String>) -> Seq<(Seq<char>, SpecJson)> {
    let e = (if copy_env { e.push(("copy_env"@, SpecJson::Bool(true))) } else { e });
    let e = (if hold { e.push(("hold"@, SpecJson::Bool(true))) } else { e });
    let e = (if location is Some { e.push(("location"@, SpecJson::Str(location->0@))) } else { e });
    let e = (if allow_remote_control { e.push(("allow_remote_control"@, SpecJson::Bool(true))) } else { e });
    let e = (if remote_control_password is Some { e.push(("remote_control_password"@, SpecJson::Str(remote_control_password->0@))) } else { e });
    let e = (if stdin_source is Some { e.push(("stdin_source"@, SpecJson::Str(stdin_source->0@))) } else { e });
    let e = (if stdin_add_formatting { e.push(("stdin_add_formatting"@, SpecJson::Bool(true))) } else { e });
    let e = (if stdin_add_line_wrap_markers { e.push(("stdin_add_line_wrap_markers"@, SpecJson::Bool(true))) } else { e });
    let e = (if spacing is Some { e.push(("spacing"@, SpecJson::Str(spacing->0@))) } else { e });
    let e = (if marker is Some { e.push(("marker"@, SpecJson::Str(marker->0@))) } else { e });
    e
}

#[verifier::rlimit(100)]
fn launch_command_fill_1(entries: &mut Vec<(String, JsonValue)>, copy_env: bool, hold: bool, location: Option<String>, allow_remote_control: bool, remote_control_password: Option<String>, stdin_source: Option<String>, stdin_add_formatting: bool, stdin_add_line_wrap_markers: bool, spacing: Option<String>, marker: Option<String>)
    ensures
        jv_entry_views(final(entries)@) == spec_launch_command_part_1(jv_entry_views(old(entries)@), copy_env, hold, location, allow_remote_control, remote_control_password, stdin_source, stdin_add_formatting, stdin_add_line_wrap_markers, spacing, marker),
{
    let ghost g_copy_env = copy_env;
    let ghost g_hold = hold;
    let ghost g_location = location;
    let ghost g_allow_remote_control = allow_remote_control;
    let ghost g_remote_control_password = remote_control_password;
    let ghost g_stdin_source = stdin_source;
    let ghost g_stdin_add_formatting = stdin_add_formatting;
    let ghost g_stdin_add_line_wrap_markers = stdin_add_line_wrap_markers;
    let ghost g_spacing = spacing;
    let ghost g_marker = marker;
    let ghost mut ge: Seq<(Seq<char>, SpecJson)> = jv_entry_views(entries@);
        if copy_env {
            proof {
                ge = ge.push(("copy_env"@, SpecJson::Bool(true)));
            }
            push_entry(entries, (String::from_str("copy_env"), JsonValue::Bool(true)));
        }
        assert(jv_entry_views(entries@) == ge);
        if hold {
            proof {
                ge = ge.push(("hold"@, SpecJson::Bool(true)));
            }
            push_entry(entries, (String::from_str("hold"), JsonValue::Bool(true)));
        }
        assert(jv_entry_views(entries@) == ge);
        if let Some(x) = location {
            proof {
                ge = ge.push(("location"@, SpecJson::Str(x@)));
            }
            push_entry(entries, (String::from_str("location"), JsonValue::Str(x)));
        }
        assert(jv_entry_views(entries@) == ge);
        if allow_remote_control {
            proof {
                ge = ge.push(("allow_remote_control"@, SpecJson::Bool(true)));
            }
            push_entry(entries, (String::from_str("allow_remote_control"), JsonValue::Bool(true)));
        }
        assert(jv_entry_views(entries@) == ge);
        if let Some(x) = remote_control_password {
            proof {
                ge = ge.push(("remote_control_password"@, SpecJson::Str(x@)));
            }
            push_entry(entries, (String::from_str("remote_control_password"), JsonValue::Str(x)));
        }
        assert(jv_entry_views(entries@) == ge);
        if let Some(x) = stdin_source {
            proof {
                ge = ge.push(("stdin_source"@, SpecJson::Str(x@)));
            }
            push_entry(entries, (String::from_str("stdin_source"), JsonValue::Str(x)));
        }
        assert(jv_entry_views(entries@) == ge);
        if stdin_add_formatting {
            proof {
                ge = ge.push(("stdin_add_formatting"@, SpecJson::Bool(true)));
            }
            push_entry(entries, (String::from_str("stdin_add_formatting"), JsonValue::Bool(true)));
        }
        assert(jv_entry_views(entries@) == ge);
        if stdin_add_line_wrap_markers {
            proof {
                ge = ge.push(("stdin_add_line_wrap_markers"@, SpecJson::Bool(true)));
            }
            push_entry(entries, (String::from_str("stdin_add_line_wrap_markers"), JsonValue::Bool(true)));
        }
        assert(jv_entry_views(entries@) == ge);
        if let Some(x) = spacing {
            proof {
                ge = ge.push(("spacing"@, SpecJson::Str(x@)));
            }
            push_entry(entries, (String::from_str("spacing"), JsonValue::Str(x)));
        }
        assert(jv_entry_views(entries@) == ge);
        if let Some(x) = marker {
            proof {
                ge = ge.push(("marker"@, SpecJson::Str(x@)));
            }
            push_entry(entries, (String::from_str("marker"), JsonValue::Str(x)));
        }
        assert(jv_entry_views(entries@) == ge);
    proof {
        assert(ge == spec_launch_command_part_1(jv_entry_views(old(entries)@), g_copy_env, g_hold, g_location, g_allow_remote_control, g_remote_control_password, g_stdin_source, g_stdin_add_formatting, g_stdin_add_line_wrap_markers, g_spacing, g_marker));
    }
}

/// One stage of the `launch` payload, appended to members built so far.
pub open spec fn spec_launch_command_part_2(e: Seq<(Seq<char>, SpecJson)>, logo: Option<String>, logo_position: Option<String>, self_window: bool, os_window_title: Option<String>, os_window_name: Option<String>, os_window_class: Option<String>, os_window_state: Option<String>, color: Option<String>, watcher: Option<String>, bias: Option<i32>) -> Seq<(Seq<char>, SpecJson)> {
    let e = (if logo is Some { e.push(("logo"@, SpecJson::Str(logo->0@))) } else { e });
    let e = (if logo_position is Some { e.push(("logo_position"@, SpecJson::Str(logo_position->0@))) } else { e });
    let e = (if self_window { e.push(("self"@, SpecJson::Bool(true))) } else { e });
    let e = (if os_window_title is Some { e.push(("os_window_title"@, SpecJson::Str(os_window_title->0@))) } else { e });
    let e = (if os_window_name is Some { e.push(("os_window_name"@, SpecJson::Str(os_window_name->0@))) } else { e });
    let e = (if os_window_class is Some { e.push(("os_window_class"@, SpecJson::Str(os_window_class->0@))) } else { e });
    let e = (if os_window_state is Some { e.push(("os_window_state"@, SpecJson::Str(os_window_state->0@))) } else { e });
    let e = (if color is Some { e.push(("color"@, SpecJson::Str(color->0@))) } else { e });
    let e = (if watcher is Some { e.push(("watcher"@, SpecJson::Str(watcher->0@))) } else { e });
    let e = (if bias is Some { e.push(("bias"@, SpecJson::Int(bias->0 as i64))) } else { e });
    e
}

#[verifier::rlimit(100)]
fn launch_command_fill_2(entries: &mut Vec<(String, JsonValue)>, logo: Option<String>, logo_position: Option<String>, self_window: bool, os_window_title: Option<String>, os_window_name: Option<String>, os_window_class: Option<String>, os_window_state: Option<String>, color: Option<String>, watcher: Option<String>, bias: Option<i32>)
    ensures
        jv_entry_views(final(entries)@) == spec_launch_command_part_2(jv_entry_views(old(entries)@), logo, logo_position, self_window, os_window_title, os_window_name, os_window_class, os_window_state, color, watcher, bias),
{
    let ghost g_logo = logo;
    let ghost g_logo_position = logo_position;
    let ghost g_self_window = self_window;
    let ghost g_os_window_title = os_window_title;
    let ghost g_os_window_name = os_window_name;
    let ghost g_os_window_class = os_window_class;
    let ghost g_os_window_state = os_window_state;
    let ghost g_color = color;
    let ghost g_watcher = watcher;
    let ghost g_bias = bias;
    let ghost mut ge: Seq<(Seq<char>, SpecJson)> = jv_entry_views(entries@);
        if let Some(x) = logo {
            proof {
                ge = ge.push(("logo"@, SpecJson::Str(x@)));
            }
            push_entry(entries, (String::from_str("logo"), JsonValue::Str(x)));
        }
        assert(jv_entry_views(entries@) == ge);
        if let Some(x) = logo_position {
            proof {
                ge = ge.push(("logo_position"@, SpecJson::Str(x@)));
            }
            push_entry(entries, (String::from_str("logo_position"), JsonValue::Str(x)));
        }
        assert(jv_entry_views(entries@) == ge);
        if self_window {
            proof {
                ge = ge.push(("self"@, SpecJson::Bool(true)));
            }
            push_entry(entries, (String::from_str("self"), JsonValue::Bool(true)));
        }
        assert(jv_entry_views(entries@) == ge);
        if let Some(x) = os_window_title {
            proof {
                ge = ge.push(("os_window_title"@, SpecJson::Str(x@)));
            }
            push_entry(entries, (String::from_str("os_window_title"), JsonValue::Str(x)));
        }
        assert(jv_entry_views(entries@) == ge);
        if let Some(x) = os_window_name {
            proof {
                ge = ge.push(("os_window_name"@, SpecJson::Str(x@)));
            }
            push_entry(entries, (String::from_str("os_window_name"), JsonValue::Str(x)));
        }
        assert(jv_entry_views(entries@) == ge);
        if let Some(x) = os_window_class {
            proof {
                ge = ge.push(("os_window_class"@, SpecJson::Str(x@)));
            }
            push_entry(entries, (String::from_str("os_window_class"), JsonValue::Str(x)));
        }
        assert(jv_entry_views(entries@) == ge);
        if let Some(x) = os_window_state {
            proof {
                ge = ge.push(("os_window_state"@, SpecJson::Str(x@)));
            }
            push_entry(entries, (String::from_str("os_window_state"), JsonValue::Str(x)));
        }
        assert(jv_entry_views(entries@) == ge);
        if let Some(x) = color {
            proof {
                ge = ge.push(("color"@, SpecJson::Str(x@)));
            }
            push_entry(entries, (String::from_str("color"), JsonValue::Str(x)));
        }
        assert(jv_entry_views(entries@) == ge);
        if let Some(x) = watcher {
            proof {
                ge = ge.push(("watcher"@, SpecJson::Str(x@)));
            }
            push_entry(entries, (String::from_str("watcher"), JsonValue::Str(x)));
        }
        assert(jv_entry_views(entries@) == ge);
        if let Some(x) = bias {
            proof {
                ge = ge.push(("bias"@, SpecJson::Int(x as i64)));
            }
            push_entry(entries, (String::from_str("bias"), JsonValue::Int(x as i64)));
        }
        assert(jv_entry_views(entries@) == ge);
    proof {
        assert(ge == spec_launch_command_part_2(jv_entry_views(old(entries)@), g_logo, g_logo_position, g_self_window, g_os_window_title, g_os_window_name, g_os_window_class, g_os_window_state, g_color, g_watcher, g_bias));
    }
}

pub struct LaunchCommand {
    pub args: Option<String>,
    pub window_title: Option<String>,
    pub cwd: Option<String>,
    pub env: Option<Vec<(String, JsonValue)>>,
    pub var: Option<Vec<(String, JsonValue)>>,
    pub tab_title: Option<String>,
    pub window_type: Option<String>,
    pub keep_focus: bool,
    pub copy_colors: bool,
    pub copy_cmdline: bool,
    pub copy_env: bool,
    pub hold: bool,
    pub location: Option<String>,
    pub allow_remote_control: bool,
    pub remote_control_password: Option<String>,
    pub stdin_source: Option<String>,
    pub stdin_add_formatting: bool,
    pub stdin_add_line_wrap_markers: bool,
    pub spacing: Option<String>,
    pub marker: Option<String>,
    pub logo: Option<String>,
    pub logo_position: Option<String>,
    pub self_window: bool,
    pub os_window_title: Option<String>,
    pub os_window_name: Option<String>,
    pub os_window_class: Option<String>,
    pub os_window_state: Option<String>,
    pub color: Option<String>,
    pub watcher: Option<String>,
    pub bias: Option<i32>,
}

/// The payload members `launch` sends, in order.
pub open spec fn spec_launch_command_entries(c: LaunchCommand) -> Seq<(Seq<char>, SpecJson)> {
    spec_launch_command_part_2(spec_launch_command_part_1(spec_launch_command_part_0(Seq::<(Seq<char>, SpecJson)>::empty(), c.args, c.window_title, c.cwd, c.env, c.var, c.tab_title, c.window_type, c.keep_focus, c.copy_colors, c.copy_cmdline), c.copy_env, c.hold, c.location, c.allow_remote_control, c.remote_control_password, c.stdin_source, c.stdin_add_formatting, c.stdin_add_line_wrap_markers, c.spacing, c.marker), c.logo, c.logo_position, c.self_window, c.os_window_title, c.os_window_name, c.os_window_class, c.os_window_state, c.color, c.watcher, c.bias)
}

impl LaunchCommand {
    pub fn new() -> (r: LaunchCommand)
        ensures
            r.args is None,
            r.window_title is None,
            r.cwd is None,
            r.env is None,
            r.var is None,
            r.tab_title is None,
            r.window_type is None,
            r.keep_focus == false,
            r.copy_colors == false,
            r.copy_cmdline == false,
            r.copy_env == false,
            r.hold == false,
            r.location is None,
            r.allow_remote_control == false,
            r.remote_control_password is None,
            r.stdin_source is None,
            r.stdin_add_formatting == false,
            r.stdin_add_line_wrap_markers == false,
            r.spacing is None,
            r.marker is None,
            r.logo is None,
            r.logo_position is None,
            r.self_window == false,
            r.os_window_title is None,
            r.os_window_name is None,
            r.os_window_class is None,
            r.os_window_state is None,
            r.color is None,
            r.watcher is None,
            r.bias is None,
    {
        LaunchCommand {
            args: None,
            window_title: None,
            cwd: None,
            env: None,
            var: None,
            tab_title: None,
            window_type: None,
            keep_focus: false,
            copy_colors: false,
            copy_cmdline: false,
            copy_env: false,
            hold: false,
            location: None,
            allow_remote_control: false,
            remote_control_password: None,
            stdin_source: None,
            stdin_add_formatting: false,
            stdin_add_line_wrap_markers: false,
            spacing: None,
            marker: None,
            logo: None,
            logo_position: None,
            self_window: false,
            os_window_title: None,
            os_window_name: None,
            os_window_class: None,
            os_window_state: None,
            color: None,
            watcher: None,
            bias: None,
        }
    }

    pub fn args(self, value: &str) -> (r: LaunchCommand)
        ensures
            (r.args matches Some(s2) && s2@ == value@) && r.window_title == self.window_title && r.cwd == self.cwd && r.env == self.env && r.var == self.var && r.tab_title == self.tab_title && r.window_type == self.window_type && r.keep_focus == self.keep_focus && r.copy_colors == self.copy_colors && r.copy_cmdline == self.copy_cmdline && r.copy_env == self.copy_env && r.hold == self.hold && r.location == self.location && r.allow_remote_control == self.allow_remote_control && r.remote_control_password == self.remote_control_password && r.stdin_source == self.stdin_source && r.stdin_add_formatting == self.stdin_add_formatting && r.stdin_add_line_wrap_markers == self.stdin_add_line_wrap_markers && r.spacing == self.spacing && r.marker == self.marker && r.logo == self.logo && r.logo_position == self.logo_position && r.self_window == self.self_window && r.os_window_title == self.os_window_title && r.os_window_name == self.os_window_name && r.os_window_class == self.os_window_class && r.os_window_state == self.os_window_state && r.color == self.color && r.watcher == self.watcher && r.bias == self.bias,
    {
        LaunchCommand { args: Some(String::from_str(value)), ..self }
    }

    pub fn window_title(self, value: &str) -> (r: LaunchCommand)
        ensures
            (r.window_title matches Some(s2) && s2@ == value@) && r.args == self.args && r.cwd == self.cwd && r.env == self.env && r.var == self.var && r.tab_title == self.tab_title && r.window_type == self.window_type && r.keep_focus == self.keep_focus && r.copy_colors == self.copy_colors && r.copy_cmdline == self.copy_cmdline && r.copy_env == self.copy_env && r.hold == self.hold && r.location == self.location && r.allow_remote_control == self.allow_remote_control && r.remote_control_password == self.remote_control_password && r.stdin_source == self.stdin_source && r.stdin_add_formatting == self.stdin_add_formatting && r.stdin_add_line_wrap_markers == self.stdin_add_line_wrap_markers && r.spacing == self.spacing && r.marker == self.marker && r.logo == self.logo && r.logo_position == self.logo_position && r.self_window == self.self_window && r.os_window_title == self.os_window_title && r.os_window_name == self.os_window_name && r.os_window_class == self.os_window_class && r.os_window_state == self.os_window_state && r.color == self.color && r.watcher == self.watcher && r.bias == self.bias,
    {
        LaunchCommand { window_title: Some(String::from_str(value)), ..self }
    }

    pub fn cwd(self, value: &str) -> (r: LaunchCommand)
        ensures
            (r.cwd matches Some(s2) && s2@ == value@) && r.args == self.args && r.window_title == self.window_title && r.env == self.env && r.var == self.var && r.tab_title == self.tab_title && r.window_type == self.window_type && r.keep_focus == self.keep_focus && r.copy_colors == self.copy_colors && r.copy_cmdline == self.copy_cmdline && r.copy_env == self.copy_env && r.hold == self.hold && r.location == self.location && r.allow_remote_control == self.allow_remote_control && r.remote_control_password == self.remote_control_password && r.stdin_source == self.stdin_source && r.stdin_add_formatting == self.stdin_add_formatting && r.stdin_add_line_wrap_markers == self.stdin_add_line_wrap_markers && r.spacing == self.spacing && r.marker == self.marker && r.logo == self.logo && r.logo_position == self.logo_position && r.self_window == self.self_window && r.os_window_title == self.os_window_title && r.os_window_name == self.os_window_name && r.os_window_class == self.os_window_class && r.os_window_state == self.os_window_state && r.color == self.color && r.watcher == self.watcher && r.bias == self.bias,
    {
        LaunchCommand { cwd: Some(String::from_str(value)), ..self }
    }

    pub fn env(self, value: Vec<(String, JsonValue)>) -> (r: LaunchCommand)
        ensures
            r.env == Some(value) && r.args == self.args && r.window_title == self.window_title && r.cwd == self.cwd && r.var == self.var && r.tab_title == self.tab_title && r.window_type == self.window_type && r.keep_focus == self.keep_focus && r.copy_colors == self.copy_colors && r.copy_cmdline == self.copy_cmdline && r.copy_env == self.copy_env && r.hold == self.hold && r.location == self.location && r.allow_remote_control == self.allow_remote_control && r.remote_control_password == self.remote_control_password && r.stdin_source == self.stdin_source && r.stdin_add_formatting == self.stdin_add_formatting && r.stdin_add_line_wrap_markers == self.stdin_add_line_wrap_markers && r.spacing == self.spacing && r.marker == self.marker && r.logo == self.logo && r.logo_position == self.logo_position && r.self_window == self.self_window && r.os_window_title == self.os_window_title && r.os_window_name == self.os_window_name && r.os_window_class == self.os_window_class && r.os_window_state == self.os_window_state && r.color == self.color && r.watcher == self.watcher && r.bias == self.bias,
    {
        LaunchCommand { env: Some(value), ..self }
    }

    pub fn var(self, value: Vec<(String, JsonValue)>) -> (r: LaunchCommand)
        ensures
            r.var == Some(value) && r.args == self.args && r.window_title == self.window_title && r.cwd == self.cwd && r.env == self.env && r.tab_title == self.tab_title && r.window_type == self.window_type && r.keep_focus == self.keep_focus && r.copy_colors == self.copy_colors && r.copy_cmdline == self.copy_cmdline && r.copy_env == self.copy_env && r.hold == self.hold && r.location == self.location && r.allow_remote_control == self.allow_remote_control && r.remote_control_password == self.remote_control_password && r.stdin_source == self.stdin_source && r.stdin_add_formatting == self.stdin_add_formatting && r.stdin_add_line_wrap_markers == self.stdin_add_line_wrap_markers && r.spacing == self.spacing && r.marker == self.marker && r.logo == self.logo && r.logo_position == self.logo_position && r.self_window == self.self_window && r.os_window_title == self.os_window_title && r.os_window_name == self.os_window_name && r.os_window_class == self.os_window_class && r.os_window_state == self.os_window_state && r.color == self.color && r.watcher == self.watcher && r.bias == self.bias,
    {
        LaunchCommand { var: Some(value), ..self }
    }

    pub fn tab_title(self, value: &str) -> (r: LaunchCommand)
        ensures
            (r.tab_title matches Some(s2) && s2@ == value@) && r.args == self.args && r.window_title == self.window_title && r.cwd == self.cwd && r.env == self.env && r.var == self.var && r.window_type == self.window_type && r.keep_focus == self.keep_focus && r.copy_colors == self.copy_colors && r.copy_cmdline == self.copy_cmdline && r.copy_env == self.copy_env && r.hold == self.hold && r.location == self.location && r.allow_remote_control == self.allow_remote_control && r.remote_control_password == self.remote_control_password && r.stdin_source == self.stdin_source && r.stdin_add_formatting == self.stdin_add_formatting && r.stdin_add_line_wrap_markers == self.stdin_add_line_wrap_markers && r.spacing == self.spacing && r.marker == self.marker && r.logo == self.logo && r.logo_position == self.logo_position && r.self_window == self.self_window && r.os_window_title == self.os_window_title && r.os_window_name == self.os_window_name && r.os_window_class == self.os_window_class && r.os_window_state == self.os_window_state && r.color == self.color && r.watcher == self.watcher && r.bias == self.bias,
    {
        LaunchCommand { tab_title: Some(String::from_str(value)), ..self }
    }

    pub fn window_type(self, value: &str) -> (r: LaunchCommand)
        ensures
            (r.window_type matches Some(s2) && s2@ == value@) && r.args == self.args && r.window_title == self.window_title && r.cwd == self.cwd && r.env == self.env && r.var == self.var && r.tab_title == self.tab_title && r.keep_focus == self.keep_focus && r.copy_colors == self.copy_colors && r.copy_cmdline == self.copy_cmdline && r.copy_env == self.copy_env && r.hold == self.hold && r.location == self.location && r.allow_remote_control == self.allow_remote_control && r.remote_control_password == self.remote_control_password && r.stdin_source == self.stdin_source && r.stdin_add_formatting == self.stdin_add_formatting && r.stdin_add_line_wrap_markers == self.stdin_add_line_wrap_markers && r.spacing == self.spacing && r.marker == self.marker && r.logo == self.logo && r.logo_position == self.logo_position && r.self_window == self.self_window && r.os_window_title == self.os_window_title && r.os_window_name == self.os_window_name && r.os_window_class == self.os_window_class && r.os_window_state == self.os_window_state && r.color == self.color && r.watcher == self.watcher && r.bias == self.bias,
    {
        LaunchCommand { window_type: Some(String::from_str(value)), ..self }
    }

    pub fn keep_focus(self, value: bool) -> (r: LaunchCommand)
        ensures
            r.keep_focus == value && r.args == self.args && r.window_title == self.window_title && r.cwd == self.cwd && r.env == self.env && r.var == self.var && r.tab_title == self.tab_title && r.window_type == self.window_type && r.copy_colors == self.copy_colors && r.copy_cmdline == self.copy_cmdline && r.copy_env == self.copy_env && r.hold == self.hold && r.location == self.location && r.allow_remote_control == self.allow_remote_control && r.remote_control_password == self.remote_control_password && r.stdin_source == self.stdin_source && r.stdin_add_formatting == self.stdin_add_formatting && r.stdin_add_line_wrap_markers == self.stdin_add_line_wrap_markers && r.spacing == self.spacing && r.marker == self.marker && r.logo == self.logo && r.logo_position == self.logo_position && r.self_window == self.self_window && r.os_window_title == self.os_window_title && r.os_window_name == self.os_window_name && r.os_window_class == self.os_window_class && r.os_window_state == self.os_window_state && r.color == self.color && r.watcher == self.watcher && r.bias == self.bias,
    {
        LaunchCommand { keep_focus: value, ..self }
    }

    pub fn copy_colors(self, value: bool) -> (r: LaunchCommand)
        ensures
            r.copy_colors == value && r.args == self.args && r.window_title == self.window_title && r.cwd == self.cwd && r.env == self.env && r.var == self.var && r.tab_title == self.tab_title && r.window_type == self.window_type && r.keep_focus == self.keep_focus && r.copy_cmdline == self.copy_cmdline && r.copy_env == self.copy_env && r.hold == self.hold && r.location == self.location && r.allow_remote_control == self.allow_remote_control && r.remote_control_password == self.remote_control_password && r.stdin_source == self.stdin_source && r.stdin_add_formatting == self.stdin_add_formatting && r.stdin_add_line_wrap_markers == self.stdin_add_line_wrap_markers && r.spacing == self.spacing && r.marker == self.marker && r.logo == self.logo && r.logo_position == self.logo_position && r.self_window == self.self_window && r.os_window_title == self.os_window_title && r.os_window_name == self.os_window_name && r.os_window_class == self.os_window_class && r.os_window_state == self.os_window_state && r.color == self.color && r.watcher == self.watcher && r.bias == self.bias,
    {
        LaunchCommand { copy_colors: value, ..self }
    }

    pub fn copy_cmdline(self, value: bool) -> (r: LaunchCommand)
        ensures
            r.copy_cmdline == value && r.args == self.args && r.window_title == self.window_title && r.cwd == self.cwd && r.env == self.env && r.var == self.var && r.tab_title == self.tab_title && r.window_type == self.window_type && r.keep_focus == self.keep_focus && r.copy_colors == self.copy_colors && r.copy_env == self.copy_env && r.hold == self.hold && r.location == self.location && r.allow_remote_control == self.allow_remote_control && r.remote_control_password == self.remote_control_password && r.stdin_source == self.stdin_source && r.stdin_add_formatting == self.stdin_add_formatting && r.stdin_add_line_wrap_markers == self.stdin_add_line_wrap_markers && r.spacing == self.spacing && r.marker == self.marker && r.logo == self.logo && r.logo_position == self.logo_position && r.self_window == self.self_window && r.os_window_title == self.os_window_title && r.os_window_name == self.os_window_name && r.os_window_class == self.os_window_class && r.os_window_state == self.os_window_state && r.color == self.color && r.watcher == self.watcher && r.bias == self.bias,
    {
        LaunchCommand { copy_cmdline: value, ..self }
    }

    pub fn copy_env(self, value: bool) -> (r: LaunchCommand)
        ensures
            r.copy_env == value && r.args == self.args && r.window_title == self.window_title && r.cwd == self.cwd && r.env == self.env && r.var == self.var && r.tab_title == self.tab_title && r.window_type == self.window_type && r.keep_focus == self.keep_focus && r.copy_colors == self.copy_colors && r.copy_cmdline == self.copy_cmdline && r.hold == self.hold && r.location == self.location && r.allow_remote_control == self.allow_remote_control && r.remote_control_password == self.remote_control_password && r.stdin_source == self.stdin_source && r.stdin_add_formatting == self.stdin_add_formatting && r.stdin_add_line_wrap_markers == self.stdin_add_line_wrap_markers && r.spacing == self.spacing && r.marker == self.marker && r.logo == self.logo && r.logo_position == self.logo_position && r.self_window == self.self_window && r.os_window_title == self.os_window_title && r.os_window_name == self.os_window_name && r.os_window_class == self.os_window_class && r.os_window_state == self.os_window_state && r.color == self.color && r.watcher == self.watcher && r.bias == self.bias,
    {
        LaunchCommand { copy_env: value, ..self }
    }

    pub fn hold(self, value: bool) -> (r: LaunchCommand)
        ensures
            r.hold == value && r.args == self.args && r.window_title == self.window_title && r.cwd == self.cwd && r.env == self.env && r.var == self.var && r.tab_title == self.tab_title && r.window_type == self.window_type && r.keep_focus == self.keep_focus && r.copy_colors == self.copy_colors && r.copy_cmdline == self.copy_cmdline && r.copy_env == self.copy_env && r.location == self.location && r.allow_remote_control == self.allow_remote_control && r.remote_control_password == self.remote_control_password && r.stdin_source == self.stdin_source && r.stdin_add_formatting == self.stdin_add_formatting && r.stdin_add_line_wrap_markers == self.stdin_add_line_wrap_markers && r.spacing == self.spacing && r.marker == self.marker && r.logo == self.logo && r.logo_position == self.logo_position && r.self_window == self.self_window && r.os_window_title == self.os_window_title && r.os_window_name == self.os_window_name && r.os_window_class == self.os_window_class && r.os_window_state == self.os_window_state && r.color == self.color && r.watcher == self.watcher && r.bias == self.bias,
    {
        LaunchCommand { hold: value, ..self }
    }

    pub fn location(self, value: &str) -> (r: LaunchCommand)
        ensures
            (r.location matches Some(s2) && s2@ == value@) && r.args == self.args && r.window_title == self.window_title && r.cwd == self.cwd && r.env == self.env && r.var == self.var && r.tab_title == self.tab_title && r.window_type == self.window_type && r.keep_focus == self.keep_focus && r.copy_colors == self.copy_colors && r.copy_cmdline == self.copy_cmdline && r.copy_env == self.copy_env && r.hold == self.hold && r.allow_remote_control == self.allow_remote_control && r.remote_control_password == self.remote_control_password && r.stdin_source == self.stdin_source && r.stdin_add_formatting == self.stdin_add_formatting && r.stdin_add_line_wrap_markers == self.stdin_add_line_wrap_markers && r.spacing == self.spacing && r.marker == self.marker && r.logo == self.logo && r.logo_position == self.logo_position && r.self_window == self.self_window && r.os_window_title == self.os_window_title && r.os_window_name == self.os_window_name && r.os_window_class == self.os_window_class && r.os_window_state == self.os_window_state && r.color == self.color && r.watcher == self.watcher && r.bias == self.bias,
    {
        LaunchCommand { location: Some(String::from_str(value)), ..self }
    }

    pub fn allow_remote_control(self, value: bool) -> (r: LaunchCommand)
        ensures
            r.allow_remote_control == value && r.args == self.args && r.window_title == self.window_title && r.cwd == self.cwd && r.env == self.env && r.var == self.var && r.tab_title == self.tab_title && r.window_type == self.window_type && r.keep_focus == self.keep_focus && r.copy_colors == self.copy_colors && r.copy_cmdline == self.copy_cmdline && r.copy_env == self.copy_env && r.hold == self.hold && r.location == self.location && r.remote_control_password == self.remote_control_password && r.stdin_source == self.stdin_source && r.stdin_add_formatting == self.stdin_add_formatting && r.stdin_add_line_wrap_markers == self.stdin_add_line_wrap_markers && r.spacing == self.spacing && r.marker == self.marker && r.logo == self.logo && r.logo_position == self.logo_position && r.self_window == self.self_window && r.os_window_title == self.os_window_title && r.os_window_name == self.os_window_name && r.os_window_class == self.os_window_class && r.os_window_state == self.os_window_state && r.color == self.color && r.watcher == self.watcher && r.bias == self.bias,
    {
        LaunchCommand { allow_remote_control: value, ..self }
    }

    pub fn remote_control_password(self, value: &str) -> (r: LaunchCommand)
        ensures
            (r.remote_control_password matches Some(s2) && s2@ == value@) && r.args == self.args && r.window_title == self.window_title && r.cwd == self.cwd && r.env == self.env && r.var == self.var && r.tab_title == self.tab_title && r.window_type == self.window_type && r.keep_focus == self.keep_focus && r.copy_colors == self.copy_colors && r.copy_cmdline == self.copy_cmdline && r.copy_env == self.copy_env && r.hold == self.hold && r.location == self.location && r.allow_remote_control == self.allow_remote_control && r.stdin_source == self.stdin_source && r.stdin_add_formatting == self.stdin_add_formatting && r.stdin_add_line_wrap_markers == self.stdin_add_line_wrap_markers && r.spacing == self.spacing && r.marker == self.marker && r.logo == self.logo && r.logo_position == self.logo_position && r.self_window == self.self_window && r.os_window_title == self.os_window_title && r.os_window_name == self.os_window_name && r.os_window_class == self.os_window_class && r.os_window_state == self.os_window_state && r.color == self.color && r.watcher == self.watcher && r.bias == self.bias,
    {
        LaunchCommand { remote_control_password: Some(String::from_str(value)), ..self }
    }

    pub fn stdin_source(self, value: &str) -> (r: LaunchCommand)
        ensures
            (r.stdin_source matches Some(s2) && s2@ == value@) && r.args == self.args && r.window_title == self.window_title && r.cwd == self.cwd && r.env == self.env && r.var == self.var && r.tab_title == self.tab_title && r.window_type == self.window_type && r.keep_focus == self.keep_focus && r.copy_colors == self.copy_colors && r.copy_cmdline == self.copy_cmdline && r.copy_env == self.copy_env && r.hold == self.hold && r.location == self.location && r.allow_remote_control == self.allow_remote_control && r.remote_control_password == self.remote_control_password && r.stdin_add_formatting == self.stdin_add_formatting && r.stdin_add_line_wrap_markers == self.stdin_add_line_wrap_markers && r.spacing == self.spacing && r.marker == self.marker && r.logo == self.logo && r.logo_position == self.logo_position && r.self_window == self.self_window && r.os_window_title == self.os_window_title && r.os_window_name == self.os_window_name && r.os_window_class == self.os_window_class && r.os_window_state == self.os_window_state && r.color == self.color && r.watcher == self.watcher && r.bias == self.bias,
    {
        LaunchCommand { stdin_source: Some(String::from_str(value)), ..self }
    }

    pub fn stdin_add_formatting(self, value: bool) -> (r: LaunchCommand)
        ensures
            r.stdin_add_formatting == value && r.args == self.args && r.window_title == self.window_title && r.cwd == self.cwd && r.env == self.env && r.var == self.var && r.tab_title == self.tab_title && r.window_type == self.window_type && r.keep_focus == self.keep_focus && r.copy_colors == self.copy_colors && r.copy_cmdline == self.copy_cmdline && r.copy_env == self.copy_env && r.hold == self.hold && r.location == self.location && r.allow_remote_control == self.allow_remote_control && r.remote_control_password == self.remote_control_password && r.stdin_source == self.stdin_source && r.stdin_add_line_wrap_markers == self.stdin_add_line_wrap_markers && r.spacing == self.spacing && r.marker == self.marker && r.logo == self.logo && r.logo_position == self.logo_position && r.self_window == self.self_window && r.os_window_title == self.os_window_title && r.os_window_name == self.os_window_name && r.os_window_class == self.os_window_class && r.os_window_state == self.os_window_state && r.color == self.color && r.watcher == self.watcher && r.bias == self.bias,
    {
        LaunchCommand { stdin_add_formatting: value, ..self }
    }

    pub fn stdin_add_line_wrap_markers(self, value: bool) -> (r: LaunchCommand)
        ensures
            r.stdin_add_line_wrap_markers == value && r.args == self.args && r.window_title == self.window_title && r.cwd == self.cwd && r.env == self.env && r.var == self.var && r.tab_title == self.tab_title && r.window_type == self.window_type && r.keep_focus == self.keep_focus && r.copy_colors == self.copy_colors && r.copy_cmdline == self.copy_cmdline && r.copy_env == self.copy_env && r.hold == self.hold && r.location == self.location && r.allow_remote_control == self.allow_remote_control && r.remote_control_password == self.remote_control_password && r.stdin_source == self.stdin_source && r.stdin_add_formatting == self.stdin_add_formatting && r.spacing == self.spacing && r.marker == self.marker && r.logo == self.logo && r.logo_position == self.logo_position && r.self_window == self.self_window && r.os_window_title == self.os_window_title && r.os_window_name == self.os_window_name && r.os_window_class == self.os_window_class && r.os_window_state == self.os_window_state && r.color == self.color && r.watcher == self.watcher && r.bias == self.bias,
    {
        LaunchCommand { stdin_add_line_wrap_markers: value, ..self }
    }

    pub fn spacing(self, value: &str) -> (r: LaunchCommand)
        ensures
            (r.spacing matches Some(s2) && s2@ == value@) && r.args == self.args && r.window_title == self.window_title && r.cwd == self.cwd && r.env == self.env && r.var == self.var && r.tab_title == self.tab_title && r.window_type == self.window_type && r.keep_focus == self.keep_focus && r.copy_colors == self.copy_colors && r.copy_cmdline == self.copy_cmdline && r.copy_env == self.copy_env && r.hold == self.hold && r.location == self.location && r.allow_remote_control == self.allow_remote_control && r.remote_control_password == self.remote_control_password && r.stdin_source == self.stdin_source && r.stdin_add_formatting == self.stdin_add_formatting && r.stdin_add_line_wrap_markers == self.stdin_add_line_wrap_markers && r.marker == self.marker && r.logo == self.logo && r.logo_position == self.logo_position && r.self_window == self.self_window && r.os_window_title == self.os_window_title && r.os_window_name == self.os_window_name && r.os_window_class == self.os_window_class && r.os_window_state == self.os_window_state && r.color == self.color && r.watcher == self.watcher && r.bias == self.bias,
    {
        LaunchCommand { spacing: Some(String::from_str(value)), ..self }
    }

    pub fn marker(self, value: &str) -> (r: LaunchCommand)
        ensures
            (r.marker matches Some(s2) && s2@ == value@) && r.args == self.args && r.window_title == self.window_title && r.cwd == self.cwd && r.env == self.env && r.var == self.var && r.tab_title == self.tab_title && r.window_type == self.window_type && r.keep_focus == self.keep_focus && r.copy_colors == self.copy_colors && r.copy_cmdline == self.copy_cmdline && r.copy_env == self.copy_env && r.hold == self.hold && r.location == self.location && r.allow_remote_control == self.allow_remote_control && r.remote_control_password == self.remote_control_password && r.stdin_source == self.stdin_source && r.stdin_add_formatting == self.stdin_add_formatting && r.stdin_add_line_wrap_markers == self.stdin_add_line_wrap_markers && r.spacing == self.spacing && r.logo == self.logo && r.logo_position == self.logo_position && r.self_window == self.self_window && r.os_window_title == self.os_window_title && r.os_window_name == self.os_window_name && r.os_window_class == self.os_window_class && r.os_window_state == self.os_window_state && r.color == self.color && r.watcher == self.watcher && r.bias == self.bias,
    {
        LaunchCommand { marker: Some(String::from_str(value)), ..self }
    }

    pub fn logo(self, value: &str) -> (r: LaunchCommand)
        ensures
            (r.logo matches Some(s2) && s2@ == value@) && r.args == self.args && r.window_title == self.window_title && r.cwd == self.cwd && r.env == self.env && r.var == self.var && r.tab_title == self.tab_title && r.window_type == self.window_type && r.keep_focus == self.keep_focus && r.copy_colors == self.copy_colors && r.copy_cmdline == self.copy_cmdline && r.copy_env == self.copy_env && r.hold == self.hold && r.location == self.location && r.allow_remote_control == self.allow_remote_control && r.remote_control_password == self.remote_control_password && r.stdin_source == self.stdin_source && r.stdin_add_formatting == self.stdin_add_formatting && r.stdin_add_line_wrap_markers == self.stdin_add_line_wrap_markers && r.spacing == self.spacing && r.marker == self.marker && r.logo_position == self.logo_position && r.self_window == self.self_window && r.os_window_title == self.os_window_title && r.os_window_name == self.os_window_name && r.os_window_class == self.os_window_class && r.os_window_state == self.os_window_state && r.color == self.color && r.watcher == self.watcher && r.bias == self.bias,
    {
        LaunchCommand { logo: Some(String::from_str(value)), ..self }
    }

    pub fn logo_position(self, value: &str) -> (r: LaunchCommand)
        ensures
            (r.logo_position matches Some(s2) && s2@ == value@) && r.args == self.args && r.window_title == self.window_title && r.cwd == self.cwd && r.env == self.env && r.var == self.var && r.tab_title == self.tab_title && r.window_type == self.window_type && r.keep_focus == self.keep_focus && r.copy_colors == self.copy_colors && r.copy_cmdline == self.copy_cmdline && r.copy_env == self.copy_env && r.hold == self.hold && r.location == self.location && r.allow_remote_control == self.allow_remote_control && r.remote_control_password == self.remote_control_password && r.stdin_source == self.stdin_source && r.stdin_add_formatting == self.stdin_add_formatting && r.stdin_add_line_wrap_markers == self.stdin_add_line_wrap_markers && r.spacing == self.spacing && r.marker == self.marker && r.logo == self.logo && r.self_window == self.self_window && r.os_window_title == self.os_window_title && r.os_window_name == self.os_window_name && r.os_window_class == self.os_window_class && r.os_window_state == self.os_window_state && r.color == self.color && r.watcher == self.watcher && r.bias == self.bias,
    {
        LaunchCommand { logo_position: Some(String::from_str(value)), ..self }
    }

    pub fn self_window(self, value: bool) -> (r: LaunchCommand)
        ensures
            r.self_window == value && r.args == self.args && r.window_title == self.window_title && r.cwd == self.cwd && r.env == self.env && r.var == self.var && r.tab_title == self.tab_title && r.window_type == self.window_type && r.keep_focus == self.keep_focus && r.copy_colors == self.copy_colors && r.copy_cmdline == self.copy_cmdline && r.copy_env == self.copy_env && r.hold == self.hold && r.location == self.location && r.allow_remote_control == self.allow_remote_control && r.remote_control_password == self.remote_control_password && r.stdin_source == self.stdin_source && r.stdin_add_formatting == self.stdin_add_formatting && r.stdin_add_line_wrap_markers == self.stdin_add_line_wrap_markers && r.spacing == self.spacing && r.marker == self.marker && r.logo == self.logo && r.logo_position == self.logo_position && r.os_window_title == self.os_window_title && r.os_window_name == self.os_window_name && r.os_window_class == self.os_window_class && r.os_window_state == self.os_window_state && r.color == self.color && r.watcher == self.watcher && r.bias == self.bias,
    {
        LaunchCommand { self_window: value, ..self }
    }

    pub fn os_window_title(self, value: &str) -> (r: LaunchCommand)
        ensures
            (r.os_window_title matches Some(s2) && s2@ == value@) && r.args == self.args && r.window_title == self.window_title && r.cwd == self.cwd && r.env == self.env && r.var == self.var && r.tab_title == self.tab_title && r.window_type == self.window_type && r.keep_focus == self.keep_focus && r.copy_colors == self.copy_colors && r.copy_cmdline == self.copy_cmdline && r.copy_env == self.copy_env && r.hold == self.hold && r.location == self.location && r.allow_remote_control == self.allow_remote_control && r.remote_control_password == self.remote_control_password && r.stdin_source == self.stdin_source && r.stdin_add_formatting == self.stdin_add_formatting && r.stdin_add_line_wrap_markers == self.stdin_add_line_wrap_markers && r.spacing == self.spacing && r.marker == self.marker && r.logo == self.logo && r.logo_position == self.logo_position && r.self_window == self.self_window && r.os_window_name == self.os_window_name && r.os_window_class == self.os_window_class && r.os_window_state == self.os_window_state && r.color == self.color && r.watcher == self.watcher && r.bias == self.bias,
    {
        LaunchCommand { os_window_title: Some(String::from_str(value)), ..self }
    }

    pub fn os_window_name(self, value: &str) -> (r: LaunchCommand)
        ensures
            (r.os_window_name matches Some(s2) && s2@ == value@) && r.args == self.args && r.window_title == self.window_title && r.cwd == self.cwd && r.env == self.env && r.var == self.var && r.tab_title == self.tab_title && r.window_type == self.window_type && r.keep_focus == self.keep_focus && r.copy_colors == self.copy_colors && r.copy_cmdline == self.copy_cmdline && r.copy_env == self.copy_env && r.hold == self.hold && r.location == self.location && r.allow_remote_control == self.allow_remote_control && r.remote_control_password == self.remote_control_password && r.stdin_source == self.stdin_source && r.stdin_add_formatting == self.stdin_add_formatting && r.stdin_add_line_wrap_markers == self.stdin_add_line_wrap_markers && r.spacing == self.spacing && r.marker == self.marker && r.logo == self.logo && r.logo_position == self.logo_position && r.self_window == self.self_window && r.os_window_title == self.os_window_title && r.os_window_class == self.os_window_class && r.os_window_state == self.os_window_state && r.color == self.color && r.watcher == self.watcher && r.bias == self.bias,
    {
        LaunchCommand { os_window_name: Some(String::from_str(value)), ..self }
    }

    pub fn os_window_class(self, value: &str) -> (r: LaunchCommand)
        ensures
            (r.os_window_class matches Some(s2) && s2@ == value@) && r.args == self.args && r.window_title == self.window_title && r.cwd == self.cwd && r.env == self.env && r.var == self.var && r.tab_title == self.tab_title && r.window_type == self.window_type && r.keep_focus == self.keep_focus && r.copy_colors == self.copy_colors && r.copy_cmdline == self.copy_cmdline && r.copy_env == self.copy_env && r.hold == self.hold && r.location == self.location && r.allow_remote_control == self.allow_remote_control && r.remote_control_password == self.remote_control_password && r.stdin_source == self.stdin_source && r.stdin_add_formatting == self.stdin_add_formatting && r.stdin_add_line_wrap_markers == self.stdin_add_line_wrap_markers && r.spacing == self.spacing && r.marker == self.marker && r.logo == self.logo && r.logo_position == self.logo_position && r.self_window == self.self_window && r.os_window_title == self.os_window_title && r.os_window_name == self.os_window_name && r.os_window_state == self.os_window_state && r.color == self.color && r.watcher == self.watcher && r.bias == self.bias,
    {
        LaunchCommand { os_window_class: Some(String::from_str(value)), ..self }
    }

    pub fn os_window_state(self, value: &str) -> (r: LaunchCommand)
        ensures
            (r.os_window_state matches Some(s2) && s2@ == value@) && r.args == self.args && r.window_title == self.window_title && r.cwd == self.cwd && r.env == self.env && r.var == self.var && r.tab_title == self.tab_title && r.window_type == self.window_type && r.keep_focus == self.keep_focus && r.copy_colors == self.copy_colors && r.copy_cmdline == self.copy_cmdline && r.copy_env == self.copy_env && r.hold == self.hold && r.location == self.location && r.allow_remote_control == self.allow_remote_control && r.remote_control_password == self.remote_control_password && r.stdin_source == self.stdin_source && r.stdin_add_formatting == self.stdin_add_formatting && r.stdin_add_line_wrap_markers == self.stdin_add_line_wrap_markers && r.spacing == self.spacing && r.marker == self.marker && r.logo == self.logo && r.logo_position == self.logo_position && r.self_window == self.self_window && r.os_window_title == self.os_window_title && r.os_window_name == self.os_window_name && r.os_window_class == self.os_window_class && r.color == self.color && r.watcher == self.watcher && r.bias == self.bias,
    {
        LaunchCommand { os_window_state: Some(String::from_str(value)), ..self }
    }

    pub fn color(self, value: &str) -> (r: LaunchCommand)
        ensures
            (r.color matches Some(s2) && s2@ == value@) && r.args == self.args && r.window_title == self.window_title && r.cwd == self.cwd && r.env == self.env && r.var == self.var && r.tab_title == self.tab_title && r.window_type == self.window_type && r.keep_focus == self.keep_focus && r.copy_colors == self.copy_colors && r.copy_cmdline == self.copy_cmdline && r.copy_env == self.copy_env && r.hold == self.hold && r.location == self.location && r.allow_remote_control == self.allow_remote_control && r.remote_control_password == self.remote_control_password && r.stdin_source == self.stdin_source && r.stdin_add_formatting == self.stdin_add_formatting && r.stdin_add_line_wrap_markers == self.stdin_add_line_wrap_markers && r.spacing == self.spacing && r.marker == self.marker && r.logo == self.logo && r.logo_position == self.logo_position && r.self_window == self.self_window && r.os_window_title == self.os_window_title && r.os_window_name == self.os_window_name && r.os_window_class == self.os_window_class && r.os_window_state == self.os_window_state && r.watcher == self.watcher && r.bias == self.bias,
    {
        LaunchCommand { color: Some(String::from_str(value)), ..self }
    }

    pub fn watcher(self, value: &str) -> (r: LaunchCommand)
        ensures
            (r.watcher matches Some(s2) && s2@ == value@) && r.args == self.args && r.window_title == self.window_title && r.cwd == self.cwd && r.env == self.env && r.var == self.var && r.tab_title == self.tab_title && r.window_type == self.window_type && r.keep_focus == self.keep_focus && r.copy_colors == self.copy_colors && r.copy_cmdline == self.copy_cmdline && r.copy_env == self.copy_env && r.hold == self.hold && r.location == self.location && r.allow_remote_control == self.allow_remote_control && r.remote_control_password == self.remote_control_password && r.stdin_source == self.stdin_source && r.stdin_add_formatting == self.stdin_add_formatting && r.stdin_add_line_wrap_markers == self.stdin_add_line_wrap_markers && r.spacing == self.spacing && r.marker == self.marker && r.logo == self.logo && r.logo_position == self.logo_position && r.self_window == self.self_window && r.os_window_title == self.os_window_title && r.os_window_name == self.os_window_name && r.os_window_class == self.os_window_class && r.os_window_state == self.os_window_state && r.color == self.color && r.bias == self.bias,
    {
        LaunchCommand { watcher: Some(String::from_str(value)), ..self }
    }

    pub fn bias(self, value: i32) -> (r: LaunchCommand)
        ensures
            r.bias == Some(value) && r.args == self.args && r.window_title == self.window_title && r.cwd == self.cwd && r.env == self.env && r.var == self.var && r.tab_title == self.tab_title && r.window_type == self.window_type && r.keep_focus == self.keep_focus && r.copy_colors == self.copy_colors && r.copy_cmdline == self.copy_cmdline && r.copy_env == self.copy_env && r.hold == self.hold && r.location == self.location && r.allow_remote_control == self.allow_remote_control && r.remote_control_password == self.remote_control_password && r.stdin_source == self.stdin_source && r.stdin_add_formatting == self.stdin_add_formatting && r.stdin_add_line_wrap_markers == self.stdin_add_line_wrap_markers && r.spacing == self.spacing && r.marker == self.marker && r.logo == self.logo && r.logo_position == self.logo_position && r.self_window == self.self_window && r.os_window_title == self.os_window_title && r.os_window_name == self.os_window_name && r.os_window_class == self.os_window_class && r.os_window_state == self.os_window_state && r.color == self.color && r.watcher == self.watcher,
    {
        LaunchCommand { bias: Some(value), ..self }
    }

    /// Builds the wire envelope this command denotes.
    #[verifier::loop_isolation(false)]
    #[verifier::rlimit(100)]
    pub fn build(self) -> (r: Result<KittyMessage, CommandError>)
        ensures
            (r matches Ok(m) && m@.cmd == "launch"@ && m@.version == default_version()
                && m@.no_response is None && m@.kitty_window_id is None && m@.async_id is None
                && m@.cancel_async is None && m@.stream_id is None && m@.stream is None
                && m@.payload == Some(SpecJson::Obj(spec_launch_command_entries(self)))),
    {
        let ghost orig = self;
        let LaunchCommand { args, window_title, cwd, env, var, tab_title, window_type, keep_focus, copy_colors, copy_cmdline, copy_env, hold, location, allow_remote_control, remote_control_password, stdin_source, stdin_add_formatting, stdin_add_line_wrap_markers, spacing, marker, logo, logo_position, self_window, os_window_title, os_window_name, os_window_class, os_window_state, color, watcher, bias } = self;
        let mut entries: Vec<(String, JsonValue)> = Vec::new();
        proof {
            lemma_jv_entry_views_index(entries@);
        }
        assert(jv_entry_views(entries@) =~= Seq::<(Seq<char>, SpecJson)>::empty());
        launch_command_fill_0(&mut entries, args, window_title, cwd, env, var, tab_title, window_type, keep_focus, copy_colors, copy_cmdline);
        launch_command_fill_1(&mut entries, copy_env, hold, location, allow_remote_control, remote_control_password, stdin_source, stdin_add_formatting, stdin_add_line_wrap_markers, spacing, marker);
        launch_command_fill_2(&mut entries, logo, logo_position, self_window, os_window_title, os_window_name, os_window_class, os_window_state, color, watcher, bias);
        proof {
            assert(jv_entry_views(entries@) == spec_launch_command_entries(orig));
        }
        let msg = KittyMessage::new(String::from_str("launch"), default_version_vec());
        Ok(msg.payload(JsonValue::Obj(entries)))
    }
}

} // verus!
