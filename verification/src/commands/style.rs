//! Builders for the style commands: colors, fonts, spacing, backgrounds.
use crate::command::default_version;
use crate::command::default_version_vec;
use crate::command::push_entry;
use crate::error::CommandError;
use crate::json::JsonValue;
use crate::json::SpecJson;
use crate::json::jv_entry_views;
use crate::json::lemma_jv_entry_views_index;
use crate::protocol::KittyMessage;
use vstd::prelude::*;
use vstd::string::StringExecFns;

verus! {

pub struct SetBackgroundImageCommand {
    pub data: String,
    pub match_spec: Option<String>,
    pub layout: Option<String>,
    pub all: bool,
    pub configured: bool,
}

/// The payload members `set-background-image` sends, in order.
pub open spec fn spec_set_background_image_command_entries(c: SetBackgroundImageCommand) -> Seq<(Seq<char>, SpecJson)> {
    let e = Seq::<(Seq<char>, SpecJson)>::empty();
    let e = e.push(("data"@, SpecJson::Str(c.data@)));
    let e = (if c.match_spec is Some { e.push(("match"@, SpecJson::Str(c.match_spec->0@))) } else { e });
    let e = (if c.layout is Some { e.push(("layout"@, SpecJson::Str(c.layout->0@))) } else { e });
    let e = (if c.all { e.push(("all"@, SpecJson::Bool(true))) } else { e });
    let e = (if c.configured { e.push(("configured"@, SpecJson::Bool(true))) } else { e });
    e
}

impl SetBackgroundImageCommand {
    pub fn new(data: &str) -> (r: SetBackgroundImageCommand)
        ensures
            r.data@ == data@,
            r.match_spec is None,
            r.layout is None,
            r.all == false,
            r.configured == false,
    {
        SetBackgroundImageCommand {
            data: String::from_str(data),
            match_spec: None,
            layout: None,
            all: false,
            configured: false,
        }
    }

    pub fn match_spec(self, value: &str) -> (r: SetBackgroundImageCommand)
        ensures
            (r.match_spec matches Some(s2) && s2@ == value@) && r.data == self.data && r.layout == self.layout && r.all == self.all && r.configured == self.configured,
    {
        SetBackgroundImageCommand { match_spec: Some(String::from_str(value)), ..self }
    }

    pub fn layout(self, value: &str) -> (r: SetBackgroundImageCommand)
        ensures
            (r.layout matches Some(s2) && s2@ == value@) && r.data == self.data && r.match_spec == self.match_spec && r.all == self.all && r.configured == self.configured,
    {
        SetBackgroundImageCommand { layout: Some(String::from_str(value)), ..self }
    }

    pub fn all(self, value: bool) -> (r: SetBackgroundImageCommand)
        ensures
            r.all == value && r.data == self.data && r.match_spec == self.match_spec && r.layout == self.layout && r.configured == self.configured,
    {
        SetBackgroundImageCommand { all: value, ..self }
    }

    pub fn configured(self, value: bool) -> (r: SetBackgroundImageCommand)
        ensures
            r.configured == value && r.data == self.data && r.match_spec == self.match_spec && r.layout == self.layout && r.all == self.all,
    {
        SetBackgroundImageCommand { configured: value, ..self }
    }

    /// Builds the wire envelope this command denotes.
    #[verifier::loop_isolation(false)]
    #[verifier::rlimit(100)]
    pub fn build(self) -> (r: Result<KittyMessage, CommandError>)
        ensures
            self.data@.len() == 0 ==> (r matches Err(e) && (e matches CommandError::MissingParameter(p, cc) && p@ == "data"@ && cc@ == "set-background-image"@)),
            self.data@.len() > 0 ==> (r matches Ok(m) && m@.cmd == "set-background-image"@ && m@.version == default_version()
                && m@.no_response is None && m@.kitty_window_id is None && m@.async_id is None
                && m@.cancel_async is None && m@.stream_id is None && m@.stream is None
                && m@.payload == Some(SpecJson::Obj(spec_set_background_image_command_entries(self)))),
    {
        let ghost orig = self;
        if self.data.as_str().is_empty() {
            return Err(CommandError::MissingParameter(String::from_str("data"), String::from_str("set-background-image")));
        }
        let SetBackgroundImageCommand { data, match_spec, layout, all, configured } = self;
        let mut entries: Vec<(String, JsonValue)> = Vec::new();
        proof {
            lemma_jv_entry_views_index(entries@);
        }
        let ghost mut ge: Seq<(Seq<char>, SpecJson)> = Seq::empty();
        assert(jv_entry_views(entries@) =~= ge);
        proof {
            ge = ge.push(("data"@, SpecJson::Str(data@)));
        }
        push_entry(&mut entries, (String::from_str("data"), JsonValue::Str(data)));
        assert(jv_entry_views(entries@) == ge);
        if let Some(x) = match_spec {
            proof {
                ge = ge.push(("match"@, SpecJson::Str(x@)));
            }
            push_entry(&mut entries, (String::from_str("match"), JsonValue::Str(x)));
        }
        assert(jv_entry_views(entries@) == ge);
        if let Some(x) = layout {
            proof {
                ge = ge.push(("layout"@, SpecJson::Str(x@)));
            }
            push_entry(&mut entries, (String::from_str("layout"), JsonValue::Str(x)));
        }
        assert(jv_entry_views(entries@) == ge);
        if all {
            proof {
                ge = ge.push(("all"@, SpecJson::Bool(true)));
            }
            push_entry(&mut entries, (String::from_str("all"), JsonValue::Bool(true)));
        }
        assert(jv_entry_views(entries@) == ge);
        if configured {
            proof {
                ge = ge.push(("configured"@, SpecJson::Bool(true)));
            }
            push_entry(&mut entries, (String::from_str("configured"), JsonValue::Bool(true)));
        }
        assert(jv_entry_views(entries@) == ge);
        proof {
            assert(ge == spec_set_background_image_command_entries(orig));
        }
        let msg = KittyMessage::new(String::from_str("set-background-image"), default_version_vec());
        Ok(msg.payload(JsonValue::Obj(entries)))
    }
}

pub struct SetColorsCommand {
    pub colors: Vec<(String, JsonValue)>,
    pub match_window: Option<String>,
    pub match_tab: Option<String>,
    pub all: bool,
    pub configured: bool,
    pub reset: bool,
}

/// The payload members `set-colors` sends, in order.
pub open spec fn spec_set_colors_command_entries(c: SetColorsCommand) -> Seq<(Seq<char>, SpecJson)> {
    let e = Seq::<(Seq<char>, SpecJson)>::empty();
    let e = e.push(("colors"@, SpecJson::Obj(jv_entry_views(c.colors@))));
    let e = (if c.match_window is Some { e.push(("match_window"@, SpecJson::Str(c.match_window->0@))) } else { e });
    let e = (if c.match_tab is Some { e.push(("match_tab"@, SpecJson::Str(c.match_tab->0@))) } else { e });
    let e = (if c.all { e.push(("all"@, SpecJson::Bool(true))) } else { e });
    let e = (if c.configured { e.push(("configured"@, SpecJson::Bool(true))) } else { e });
    let e = (if c.reset { e.push(("reset"@, SpecJson::Bool(true))) } else { e });
    e
}

impl SetColorsCommand {
    pub fn new(colors: Vec<(String, JsonValue)>) -> (r: SetColorsCommand)
        ensures
            r.colors == colors,
            r.match_window is None,
            r.match_tab is None,
            r.all == false,
            r.configured == false,
            r.reset == false,
    {
        SetColorsCommand {
            colors,
            match_window: None,
            match_tab: None,
            all: false,
            configured: false,
            reset: false,
        }
    }

    pub fn match_window(self, value: &str) -> (r: SetColorsCommand)
        ensures
            (r.match_window matches Some(s2) && s2@ == value@) && r.colors == self.colors && r.match_tab == self.match_tab && r.all == self.all && r.configured == self.configured && r.reset == self.reset,
    {
        SetColorsCommand { match_window: Some(String::from_str(value)), ..self }
    }

    pub fn match_tab(self, value: &str) -> (r: SetColorsCommand)
        ensures
            (r.match_tab matches Some(s2) && s2@ == value@) && r.colors == self.colors && r.match_window == self.match_window && r.all == self.all && r.configured == self.configured && r.reset == self.reset,
    {
        SetColorsCommand { match_tab: Some(String::from_str(value)), ..self }
    }

    pub fn all(self, value: bool) -> (r: SetColorsCommand)
        ensures
            r.all == value && r.colors == self.colors && r.match_window == self.match_window && r.match_tab == self.match_tab && r.configured == self.configured && r.reset == self.reset,
    {
        SetColorsCommand { all: value, ..self }
    }

    pub fn configured(self, value: bool) -> (r: SetColorsCommand)
        ensures
            r.configured == value && r.colors == self.colors && r.match_window == self.match_window && r.match_tab == self.match_tab && r.all == self.all && r.reset == self.reset,
    {
        SetColorsCommand { configured: value, ..self }
    }

    pub fn reset(self, value: bool) -> (r: SetColorsCommand)
        ensures
            r.reset == value && r.colors == self.colors && r.match_window == self.match_window && r.match_tab == self.match_tab && r.all == self.all && r.configured == self.configured,
    {
        SetColorsCommand { reset: value, ..self }
    }

    /// Builds the wire envelope this command denotes.
    #[verifier::loop_isolation(false)]
    #[verifier::rlimit(100)]
    pub fn build(self) -> (r: Result<KittyMessage, CommandError>)
        ensures
            self.colors@.len() == 0 ==> (r matches Err(e) && (e matches CommandError::MissingParameter(p, cc) && p@ == "colors"@ && cc@ == "set-colors"@)),
            self.colors@.len() > 0 ==> (r matches Ok(m) && m@.cmd == "set-colors"@ && m@.version == default_version()
                && m@.no_response is None && m@.kitty_window_id is None && m@.async_id is None
                && m@.cancel_async is None && m@.stream_id is None && m@.stream is None
                && m@.payload == Some(SpecJson::Obj(spec_set_colors_command_entries(self)))),
    {
        let ghost orig = self;
        if self.colors.len() == 0 {
            return Err(CommandError::MissingParameter(String::from_str("colors"), String::from_str("set-colors")));
        }
        let SetColorsCommand { colors, match_window, match_tab, all, configured, reset } = self;
        let mut entries: Vec<(String, JsonValue)> = Vec::new();
        proof {
            lemma_jv_entry_views_index(entries@);
        }
        let ghost mut ge: Seq<(Seq<char>, SpecJson)> = Seq::empty();
        assert(jv_entry_views(entries@) =~= ge);
        proof {
            ge = ge.push(("colors"@, SpecJson::Obj(jv_entry_views(colors@))));
        }
        push_entry(&mut entries, (String::from_str("colors"), JsonValue::Obj(colors)));
        assert(jv_entry_views(entries@) == ge);
        if let Some(x) = match_window {
            proof {
                ge = ge.push(("match_window"@, SpecJson::Str(x@)));
            }
            push_entry(&mut entries, (String::from_str("match_window"), JsonValue::Str(x)));
        }
        assert(jv_entry_views(entries@) == ge);
        if let Some(x) = match_tab {
            proof {
                ge = ge.push(("match_tab"@, SpecJson::Str(x@)));
            }
            push_entry(&mut entries, (String::from_str("match_tab"), JsonValue::Str(x)));
        }
        assert(jv_entry_views(entries@) == ge);
        if all {
            proof {
                ge = ge.push(("all"@, SpecJson::Bool(true)));
            }
            push_entry(&mut entries, (String::from_str("all"), JsonValue::Bool(true)));
        }
        assert(jv_entry_views(entries@) == ge);
        if configured {
            proof {
                ge = ge.push(("configured"@, SpecJson::Bool(true)));
            }
            push_entry(&mut entries, (String::from_str("configured"), JsonValue::Bool(true)));
        }
        assert(jv_entry_views(entries@) == ge);
        if reset {
            proof {
                ge = ge.push(("reset"@, SpecJson::Bool(true)));
            }
            push_entry(&mut entries, (String::from_str("reset"), JsonValue::Bool(true)));
        }
        assert(jv_entry_views(entries@) == ge);
        proof {
            assert(ge == spec_set_colors_command_entries(orig));
        }
        let msg = KittyMessage::new(String::from_str("set-colors"), default_version_vec());
        Ok(msg.payload(JsonValue::Obj(entries)))
    }
}

pub struct SetFontSizeCommand {
    pub size: i32,
    pub all: bool,
    pub increment_op: Option<String>,
}

/// The payload members `set-font-size` sends, in order.
pub open spec fn spec_set_font_size_command_entries(c: SetFontSizeCommand) -> Seq<(Seq<char>, SpecJson)> {
    let e = Seq::<(Seq<char>, SpecJson)>::empty();
    let e = e.push(("size"@, SpecJson::Int(c.size as i64)));
    let e = (if c.all { e.push(("all"@, SpecJson::Bool(true))) } else { e });
    let e = (if c.increment_op is Some { e.push(("increment_op"@, SpecJson::Str(c.increment_op->0@))) } else { e });
    e
}

impl SetFontSizeCommand {
    pub fn new(size: i32) -> (r: SetFontSizeCommand)
        ensures
            r.size == size,
            r.all == false,
            r.increment_op is None,
    {
        SetFontSizeCommand {
            size,
            all: false,
            increment_op: None,
        }
    }

    pub fn all(self, value: bool) -> (r: SetFontSizeCommand)
        ensures
            r.all == value && r.size == self.size && r.increment_op == self.increment_op,
    {
        SetFontSizeCommand { all: value, ..self }
    }

    pub fn increment_op(self, value: &str) -> (r: SetFontSizeCommand)
        ensures
            (r.increment_op matches Some(s2) && s2@ == value@) && r.size == self.size && r.all == self.all,
    {
        SetFontSizeCommand { increment_op: Some(String::from_str(value)), ..self }
    }

    /// Builds the wire envelope this command denotes.
    #[verifier::loop_isolation(false)]
    pub fn build(self) -> (r: Result<KittyMessage, CommandError>)
        ensures
            (r matches Ok(m) && m@.cmd == "set-font-size"@ && m@.version == default_version()
                && m@.no_response is None && m@.kitty_window_id is None && m@.async_id is None
                && m@.cancel_async is None && m@.stream_id is None && m@.stream is None
                && m@.payload == Some(SpecJson::Obj(spec_set_font_size_command_entries(self)))),
    {
        let ghost orig = self;
        let SetFontSizeCommand { size, all, increment_op } = self;
        let mut entries: Vec<(String, JsonValue)> = Vec::new();
        proof {
            lemma_jv_entry_views_index(entries@);
        }
        let ghost mut ge: Seq<(Seq<char>, SpecJson)> = Seq::empty();
        assert(jv_entry_views(entries@) =~= ge);
        proof {
            ge = ge.push(("size"@, SpecJson::Int(size as i64)));
        }
        push_entry(&mut entries, (String::from_str("size"), JsonValue::Int(size as i64)));
        assert(jv_entry_views(entries@) == ge);
        if all {
            proof {
                ge = ge.push(("all"@, SpecJson::Bool(true)));
            }
            push_entry(&mut entries, (String::from_str("all"), JsonValue::Bool(true)));
        }
        assert(jv_entry_views(entries@) == ge);
        if let Some(x) = increment_op {
            proof {
                ge = ge.push(("increment_op"@, SpecJson::Str(x@)));
            }
            push_entry(&mut entries, (String::from_str("increment_op"), JsonValue::Str(x)));
        }
        assert(jv_entry_views(entries@) == ge);
        proof {
            assert(ge == spec_set_font_size_command_entries(orig));
        }
        let msg = KittyMessage::new(String::from_str("set-font-size"), default_version_vec());
        Ok(msg.payload(JsonValue::Obj(entries)))
    }
}

pub struct SetSpacingCommand {
    pub settings: Vec<(String, JsonValue)>,
    pub match_window: Option<String>,
    pub match_tab: Option<String>,
    pub all: bool,
    pub configured: bool,
}

/// The payload members `set-spacing` sends, in order.
pub open spec fn spec_set_spacing_command_entries(c: SetSpacingCommand) -> Seq<(Seq<char>, SpecJson)> {
    let e = Seq::<(Seq<char>, SpecJson)>::empty();
    let e = e.push(("settings"@, SpecJson::Obj(jv_entry_views(c.settings@))));
    let e = (if c.match_window is Some { e.push(("match_window"@, SpecJson::Str(c.match_window->0@))) } else { e });
    let e = (if c.match_tab is Some { e.push(("match_tab"@, SpecJson::Str(c.match_tab->0@))) } else { e });
    let e = (if c.all { e.push(("all"@, SpecJson::Bool(true))) } else { e });
    let e = (if c.configured { e.push(("configured"@, SpecJson::Bool(true))) } else { e });
    e
}

impl SetSpacingCommand {
    pub fn new(settings: Vec<(String, JsonValue)>) -> (r: SetSpacingCommand)
        ensures
            r.settings == settings,
            r.match_window is None,
            r.match_tab is None,
            r.all == false,
            r.configured == false,
    {
        SetSpacingCommand {
            settings,
            match_window: None,
            match_tab: None,
            all: false,
            configured: false,
        }
    }

    pub fn match_window(self, value: &str) -> (r: SetSpacingCommand)
        ensures
            (r.match_window matches Some(s2) && s2@ == value@) && r.settings == self.settings && r.match_tab == self.match_tab && r.all == self.all && r.configured == self.configured,
    {
        SetSpacingCommand { match_window: Some(String::from_str(value)), ..self }
    }

    pub fn match_tab(self, value: &str) -> (r: SetSpacingCommand)
        ensures
            (r.match_tab matches Some(s2) && s2@ == value@) && r.settings == self.settings && r.match_window == self.match_window && r.all == self.all && r.configured == self.configured,
    {
        SetSpacingCommand { match_tab: Some(String::from_str(value)), ..self }
    }

    pub fn all(self, value: bool) -> (r: SetSpacingCommand)
        ensures
            r.all == value && r.settings == self.settings && r.match_window == self.match_window && r.match_tab == self.match_tab && r.configured == self.configured,
    {
        SetSpacingCommand { all: value, ..self }
    }

    pub fn configured(self, value: bool) -> (r: SetSpacingCommand)
        ensures
            r.configured == value && r.settings == self.settings && r.match_window == self.match_window && r.match_tab == self.match_tab && r.all == self.all,
    {
        SetSpacingCommand { configured: value, ..self }
    }

    /// Builds the wire envelope this command denotes.
    #[verifier::loop_isolation(false)]
    #[verifier::rlimit(100)]
    pub fn build(self) -> (r: Result<KittyMessage, CommandError>)
        ensures
            self.settings@.len() == 0 ==> (r matches Err(e) && (e matches CommandError::MissingParameter(p, cc) && p@ == "settings"@ && cc@ == "set-spacing"@)),
            self.settings@.len() > 0 ==> (r matches Ok(m) && m@.cmd == "set-spacing"@ && m@.version == default_version()
                && m@.no_response is None && m@.kitty_window_id is None && m@.async_id is None
                && m@.cancel_async is None && m@.stream_id is None && m@.stream is None
                && m@.payload == Some(SpecJson::Obj(spec_set_spacing_command_entries(self)))),
    {
        let ghost orig = self;
        if self.settings.len() == 0 {
            return Err(CommandError::MissingParameter(String::from_str("settings"), String::from_str("set-spacing")));
        }
        let SetSpacingCommand { settings, match_window, match_tab, all, configured } = self;
        let mut entries: Vec<(String, JsonValue)> = Vec::new();
        proof {
            lemma_jv_entry_views_index(entries@);
        }
        let ghost mut ge: Seq<(Seq<char>, SpecJson)> = Seq::empty();
        assert(jv_entry_views(entries@) =~= ge);
        proof {
            ge = ge.push(("settings"@, SpecJson::Obj(jv_entry_views(settings@))));
        }
        push_entry(&mut entries, (String::from_str("settings"), JsonValue::Obj(settings)));
        assert(jv_entry_views(entries@) == ge);
        if let Some(x) = match_window {
            proof {
                ge = ge.push(("match_window"@, SpecJson::Str(x@)));
            }
            push_entry(&mut entries, (String::from_str("match_window"), JsonValue::Str(x)));
        }
        assert(jv_entry_views(entries@) == ge);
        if let Some(x) = match_tab {
            proof {
                ge = ge.push(("match_tab"@, SpecJson::Str(x@)));
            }
            push_entry(&mut entries, (String::from_str("match_tab"), JsonValue::Str(x)));
        }
        assert(jv_entry_views(entries@) == ge);
        if all {
            proof {
                ge = ge.push(("all"@, SpecJson::Bool(true)));
            }
            push_entry(&mut entries, (String::from_str("all"), JsonValue::Bool(true)));
        }
        assert(jv_entry_views(entries@) == ge);
        if configured {
            proof {
                ge = ge.push(("configured"@, SpecJson::Bool(true)));
            }
            push_entry(&mut entries, (String::from_str("configured"), JsonValue::Bool(true)));
        }
        assert(jv_entry_views(entries@) == ge);
        proof {
            assert(ge == spec_set_spacing_command_entries(orig));
        }
        let msg = KittyMessage::new(String::from_str("set-spacing"), default_version_vec());
        Ok(msg.payload(JsonValue::Obj(entries)))
    }
}

pub struct SetTabColorCommand {
    pub colors: Vec<(String, JsonValue)>,
    pub match_spec: Option<String>,
    pub self_tab: bool,
}

/// The payload members `set-tab-color` sends, in order.
pub open spec fn spec_set_tab_color_command_entries(c: SetTabColorCommand) -> Seq<(Seq<char>, SpecJson)> {
    let e = Seq::<(Seq<char>, SpecJson)>::empty();
    let e = e.push(("colors"@, SpecJson::Obj(jv_entry_views(c.colors@))));
    let e = (if c.match_spec is Some { e.push(("match"@, SpecJson::Str(c.match_spec->0@))) } else { e });
    let e = (if c.self_tab { e.push(("self"@, SpecJson::Bool(true))) } else { e });
    e
}

impl SetTabColorCommand {
    pub fn new(colors: Vec<(String, JsonValue)>) -> (r: SetTabColorCommand)
        ensures
            r.colors == colors,
            r.match_spec is None,
            r.self_tab == false,
    {
        SetTabColorCommand {
            colors,
            match_spec: None,
            self_tab: false,
        }
    }

    pub fn match_spec(self, value: &str) -> (r: SetTabColorCommand)
        ensures
            (r.match_spec matches Some(s2) && s2@ == value@) && r.colors == self.colors && r.self_tab == self.self_tab,
    {
        SetTabColorCommand { match_spec: Some(String::from_str(value)), ..self }
    }

    pub fn self_tab(self, value: bool) -> (r: SetTabColorCommand)
        ensures
            r.self_tab == value && r.colors == self.colors && r.match_spec == self.match_spec,
    {
        SetTabColorCommand { self_tab: value, ..self }
    }

    /// Builds the wire envelope this command denotes.
    #[verifier::loop_isolation(false)]
    pub fn build(self) -> (r: Result<KittyMessage, CommandError>)
        ensures
            self.colors@.len() == 0 ==> (r matches Err(e) && (e matches CommandError::MissingParameter(p, cc) && p@ == "colors"@ && cc@ == "set-tab-color"@)),
            self.colors@.len() > 0 ==> (r matches Ok(m) && m@.cmd == "set-tab-color"@ && m@.version == default_version()
                && m@.no_response is None && m@.kitty_window_id is None && m@.async_id is None
                && m@.cancel_async is None && m@.stream_id is None && m@.stream is None
                && m@.payload == Some(SpecJson::Obj(spec_set_tab_color_command_entries(self)))),
    {
        let ghost orig = self;
        if self.colors.len() == 0 {
            return Err(CommandError::MissingParameter(String::from_str("colors"), String::from_str("set-tab-color")));
        }
        let SetTabColorCommand { colors, match_spec, self_tab } = self;
        let mut entries: Vec<(String, JsonValue)> = Vec::new();
        proof {
            lemma_jv_entry_views_index(entries@);
        }
        let ghost mut ge: Seq<(Seq<char>, SpecJson)> = Seq::empty();
        assert(jv_entry_views(entries@) =~= ge);
        proof {
            ge = ge.push(("colors"@, SpecJson::Obj(jv_entry_views(colors@))));
        }
        push_entry(&mut entries, (String::from_str("colors"), JsonValue::Obj(colors)));
        assert(jv_entry_views(entries@) == ge);
        if let Some(x) = match_spec {
            proof {
                ge = ge.push(("match"@, SpecJson::Str(x@)));
            }
            push_entry(&mut entries, (String::from_str("match"), JsonValue::Str(x)));
        }
        assert(jv_entry_views(entries@) == ge);
        if self_tab {
            proof {
                ge = ge.push(("self"@, SpecJson::Bool(true)));
            }
            push_entry(&mut entries, (String::from_str("self"), JsonValue::Bool(true)));
        }
        assert(jv_entry_views(entries@) == ge);
        proof {
            assert(ge == spec_set_tab_color_command_entries(orig));
        }
        let msg = KittyMessage::new(String::from_str("set-tab-color"), default_version_vec());
        Ok(msg.payload(JsonValue::Obj(entries)))
    }
}

pub struct GetColorsCommand {
    pub match_spec: Option<String>,
    pub configured: bool,
}

/// The payload members `get-colors` sends, in order.
pub open spec fn spec_get_colors_command_entries(c: GetColorsCommand) -> Seq<(Seq<char>, SpecJson)> {
    let e = Seq::<(Seq<char>, SpecJson)>::empty();
    let e = (if c.match_spec is Some { e.push(("match"@, SpecJson::Str(c.match_spec->0@))) } else { e });
    let e = (if c.configured { e.push(("configured"@, SpecJson::Bool(true))) } else { e });
    e
}

impl GetColorsCommand {
    pub fn new() -> (r: GetColorsCommand)
        ensures
            r.match_spec is None,
            r.configured == false,
    {
        GetColorsCommand {
            match_spec: None,
            configured: false,
        }
    }

    pub fn match_spec(self, value: &str) -> (r: GetColorsCommand)
        ensures
            (r.match_spec matches Some(s2) && s2@ == value@) && r.configured == self.configured,
    {
        GetColorsCommand { match_spec: Some(String::from_str(value)), ..self }
    }

    pub fn configured(self, value: bool) -> (r: GetColorsCommand)
        ensures
            r.configured == value && r.match_spec == self.match_spec,
    {
        GetColorsCommand { configured: value, ..self }
    }

    /// Builds the wire envelope this command denotes.
    #[verifier::loop_isolation(false)]
    pub fn build(self) -> (r: Result<KittyMessage, CommandError>)
        ensures
            (r matches Ok(m) && m@.cmd == "get-colors"@ && m@.version == default_version()
                && m@.no_response is None && m@.kitty_window_id is None && m@.async_id is None
                && m@.cancel_async is None && m@.stream_id is None && m@.stream is None
                && m@.payload == Some(SpecJson::Obj(spec_get_colors_command_entries(self)))),
    {
        let ghost orig = self;
        let GetColorsCommand { match_spec, configured } = self;
        let mut entries: Vec<(String, JsonValue)> = Vec::new();
        proof {
            lemma_jv_entry_views_index(entries@);
        }
        let ghost mut ge: Seq<(Seq<char>, SpecJson)> = Seq::empty();
        assert(jv_entry_views(entries@) =~= ge);
        if let Some(x) = match_spec {
            proof {
                ge = ge.push(("match"@, SpecJson::Str(x@)));
            }
            push_entry(&mut entries, (String::from_str("match"), JsonValue::Str(x)));
        }
        assert(jv_entry_views(entries@) == ge);
        if configured {
            proof {
                ge = ge.push(("configured"@, SpecJson::Bool(true)));
            }
            push_entry(&mut entries, (String::from_str("configured"), JsonValue::Bool(true)));
        }
        assert(jv_entry_views(entries@) == ge);
        proof {
            assert(ge == spec_get_colors_command_entries(orig));
        }
        let msg = KittyMessage::new(String::from_str("get-colors"), default_version_vec());
        Ok(msg.payload(JsonValue::Obj(entries)))
    }
}

} // verus!
