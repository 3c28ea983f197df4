//! Builders for the layout commands.
use crate::command::default_version;
use crate::command::default_version_vec;
use crate::command::push_entry;
use crate::error::CommandError;
use crate::json::JsonValue;
use crate::json::SpecJson;
use crate::json::jv_entry_views;
use crate::json::lemma_jv_entry_views_index;
use crate::protocol::KittyMessage;
use vstd::prelude::*;
use vstd::string::StringExecFns;

verus! {

pub struct GotoLayoutCommand {
    pub layout: String,
    pub match_spec: Option<String>,
}

/// The payload members `goto-layout` sends, in order.
pub open spec fn spec_goto_layout_command_entries(c: GotoLayoutCommand) -> Seq<(Seq<char>, SpecJson)> {
    let e = Seq::<(Seq<char>, SpecJson)>::empty();
    let e = e.push(("layout"@, SpecJson::Str(c.layout@)));
    let e = (if c.match_spec is Some { e.push(("match"@, SpecJson::Str(c.match_spec->0@))) } else { e });
    e
}

impl GotoLayoutCommand {
    pub fn new(layout: &str) -> (r: GotoLayoutCommand)
        ensures
            r.layout@ == layout@,
            r.match_spec is None,
    {
        GotoLayoutCommand {
            layout: String::from_str(layout),
            match_spec: None,
        }
    }

    pub fn match_spec(self, value: &str) -> (r: GotoLayoutCommand)
        ensures
            (r.match_spec matches Some(s2) && s2@ == value@) && r.layout == self.layout,
    {
        GotoLayoutCommand { match_spec: Some(String::from_str(value)), ..self }
    }

    /// Builds the wire envelope this command denotes.
    #[verifier::loop_isolation(false)]
    pub fn build(self) -> (r: Result<KittyMessage, CommandError>)
        ensures
            self.layout@.len() == 0 ==> (r matches Err(e) && (e matches CommandError::MissingParameter(p, cc) && p@ == "layout"@ && cc@ == "goto-layout"@)),
            self.layout@.len() > 0 ==> (r matches Ok(m) && m@.cmd == "goto-layout"@ && m@.version == default_version()
                && m@.no_response is None && m@.kitty_window_id is None && m@.async_id is None
                && m@.cancel_async is None && m@.stream_id is None && m@.stream is None
                && m@.payload == Some(SpecJson::Obj(spec_goto_layout_command_entries(self)))),
    {
        let ghost orig = self;
        if self.layout.as_str().is_empty() {
            return Err(CommandError::MissingParameter(String::from_str("layout"), String::from_str("goto-layout")));
        }
        let GotoLayoutCommand { layout, match_spec } = self;
        let mut entries: Vec<(String, JsonValue)> = Vec::new();
        proof {
            lemma_jv_entry_views_index(entries@);
        }
        let ghost mut ge: Seq<(Seq<char>, SpecJson)> = Seq::empty();
        assert(jv_entry_views(entries@) =~= ge);
        proof {
            ge = ge.push(("layout"@, SpecJson::Str(layout@)));
        }
        push_entry(&mut entries, (String::from_str("layout"), JsonValue::Str(layout)));
        assert(jv_entry_views(entries@) == ge);
        if let Some(x) = match_spec {
            proof {
                ge = ge.push(("match"@, SpecJson::Str(x@)));
            }
            push_entry(&mut entries, (String::from_str("match"), JsonValue::Str(x)));
        }
        assert(jv_entry_views(entries@) == ge);
        proof {
            assert(ge == spec_goto_layout_command_entries(orig));
        }
        let msg = KittyMessage::new(String::from_str("goto-layout"), default_version_vec());
        Ok(msg.payload(JsonValue::Obj(entries)))
    }
}

pub struct SetEnabledLayoutsCommand {
    pub layouts: Vec<String>,
    pub match_spec: Option<String>,
    pub configured: bool,
}

/// The payload members `set-enabled-layouts` sends, in order.
pub open spec fn spec_set_enabled_layouts_command_entries(c: SetEnabledLayoutsCommand) -> Seq<(Seq<char>, SpecJson)> {
    let e = Seq::<(Seq<char>, SpecJson)>::empty();
    let e = e.push(("layouts"@, SpecJson::Arr(crate::command::strs_json(c.layouts@))));
    let e = (if c.match_spec is Some { e.push(("match"@, SpecJson::Str(c.match_spec->0@))) } else { e });
    let e = (if c.configured { e.push(("configured"@, SpecJson::Bool(true))) } else { e });
    e
}

impl SetEnabledLayoutsCommand {
    pub fn new(layouts: Vec<String>) -> (r: SetEnabledLayoutsCommand)
        ensures
            r.layouts == layouts,
            r.match_spec is None,
            r.configured == false,
    {
        SetEnabledLayoutsCommand {
            layouts,
            match_spec: None,
            configured: false,
        }
    }

    pub fn match_spec(self, value: &str) -> (r: SetEnabledLayoutsCommand)
        ensures
            (r.match_spec matches Some(s2) && s2@ == value@) && r.layouts == self.layouts && r.configured == self.configured,
    {
        SetEnabledLayoutsCommand { match_spec: Some(String::from_str(value)), ..self }
    }

    pub fn configured(self, value: bool) -> (r: SetEnabledLayoutsCommand)
        ensures
            r.configured == value && r.layouts == self.layouts && r.match_spec == self.match_spec,
    {
        SetEnabledLayoutsCommand { configured: value, ..self }
    }

    /// Builds the wire envelope this command denotes.
    #[verifier::loop_isolation(false)]
    pub fn build(self) -> (r: Result<KittyMessage, CommandError>)
        ensures
            self.layouts@.len() == 0 ==> (r matches Err(e) && (e matches CommandError::MissingParameter(p, cc) && p@ == "layouts"@ && cc@ == "set-enabled-layouts"@)),
            self.layouts@.len() > 0 ==> (r matches Ok(m) && m@.cmd == "set-enabled-layouts"@ && m@.version == default_version()
                && m@.no_response is None && m@.kitty_window_id is None && m@.async_id is None
                && m@.cancel_async is None && m@.stream_id is None && m@.stream is None
                && m@.payload == Some(SpecJson::Obj(spec_set_enabled_layouts_command_entries(self)))),
    {
        let ghost orig = self;
        if self.layouts.len() == 0 {
            return Err(CommandError::MissingParameter(String::from_str("layouts"), String::from_str("set-enabled-layouts")));
        }
        let SetEnabledLayoutsCommand { layouts, match_spec, configured } = self;
        let mut entries: Vec<(String, JsonValue)> = Vec::new();
        proof {
            lemma_jv_entry_views_index(entries@);
        }
        let ghost mut ge: Seq<(Seq<char>, SpecJson)> = Seq::empty();
        assert(jv_entry_views(entries@) =~= ge);
        proof {
            ge = ge.push(("layouts"@, SpecJson::Arr(crate::command::strs_json(layouts@))));
        }
        push_entry(&mut entries, (String::from_str("layouts"), JsonValue::Arr(crate::command::strs_to_json(layouts))));
        assert(jv_entry_views(entries@) == ge);
        if let Some(x) = match_spec {
            proof {
                ge = ge.push(("match"@, SpecJson::Str(x@)));
            }
            push_entry(&mut entries, (String::from_str("match"), JsonValue::Str(x)));
        }
        assert(jv_entry_views(entries@) == ge);
        if configured {
            proof {
                ge = ge.push(("configured"@, SpecJson::Bool(true)));
            }
            push_entry(&mut entries, (String::from_str("configured"), JsonValue::Bool(true)));
        }
        assert(jv_entry_views(entries@) == ge);
        proof {
            assert(ge == spec_set_enabled_layouts_command_entries(orig));
        }
        let msg = KittyMessage::new(String::from_str("set-enabled-layouts"), default_version_vec());
        Ok(msg.payload(JsonValue::Obj(entries)))
    }
}

pub struct LastUsedLayoutCommand {
    pub match_spec: Option<String>,
    pub all: bool,
}

/// The payload members `last-used-layout` sends, in order.
pub open spec fn spec_last_used_layout_command_entries(c: LastUsedLayoutCommand) -> Seq<(Seq<char>, SpecJson)> {
    let e = Seq::<(Seq<char>, SpecJson)>::empty();
    let e = (if c.match_spec is Some { e.push(("match"@, SpecJson::Str(c.match_spec->0@))) } else { e });
    let e = (if c.all { e.push(("all"@, SpecJson::Bool(true))) } else { e });
    e
}

impl LastUsedLayoutCommand {
    pub fn new() -> (r: LastUsedLayoutCommand)
        ensures
            r.match_spec is None,
            r.all == false,
    {
        LastUsedLayoutCommand {
            match_spec: None,
            all: false,
        }
    }

    pub fn match_spec(self, value: &str) -> (r: LastUsedLayoutCommand)
        ensures
            (r.match_spec matches Some(s2) && s2@ == value@) && r.all == self.all,
    {
        LastUsedLayoutCommand { match_spec: Some(String::from_str(value)), ..self }
    }

    pub fn all(self, value: bool) -> (r: LastUsedLayoutCommand)
        ensures
            r.all == value && r.match_spec == self.match_spec,
    {
        LastUsedLayoutCommand { all: value, ..self }
    }

    /// Builds the wire envelope this command denotes.
    #[verifier::loop_isolation(false)]
    pub fn build(self) -> (r: Result<KittyMessage, CommandError>)
        ensures
            (r matches Ok(m) && m@.cmd == "last-used-layout"@ && m@.version == default_version()
                && m@.no_response is None && m@.kitty_window_id is None && m@.async_id is None
                && m@.cancel_async is None && m@.stream_id is None && m@.stream is None
                && m@.payload == Some(SpecJson::Obj(spec_last_used_layout_command_entries(self)))),
    {
        let ghost orig = self;
        let LastUsedLayoutCommand { match_spec, all } = self;
        let mut entries: Vec<(String, JsonValue)> = Vec::new();
        proof {
            lemma_jv_entry_views_index(entries@);
        }
        let ghost mut ge: Seq<(Seq<char>, SpecJson)> = Seq::empty();
        assert(jv_entry_views(entries@) =~= ge);
        if let Some(x) = match_spec {
            proof {
                ge = ge.push(("match"@, SpecJson::Str(x@)));
            }
            push_entry(&mut entries, (String::from_str("match"), JsonValue::Str(x)));
        }
        assert(jv_entry_views(entries@) == ge);
        if all {
            proof {
                ge = ge.push(("all"@, SpecJson::Bool(true)));
            }
            push_entry(&mut entries, (String::from_str("all"), JsonValue::Bool(true)));
        }
        assert(jv_entry_views(entries@) == ge);
        proof {
            assert(ge == spec_last_used_layout_command_entries(orig));
        }
        let msg = KittyMessage::new(String::from_str("last-used-layout"), default_version_vec());
        Ok(msg.payload(JsonValue::Obj(entries)))
    }
}

} // verus!
