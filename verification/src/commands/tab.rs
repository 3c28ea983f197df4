//! Builders for the tab commands: focus, titles, closing, detaching.
use crate::command::default_version;
use crate::command::default_version_vec;
use crate::command::push_entry;
use crate::error::CommandError;
use crate::json::JsonValue;
use crate::json::SpecJson;
use crate::json::jv_entry_views;
use crate::json::lemma_jv_entry_views_index;
use crate::protocol::KittyMessage;
use vstd::prelude::*;
use vstd::string::StringExecFns;

verus! {

pub struct FocusTabCommand {
    pub match_spec: Option<String>,
}

/// The payload members `focus-tab` sends, in order.
pub open spec fn spec_focus_tab_command_entries(c: FocusTabCommand) -> Seq<(Seq<char>, SpecJson)> {
    let e = Seq::<(Seq<char>, SpecJson)>::empty();
    let e = (if c.match_spec is Some { e.push(("match"@, SpecJson::Str(c.match_spec->0@))) } else { e });
    e
}

impl FocusTabCommand {
    pub fn new() -> (r: FocusTabCommand)
        ensures
            r.match_spec is None,
    {
        FocusTabCommand {
            match_spec: None,
        }
    }

    pub fn match_spec(self, value: &str) -> (r: FocusTabCommand)
        ensures
            (r.match_spec matches Some(s2) && s2@ == value@) ,
    {
        FocusTabCommand { match_spec: Some(String::from_str(value)), ..self }
    }

    /// Builds the wire envelope this command denotes.
    #[verifier::loop_isolation(false)]
    pub fn build(self) -> (r: Result<KittyMessage, CommandError>)
        ensures
            (r matches Ok(m) && m@.cmd == "focus-tab"@ && m@.version == default_version()
                && m@.no_response is None && m@.kitty_window_id is None && m@.async_id is None
                && m@.cancel_async is None && m@.stream_id is None && m@.stream is None
                && m@.payload == Some(SpecJson::Obj(spec_focus_tab_command_entries(self)))),
    {
        let ghost orig = self;
        let FocusTabCommand { match_spec } = self;
        let mut entries: Vec<(String, JsonValue)> = Vec::new();
        proof {
            lemma_jv_entry_views_index(entries@);
        }
        let ghost mut ge: Seq<(Seq<char>, SpecJson)> = Seq::empty();
        assert(jv_entry_views(entries@) =~= ge);
        if let Some(x) = match_spec {
            proof {
                ge = ge.push(("match"@, SpecJson::Str(x@)));
            }
            push_entry(&mut entries, (String::from_str("match"), JsonValue::Str(x)));
        }
        assert(jv_entry_views(entries@) == ge);
        proof {
            assert(ge == spec_focus_tab_command_entries(orig));
        }
        let msg = KittyMessage::new(String::from_str("focus-tab"), default_version_vec());
        Ok(msg.payload(JsonValue::Obj(entries)))
    }
}

pub struct SetTabTitleCommand {
    pub title: String,
    pub match_spec: Option<String>,
}

/// The payload members `set-tab-title` sends, in order.
pub open spec fn spec_set_tab_title_command_entries(c: SetTabTitleCommand) -> Seq<(Seq<char>, SpecJson)> {
    let e = Seq::<(Seq<char>, SpecJson)>::empty();
    let e = e.push(("title"@, SpecJson::Str(c.title@)));
    let e = (if c.match_spec is Some { e.push(("match"@, SpecJson::Str(c.match_spec->0@))) } else { e });
    e
}

impl SetTabTitleCommand {
    pub fn new(title: &str) -> (r: SetTabTitleCommand)
        ensures
            r.title@ == title@,
            r.match_spec is None,
    {
        SetTabTitleCommand {
            title: String::from_str(title),
            match_spec: None,
        }
    }

    pub fn match_spec(self, value: &str) -> (r: SetTabTitleCommand)
        ensures
            (r.match_spec matches Some(s2) && s2@ == value@) && r.title == self.title,
    {
        SetTabTitleCommand { match_spec: Some(String::from_str(value)), ..self }
    }

    /// Builds the wire envelope this command denotes.
    #[verifier::loop_isolation(false)]
    pub fn build(self) -> (r: Result<KittyMessage, CommandError>)
        ensures
            self.title@.len() == 0 ==> (r matches Err(e) && (e matches CommandError::MissingParameter(p, cc) && p@ == "title"@ && cc@ == "set-tab-title"@)),
            self.title@.len() > 0 ==> (r matches Ok(m) && m@.cmd == "set-tab-title"@ && m@.version == default_version()
                && m@.no_response is None && m@.kitty_window_id is None && m@.async_id is None
                && m@.cancel_async is None && m@.stream_id is None && m@.stream is None
                && m@.payload == Some(SpecJson::Obj(spec_set_tab_title_command_entries(self)))),
    {
        let ghost orig = self;
        if self.title.as_str().is_empty() {
            return Err(CommandError::MissingParameter(String::from_str("title"), String::from_str("set-tab-title")));
        }
        let SetTabTitleCommand { title, match_spec } = self;
        let mut entries: Vec<(String, JsonValue)> = Vec::new();
        proof {
            lemma_jv_entry_views_index(entries@);
        }
        let ghost mut ge: Seq<(Seq<char>, SpecJson)> = Seq::empty();
        assert(jv_entry_views(entries@) =~= ge);
        proof {
            ge = ge.push(("title"@, SpecJson::Str(title@)));
        }
        push_entry(&mut entries, (String::from_str("title"), JsonValue::Str(title)));
        assert(jv_entry_views(entries@) == ge);
        if let Some(x) = match_spec {
            proof {
                ge = ge.push(("match"@, SpecJson::Str(x@)));
            }
            push_entry(&mut entries, (String::from_str("match"), JsonValue::Str(x)));
        }
        assert(jv_entry_views(entries@) == ge);
        proof {
            assert(ge == spec_set_tab_title_command_entries(orig));
        }
        let msg = KittyMessage::new(String::from_str("set-tab-title"), default_version_vec());
        Ok(msg.payload(JsonValue::Obj(entries)))
    }
}

pub struct CloseTabCommand {
    pub match_spec: Option<String>,
    pub self_tab: bool,
    pub ignore_no_match: bool,
}

/// The payload members `close-tab` sends, in order.
pub open spec fn spec_close_tab_command_entries(c: CloseTabCommand) -> Seq<(Seq<char>, SpecJson)> {
    let e = Seq::<(Seq<char>, SpecJson)>::empty();
    let e = (if c.match_spec is Some { e.push(("match"@, SpecJson::Str(c.match_spec->0@))) } else { e });
    let e = (if c.self_tab { e.push(("self"@, SpecJson::Bool(true))) } else { e });
    let e = (if c.ignore_no_match { e.push(("ignore_no_match"@, SpecJson::Bool(true))) } else { e });
    e
}

impl CloseTabCommand {
    pub fn new() -> (r: CloseTabCommand)
        ensures
            r.match_spec is None,
            r.self_tab == false,
            r.ignore_no_match == false,
    {
        CloseTabCommand {
            match_spec: None,
            self_tab: false,
            ignore_no_match: false,
        }
    }

    pub fn match_spec(self, value: &str) -> (r: CloseTabCommand)
        ensures
            (r.match_spec matches Some(s2) && s2@ == value@) && r.self_tab == self.self_tab && r.ignore_no_match == self.ignore_no_match,
    {
        CloseTabCommand { match_spec: Some(String::from_str(value)), ..self }
    }

    pub fn self_tab(self, value: bool) -> (r: CloseTabCommand)
        ensures
            r.self_tab == value && r.match_spec == self.match_spec && r.ignore_no_match == self.ignore_no_match,
    {
        CloseTabCommand { self_tab: value, ..self }
    }

    pub fn ignore_no_match(self, value: bool) -> (r: CloseTabCommand)
        ensures
            r.ignore_no_match == value && r.match_spec == self.match_spec && r.self_tab == self.self_tab,
    {
        CloseTabCommand { ignore_no_match: value, ..self }
    }

    /// Builds the wire envelope this command denotes.
    #[verifier::loop_isolation(false)]
    pub fn build(self) -> (r: Result<KittyMessage, CommandError>)
        ensures
            (r matches Ok(m) && m@.cmd == "close-tab"@ && m@.version == default_version()
                && m@.no_response is None && m@.kitty_window_id is None && m@.async_id is None
                && m@.cancel_async is None && m@.stream_id is None && m@.stream is None
                && m@.payload == Some(SpecJson::Obj(spec_close_tab_command_entries(self)))),
    {
        let ghost orig = self;
        let CloseTabCommand { match_spec, self_tab, ignore_no_match } = self;
        let mut entries: Vec<(String, JsonValue)> = Vec::new();
        proof {
            lemma_jv_entry_views_index(entries@);
        }
        let ghost mut ge: Seq<(Seq<char>, SpecJson)> = Seq::empty();
        assert(jv_entry_views(entries@) =~= ge);
        if let Some(x) = match_spec {
            proof {
                ge = ge.push(("match"@, SpecJson::Str(x@)));
            }
            push_entry(&mut entries, (String::from_str("match"), JsonValue::Str(x)));
        }
        assert(jv_entry_views(entries@) == ge);
        if self_tab {
            proof {
                ge = ge.push(("self"@, SpecJson::Bool(true)));
            }
            push_entry(&mut entries, (String::from_str("self"), JsonValue::Bool(true)));
        }
        assert(jv_entry_views(entries@) == ge);
        if ignore_no_match {
            proof {
                ge = ge.push(("ignore_no_match"@, SpecJson::Bool(true)));
            }
            push_entry(&mut entries, (String::from_str("ignore_no_match"), JsonValue::Bool(true)));
        }
        assert(jv_entry_views(entries@) == ge);
        proof {
            assert(ge == spec_close_tab_command_entries(orig));
        }
        let msg = KittyMessage::new(String::from_str("close-tab"), default_version_vec());
        Ok(msg.payload(JsonValue::Obj(entries)))
    }
}

pub struct DetachTabCommand {
    pub match_spec: Option<String>,
    pub target_tab: Option<String>,
    pub self_tab: bool,
}

/// The payload members `detach-tab` sends, in order.
pub open spec fn spec_detach_tab_command_entries(c: DetachTabCommand) -> Seq<(Seq<char>, SpecJson)> {
    let e = Seq::<(Seq<char>, SpecJson)>::empty();
    let e = (if c.match_spec is Some { e.push(("match"@, SpecJson::Str(c.match_spec->0@))) } else { e });
    let e = (if c.target_tab is Some { e.push(("target_tab"@, SpecJson::Str(c.target_tab->0@))) } else { e });
    let e = (if c.self_tab { e.push(("self"@, SpecJson::Bool(true))) } else { e });
    e
}

impl DetachTabCommand {
    pub fn new() -> (r: DetachTabCommand)
        ensures
            r.match_spec is None,
            r.target_tab is None,
            r.self_tab == false,
    {
        DetachTabCommand {
            match_spec: None,
            target_tab: None,
            self_tab: false,
        }
    }

    pub fn match_spec(self, value: &str) -> (r: DetachTabCommand)
        ensures
            (r.match_spec matches Some(s2) && s2@ == value@) && r.target_tab == self.target_tab && r.self_tab == self.self_tab,
    {
        DetachTabCommand { match_spec: Some(String::from_str(value)), ..self }
    }

    pub fn target_tab(self, value: &str) -> (r: DetachTabCommand)
        ensures
            (r.target_tab matches Some(s2) && s2@ == value@) && r.match_spec == self.match_spec && r.self_tab == self.self_tab,
    {
        DetachTabCommand { target_tab: Some(String::from_str(value)), ..self }
    }

    pub fn self_tab(self, value: bool) -> (r: DetachTabCommand)
        ensures
            r.self_tab == value && r.match_spec == self.match_spec && r.target_tab == self.target_tab,
    {
        DetachTabCommand { self_tab: value, ..self }
    }

    /// Builds the wire envelope this command denotes.
    #[verifier::loop_isolation(false)]
    pub fn build(self) -> (r: Result<KittyMessage, CommandError>)
        ensures
            (r matches Ok(m) && m@.cmd == "detach-tab"@ && m@.version == default_version()
                && m@.no_response is None && m@.kitty_window_id is None && m@.async_id is None
                && m@.cancel_async is None && m@.stream_id is None && m@.stream is None
                && m@.payload == Some(SpecJson::Obj(spec_detach_tab_command_entries(self)))),
    {
        let ghost orig = self;
        let DetachTabCommand { match_spec, target_tab, self_tab } = self;
        let mut entries: Vec<(String, JsonValue)> = Vec::new();
        proof {
            lemma_jv_entry_views_index(entries@);
        }
        let ghost mut ge: Seq<(Seq<char>, SpecJson)> = Seq::empty();
        assert(jv_entry_views(entries@) =~= ge);
        if let Some(x) = match_spec {
            proof {
                ge = ge.push(("match"@, SpecJson::Str(x@)));
            }
            push_entry(&mut entries, (String::from_str("match"), JsonValue::Str(x)));
        }
        assert(jv_entry_views(entries@) == ge);
        if let Some(x) = target_tab {
            proof {
                ge = ge.push(("target_tab"@, SpecJson::Str(x@)));
            }
            push_entry(&mut entries, (String::from_str("target_tab"), JsonValue::Str(x)));
        }
        assert(jv_entry_views(entries@) == ge);
        if self_tab {
            proof {
                ge = ge.push(("self"@, SpecJson::Bool(true)));
            }
            push_entry(&mut entries, (String::from_str("self"), JsonValue::Bool(true)));
        }
        assert(jv_entry_views(entries@) == ge);
        proof {
            assert(ge == spec_detach_tab_command_entries(orig));
        }
        let msg = KittyMessage::new(String::from_str("detach-tab"), default_version_vec());
        Ok(msg.payload(JsonValue::Obj(entries)))
    }
}

} // verus!
