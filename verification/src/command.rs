//! The generic command builder: assembles one envelope from a command
//! name, a protocol version and optional fields, and shared helpers for
//! the per-command builders.
use crate::json::JsonValue;
use crate::json::SpecJson;
use crate::json::jv_view;
use crate::json::jv_views;
use crate::json::jv_entry_views;
use crate::json::lemma_jv_views_push;
use crate::json::lemma_jv_views_index;
use crate::json::lemma_jv_entry_views_push;
use crate::protocol::KittyMessage;
use crate::protocol::SpecMessage;
use vstd::prelude::*;
use vstd::string::StringExecFns;

verus! {

/// The protocol version this client claims to speak.
pub open spec fn default_version() -> Seq<u32> {
    seq![0u32, 43u32, 1u32]
}

/// The protocol version this client claims to speak.
pub fn default_version_vec() -> (r: Vec<u32>)
    ensures
        r@ == default_version(),
{
    let mut v: Vec<u32> = Vec::new();
    v.push(0);
    v.push(43);
    v.push(1);
    proof {
        assert(v@ =~= default_version());
    }
    v
}

/// The member a present optional string field contributes.
pub open spec fn opt_str_entry(key: Seq<char>, v: Option<String>) -> Seq<(Seq<char>, SpecJson)> {
    match v {
        Some(s) => seq![(key, SpecJson::Str(s@))],
        None => Seq::empty(),
    }
}

/// The member a set flag contributes.
pub open spec fn flag_entry(key: Seq<char>, b: bool) -> Seq<(Seq<char>, SpecJson)> {
    if b {
        seq![(key, SpecJson::Bool(true))]
    } else {
        Seq::empty()
    }
}

/// The member a present optional integer field contributes.
pub open spec fn opt_int_entry(key: Seq<char>, v: Option<i32>) -> Seq<(Seq<char>, SpecJson)> {
    match v {
        Some(x) => seq![(key, SpecJson::Int(x as i64))],
        None => Seq::empty(),
    }
}

/// A list of strings as JSON values.
pub open spec fn strs_json(v: Seq<String>) -> Seq<SpecJson> {
    Seq::new(v.len(), |i: int| SpecJson::Str(v[i]@))
}

/// A list of integers as JSON values.
pub open spec fn ints_json(v: Seq<i32>) -> Seq<SpecJson> {
    Seq::new(v.len(), |i: int| SpecJson::Int(v[i] as i64))
}

/// Converts a list of strings into JSON values.
pub fn strs_to_json(v: Vec<String>) -> (r: Vec<JsonValue>)
    ensures
        jv_views(r@) == strs_json(v@),
{
    let mut out: Vec<JsonValue> = Vec::new();
    proof {
        lemma_jv_views_index(out@);
        assert(jv_views(out@) =~= strs_json(v@).take(0));
    }
    let mut i: usize = 0;
    while i < v.len()
        invariant
            i <= v@.len(),
            jv_views(out@) == strs_json(v@).take(i as int),
        decreases v@.len() - i,
    {
        let e = JsonValue::Str(v[i].clone());
        proof {
            lemma_jv_views_push(out@, e);
        }
        out.push(e);
        i = i + 1;
        assert(jv_views(out@) =~= strs_json(v@).take(i as int));
    }
    proof {
        assert(strs_json(v@).take(v@.len() as int) =~= strs_json(v@));
    }
    out
}

/// Converts a list of integers into JSON values.
pub fn ints_to_json(v: Vec<i32>) -> (r: Vec<JsonValue>)
    ensures
        jv_views(r@) == ints_json(v@),
{
    let mut out: Vec<JsonValue> = Vec::new();
    proof {
        lemma_jv_views_index(out@);
        assert(jv_views(out@) =~= ints_json(v@).take(0));
    }
    let mut i: usize = 0;
    while i < v.len()
        invariant
            i <= v@.len(),
            jv_views(out@) == ints_json(v@).take(i as int),
        decreases v@.len() - i,
    {
        let e = JsonValue::Int(v[i] as i64);
        proof {
            lemma_jv_views_push(out@, e);
        }
        out.push(e);
        i = i + 1;
        assert(jv_views(out@) =~= ints_json(v@).take(i as int));
    }
    proof {
        assert(ints_json(v@).take(v@.len() as int) =~= ints_json(v@));
    }
    out
}

/// Appends one payload member.
pub fn push_entry(entries: &mut Vec<(String, JsonValue)>, e: (String, JsonValue))
    ensures
        jv_entry_views(final(entries)@) == jv_entry_views(old(entries)@).push(
            (e.0@, jv_view(e.1)),
        ),
{
    proof {
        lemma_jv_entry_views_push(entries@, e);
    }
    entries.push(e);
}

/// Assembles one envelope from explicit parts: a command name, a version,
/// and the optional fields, each set at most once before `build`.
pub struct CommandBuilder {
    pub cmd: String,
    pub version: Vec<u32>,
    pub no_response: Option<bool>,
    pub kitty_window_id: Option<String>,
    pub payload: Option<JsonValue>,
}

impl CommandBuilder {
    /// A builder for the named command at the default protocol version.
    pub fn new(cmd: &str) -> (r: CommandBuilder)
        ensures
            r.cmd@ == cmd@,
            r.version@ == default_version(),
            r.no_response is None,
            r.kitty_window_id is None,
            r.payload is None,
    {
        CommandBuilder {
            cmd: String::from_str(cmd),
            version: default_version_vec(),
            no_response: None,
            kitty_window_id: None,
            payload: None,
        }
    }

    pub fn version(self, version: Vec<u32>) -> (r: CommandBuilder)
        ensures
            r.version == version && r.cmd == self.cmd && r.no_response == self.no_response
                && r.kitty_window_id == self.kitty_window_id && r.payload == self.payload,
    {
        CommandBuilder { version, ..self }
    }

    pub fn no_response(self, value: bool) -> (r: CommandBuilder)
        ensures
            r.no_response == Some(value) && r.cmd == self.cmd && r.version == self.version
                && r.kitty_window_id == self.kitty_window_id && r.payload == self.payload,
    {
        CommandBuilder { no_response: Some(value), ..self }
    }

    pub fn kitty_window_id(self, id: &str) -> (r: CommandBuilder)
        ensures
            (r.kitty_window_id matches Some(s) && s@ == id@) && r.cmd == self.cmd && r.version
                == self.version && r.no_response == self.no_response && r.payload == self.payload,
    {
        CommandBuilder { kitty_window_id: Some(String::from_str(id)), ..self }
    }

    pub fn payload(self, payload: JsonValue) -> (r: CommandBuilder)
        ensures
            r.payload == Some(payload) && r.cmd == self.cmd && r.version == self.version
                && r.no_response == self.no_response && r.kitty_window_id == self.kitty_window_id,
    {
        CommandBuilder { payload: Some(payload), ..self }
    }

    /// The envelope these parts denote.
    pub fn build(self) -> (r: KittyMessage)
        ensures
            r@ == (SpecMessage {
                cmd: self.cmd@,
                version: self.version@,
                no_response: self.no_response,
                kitty_window_id: crate::protocol::view_opt_string(self.kitty_window_id),
                payload: crate::protocol::view_opt_json(self.payload),
                async_id: None,
                cancel_async: None,
                stream_id: None,
                stream: None,
            }),
    {
        KittyMessage {
            cmd: self.cmd,
            version: self.version,
            no_response: self.no_response,
            kitty_window_id: self.kitty_window_id,
            payload: self.payload,
            async_id: None,
            cancel_async: None,
            stream_id: None,
            stream: None,
        }
    }
}

} // verus!
