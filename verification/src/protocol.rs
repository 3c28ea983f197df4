//! The wire protocol: command envelopes, their escape-sequence framing
//! around a JSON body, reply envelopes, and payload chunking.
use crate::error::ProtocolError;
use crate::json::JsonValue;
use crate::json::SpecJson;
use crate::json::jv_view;
use crate::json::jv_views;
use crate::json::jv_entry_views;
use crate::json::lemma_jv_views_index;
use crate::json::lemma_jv_entry_views_index;
use crate::json::lemma_jv_views_push;
use crate::json::lemma_jv_entry_views_push;
use vstd::prelude::*;
use vstd::string::StringExecFns;
use vstd::string::StrSliceExecFns;
use vstd::string::StringSliceAdditionalSpecFns;

verus! {

/// Largest number of UTF-8 bytes a single in-band payload string may carry.
pub const MAX_CHUNK_SIZE: usize = 4096;

/// Mathematical model of a command envelope.
#[verifier::ext_equal]
pub struct SpecMessage {
    pub cmd: Seq<char>,
    pub version: Seq<u32>,
    pub no_response: Option<bool>,
    pub kitty_window_id: Option<Seq<char>>,
    pub payload: Option<SpecJson>,
    pub async_id: Option<Seq<char>>,
    pub cancel_async: Option<bool>,
    pub stream_id: Option<Seq<char>>,
    pub stream: Option<bool>,
}

/// One remote-control request: a command name, the protocol version the
/// client speaks, and the optional fields of the wire format.
#[derive(Debug)]
pub struct KittyMessage {
    pub cmd: String,
    pub version: Vec<u32>,
    pub no_response: Option<bool>,
    pub kitty_window_id: Option<String>,
    pub payload: Option<JsonValue>,
    pub async_id: Option<String>,
    pub cancel_async: Option<bool>,
    pub stream_id: Option<String>,
    pub stream: Option<bool>,
}

pub open spec fn view_opt_string(o: Option<String>) -> Option<Seq<char>> {
    match o {
        Option::None => Option::None,
        Option::Some(s) => Option::Some(s@),
    }
}

pub open spec fn view_opt_json(o: Option<JsonValue>) -> Option<SpecJson> {
    match o {
        Option::None => Option::None,
        Option::Some(v) => Option::Some(jv_view(v)),
    }
}

impl View for KittyMessage {
    type V = SpecMessage;

    open spec fn view(&self) -> SpecMessage {
        SpecMessage {
            cmd: self.cmd@,
            version: self.version@,
            no_response: self.no_response,
            kitty_window_id: view_opt_string(self.kitty_window_id),
            payload: view_opt_json(self.payload),
            async_id: view_opt_string(self.async_id),
            cancel_async: self.cancel_async,
            stream_id: view_opt_string(self.stream_id),
            stream: self.stream,
        }
    }
}

impl KittyMessage {
    /// A new envelope with the given command and version and no options.
    pub fn new(cmd: String, version: Vec<u32>) -> (r: KittyMessage)
        ensures
            r@ == (SpecMessage {
                cmd: cmd@,
                version: version@,
                no_response: None,
                kitty_window_id: None,
                payload: None,
                async_id: None,
                cancel_async: None,
                stream_id: None,
                stream: None,
            }),
    {
        KittyMessage {
            cmd,
            version,
            no_response: None,
            kitty_window_id: None,
            payload: None,
            async_id: None,
            cancel_async: None,
            stream_id: None,
            stream: None,
        }
    }

    pub fn no_response(self, value: bool) -> (r: KittyMessage)
        ensures
            r@ == (SpecMessage { no_response: Some(value), ..self@ }),
    {
        KittyMessage { no_response: Some(value), ..self }
    }

    pub fn kitty_window_id(self, id: String) -> (r: KittyMessage)
        ensures
            r@ == (SpecMessage { kitty_window_id: Some(id@), ..self@ }),
    {
        KittyMessage { kitty_window_id: Some(id), ..self }
    }

    pub fn payload(self, payload: JsonValue) -> (r: KittyMessage)
        ensures
            r@ == (SpecMessage { payload: Some(payload@), ..self@ }),
    {
        KittyMessage { payload: Some(payload), ..self }
    }

    pub fn async_id(self, id: String) -> (r: KittyMessage)
        ensures
            r@ == (SpecMessage { async_id: Some(id@), ..self@ }),
    {
        KittyMessage { async_id: Some(id), ..self }
    }

    pub fn cancel_async(self, value: bool) -> (r: KittyMessage)
        ensures
            r@ == (SpecMessage { cancel_async: Some(value), ..self@ }),
    {
        KittyMessage { cancel_async: Some(value), ..self }
    }

    pub fn stream_id(self, id: String) -> (r: KittyMessage)
        ensures
            r@ == (SpecMessage { stream_id: Some(id@), ..self@ }),
    {
        KittyMessage { stream_id: Some(id), ..self }
    }

    pub fn stream(self, value: bool) -> (r: KittyMessage)
        ensures
            r@ == (SpecMessage { stream: Some(value), ..self@ }),
    {
        KittyMessage { stream: Some(value), ..self }
    }
}

// ---------------------------------------------------------------------------
// The JSON body of an envelope.
// ---------------------------------------------------------------------------
/// The protocol version field as JSON numbers.
pub open spec fn spec_version_items(v: Seq<u32>) -> Seq<SpecJson> {
    Seq::new(v.len(), |i: int| SpecJson::Int(v[i] as i64))
}

/// The members of the JSON body, in canonical order; absent options are
/// omitted entirely.
pub open spec fn spec_msg_entries(m: SpecMessage) -> Seq<(Seq<char>, SpecJson)> {
    let e = seq![
        ("cmd"@, SpecJson::Str(m.cmd)),
        ("version"@, SpecJson::Arr(spec_version_items(m.version))),
    ];
    let e = if m.no_response is Some {
        e.push(("no_response"@, SpecJson::Bool(m.no_response->0)))
    } else {
        e
    };
    let e = if m.kitty_window_id is Some {
        e.push(("kitty_window_id"@, SpecJson::Str(m.kitty_window_id->0)))
    } else {
        e
    };
    let e = if m.payload is Some {
        e.push(("payload"@, m.payload->0))
    } else {
        e
    };
    let e = if m.async_id is Some {
        e.push(("async_id"@, SpecJson::Str(m.async_id->0)))
    } else {
        e
    };
    let e = if m.cancel_async is Some {
        e.push(("cancel_async"@, SpecJson::Bool(m.cancel_async->0)))
    } else {
        e
    };
    let e = if m.stream_id is Some {
        e.push(("stream_id"@, SpecJson::Str(m.stream_id->0)))
    } else {
        e
    };
    let e = if m.stream is Some {
        e.push(("stream"@, SpecJson::Bool(m.stream->0)))
    } else {
        e
    };
    e
}

/// The JSON body of an envelope.
pub open spec fn spec_msg_json(m: SpecMessage) -> SpecJson {
    SpecJson::Obj(spec_msg_entries(m))
}

pub open spec fn spec_prefix() -> Seq<char> {
    "\u{1b}P@kitty-cmd"@
}

pub open spec fn spec_suffix() -> Seq<char> {
    "\u{1b}\\"@
}

/// The full wire text of an envelope: prefix, JSON body, suffix.
pub open spec fn spec_encode_msg(m: SpecMessage) -> Seq<char> {
    spec_prefix() + crate::json::spec_ser(spec_msg_json(m)) + spec_suffix()
}

impl KittyMessage {
    /// The JSON body of this envelope as a value.
    #[verifier::rlimit(100)]
    pub fn to_json(&self) -> (r: JsonValue)
        ensures
            r@ == spec_msg_json(self@),
    {
        let mut version_items: Vec<JsonValue> = Vec::new();
        let mut i: usize = 0;
        while i < self.version.len()
            invariant
                i <= self.version@.len(),
                jv_views(version_items@) =~= spec_version_items(self.version@).take(i as int),
            decreases self.version@.len() - i,
        {
            proof {
                lemma_jv_views_push(version_items@, JsonValue::Int(self.version@[i as int] as i64));
            }
            version_items.push(JsonValue::Int(self.version[i] as i64));
            i = i + 1;
            assert(jv_views(version_items@) =~= spec_version_items(self.version@).take(i as int));
        }
        proof {
            assert(spec_version_items(self.version@).take(self.version@.len() as int)
                =~= spec_version_items(self.version@));
        }
        let ghost m = self@;
        let mut entries: Vec<(String, JsonValue)> = Vec::new();
        proof {
            lemma_jv_entry_views_index(entries@);
        }
        let ce = (String::from_str("cmd"), JsonValue::Str(self.cmd.clone()));
        proof {
            lemma_jv_entry_views_push(entries@, ce);
        }
        entries.push(ce);
        let ve = (String::from_str("version"), JsonValue::Arr(version_items));
        proof {
            lemma_jv_entry_views_push(entries@, ve);
        }
        entries.push(ve);
        let ghost mut ge: Seq<(Seq<char>, SpecJson)> = seq![
            ("cmd"@, SpecJson::Str(m.cmd)),
            ("version"@, SpecJson::Arr(spec_version_items(m.version))),
        ];
        assert(jv_entry_views(entries@) =~= ge);
        if let Some(b) = self.no_response {
            let e = (String::from_str("no_response"), JsonValue::Bool(b));
            proof {
                lemma_jv_entry_views_push(entries@, e);
                ge = ge.push(("no_response"@, SpecJson::Bool(b)));
            }
            entries.push(e);
            assert(jv_entry_views(entries@) =~= ge);
        }
        if let Some(sx) = &self.kitty_window_id {
            let e = (String::from_str("kitty_window_id"), JsonValue::Str(sx.clone()));
            proof {
                lemma_jv_entry_views_push(entries@, e);
                ge = ge.push(("kitty_window_id"@, SpecJson::Str(sx@)));
            }
            entries.push(e);
            assert(jv_entry_views(entries@) =~= ge);
        }
        if let Some(p) = &self.payload {
            let e = (String::from_str("payload"), p.clone());
            proof {
                lemma_jv_entry_views_push(entries@, e);
                ge = ge.push(("payload"@, jv_view(*p)));
            }
            entries.push(e);
            assert(jv_entry_views(entries@) =~= ge);
        }
        if let Some(sx) = &self.async_id {
            let e = (String::from_str("async_id"), JsonValue::Str(sx.clone()));
            proof {
                lemma_jv_entry_views_push(entries@, e);
                ge = ge.push(("async_id"@, SpecJson::Str(sx@)));
            }
            entries.push(e);
            assert(jv_entry_views(entries@) =~= ge);
        }
        if let Some(b) = self.cancel_async {
            let e = (String::from_str("cancel_async"), JsonValue::Bool(b));
            proof {
                lemma_jv_entry_views_push(entries@, e);
                ge = ge.push(("cancel_async"@, SpecJson::Bool(b)));
            }
            entries.push(e);
            assert(jv_entry_views(entries@) =~= ge);
        }
        if let Some(sx) = &self.stream_id {
            let e = (String::from_str("stream_id"), JsonValue::Str(sx.clone()));
            proof {
                lemma_jv_entry_views_push(entries@, e);
                ge = ge.push(("stream_id"@, SpecJson::Str(sx@)));
            }
            entries.push(e);
            assert(jv_entry_views(entries@) =~= ge);
        }
        if let Some(b) = self.stream {
            let e = (String::from_str("stream"), JsonValue::Bool(b));
            proof {
                lemma_jv_entry_views_push(entries@, e);
                ge = ge.push(("stream"@, SpecJson::Bool(b)));
            }
            entries.push(e);
            assert(jv_entry_views(entries@) =~= ge);
        }
        assert(ge == spec_msg_entries(m));
        JsonValue::Obj(entries)
    }

    /// Serializes this envelope to its wire bytes: the fixed prefix, the
    /// compact JSON body, the fixed suffix.  Encoding always succeeds.
    pub fn encode(&self) -> (r: Result<Vec<u8>, ProtocolError>)
        ensures
            r matches Ok(b) ==> b@ == vstd::utf8::encode_utf8(spec_encode_msg(self@)),
            r is Ok,
    {
        let j = self.to_json();
        let body = j.to_text();
        let mut s = String::from_str("\u{1b}P@kitty-cmd");
        s.append(body.as_str());
        s.append("\u{1b}\\");
        assert(s@ == spec_encode_msg(self@));
        Ok(s.as_str().as_bytes_vec())
    }
}

// ---------------------------------------------------------------------------
// Stream identifiers for chunked payloads.
// ---------------------------------------------------------------------------
/// Lowercase hex digits of `n` (`n >= 0`), most significant first.
pub open spec fn spec_hex_digits(n: int) -> Seq<char>
    recommends
        n >= 0,
    decreases n,
{
    if n < 16 {
        seq![crate::json::spec_hex_digit(n)]
    } else {
        spec_hex_digits(n / 16).push(crate::json::spec_hex_digit(n % 16))
    }
}

/// Hands out stream identifiers for chunked sends: a monotonic counter,
/// rendered in hex.  Callers keep one generator per process or inject a
/// deterministic one in tests.
pub struct StreamIdGen {
    pub counter: u32,
}

impl StreamIdGen {
    pub fn new() -> (r: StreamIdGen)
        ensures
            r.counter == 1,
    {
        StreamIdGen { counter: 1 }
    }

    /// The next identifier: the hex text of the counter, which then
    /// advances (wrapping at its type bound).
    pub fn next_id(&mut self) -> (r: String)
        ensures
            r@ == spec_hex_digits(old(self).counter as int),
            final(self).counter == old(self).counter.wrapping_add(1),
    {
        let id = hex_u32(self.counter);
        self.counter = self.counter.wrapping_add(1);
        id
    }
}

fn hex_u32(n: u32) -> (r: String)
    ensures
        r@ == spec_hex_digits(n as int),
{
    let mut out = String::new();
    hex_digits_into(n, &mut out);
    out
}

fn hex_digits_into(n: u32, out: &mut String)
    ensures
        final(out)@ == old(out)@ + spec_hex_digits(n as int),
    decreases n,
{
    if n >= 16 {
        hex_digits_into(n / 16, out);
    }
    let d = crate::json::hex_digit_char((n % 16) as u8);
    crate::json::string_push_char(out, d);
    assert(final(out)@ == old(out)@ + spec_hex_digits(n as int));
}


// ---------------------------------------------------------------------------
// Decoding: framing, then JSON, then the envelope shape.
// ---------------------------------------------------------------------------
/// First-match lookup of a key among object members.  A repeated key is
/// tolerated and deliberately resolved to its first binding, in both the
/// envelope and the reply decoders.
pub open spec fn spec_obj_get(o: Seq<(Seq<char>, SpecJson)>, key: Seq<char>) -> Option<SpecJson>
    decreases o,
{
    if o.len() == 0 {
        None
    } else if o[0].0 == key {
        Some(o[0].1)
    } else {
        spec_obj_get(o.drop_first(), key)
    }
}

pub broadcast proof fn lemma_obj_get_push(
    o: Seq<(Seq<char>, SpecJson)>,
    e: (Seq<char>, SpecJson),
    key: Seq<char>,
)
    ensures
        #[trigger] spec_obj_get(o.push(e), key) == if spec_obj_get(o, key) is Some {
            spec_obj_get(o, key)
        } else if e.0 == key {
            Some(e.1)
        } else {
            None::<SpecJson>
        },
    decreases o,
{
    if o.len() == 0 {
        assert(o.push(e)[0] == e);
        assert(o.push(e).drop_first() =~= Seq::<(Seq<char>, SpecJson)>::empty());
        assert(spec_obj_get(Seq::<(Seq<char>, SpecJson)>::empty(), key) is None);
    } else {
        assert(o.push(e)[0] == o[0]);
        assert(o.push(e).drop_first() =~= o.drop_first().push(e));
        lemma_obj_get_push(o.drop_first(), e, key);
        if o[0].0 == key {
            assert(spec_obj_get(o.push(e), key) == Some(o[0].1));
            assert(spec_obj_get(o, key) == Some(o[0].1));
        } else {
            assert(spec_obj_get(o.push(e), key) == spec_obj_get(o.drop_first().push(e), key));
            assert(spec_obj_get(o, key) == spec_obj_get(o.drop_first(), key));
        }
    }
}

/// The first value bound to `key`, if any.
fn obj_get<'a>(o: &'a Vec<(String, JsonValue)>, key: &String) -> (r: Option<&'a JsonValue>)
    ensures
        r matches Some(v) ==> spec_obj_get(jv_entry_views(o@), key@) == Some(jv_view(*v)),
        r is None ==> spec_obj_get(jv_entry_views(o@), key@) is None,
{
    proof {
        lemma_jv_entry_views_index(o@);
    }
    let ghost ev = jv_entry_views(o@);
    proof {
        assert(ev.skip(0) =~= ev);
    }
    let mut i: usize = 0;
    while i < o.len()
        invariant
            i <= o@.len(),
            ev == jv_entry_views(o@),
            ev.len() == o@.len(),
            forall|k: int| 0 <= k < o@.len() ==> ev[k] == (o@[k].0@, jv_view(o@[k].1)),
            spec_obj_get(ev.skip(i as int), key@) == spec_obj_get(ev, key@),
        decreases o@.len() - i,
    {
        proof {
            assert(ev.skip(i as int)[0] == ev[i as int]);
            assert(ev.skip(i as int).drop_first() =~= ev.skip(i as int + 1));
        }
        if o[i].0 == *key {
            return Some(&o[i].1);
        }
        i = i + 1;
    }
    proof {
        assert(ev.skip(ev.len() as int) =~= Seq::<(Seq<char>, SpecJson)>::empty());
    }
    None
}

/// The version field decoded from JSON numbers: every element must be an
/// integer that fits the version type.
pub open spec fn spec_version_of_items(items: Seq<SpecJson>) -> Option<Seq<u32>> {
    if forall|i: int|
        0 <= i < items.len() ==> items[i] is Int && 0 <= #[trigger] items[i]->Int_0
            < 0x100000000 {
        Some(Seq::new(items.len(), |i: int| items[i]->Int_0 as u32))
    } else {
        None
    }
}

/// The envelope a decoded JSON body denotes, if it has the right shape:
/// `cmd` a string, `version` an array of version numbers, each option of
/// the right type where present; unknown members are ignored.
pub open spec fn spec_msg_of_json(j: SpecJson) -> Option<SpecMessage> {
    if !(j is Obj) {
        None
    } else {
        let o = j->Obj_0;
        let cmd = spec_obj_get(o, "cmd"@);
        let ver = spec_obj_get(o, "version"@);
        let no_response = spec_obj_get(o, "no_response"@);
        let kitty_window_id = spec_obj_get(o, "kitty_window_id"@);
        let payload = spec_obj_get(o, "payload"@);
        let async_id = spec_obj_get(o, "async_id"@);
        let cancel_async = spec_obj_get(o, "cancel_async"@);
        let stream_id = spec_obj_get(o, "stream_id"@);
        let stream = spec_obj_get(o, "stream"@);
        if !(cmd matches Some(SpecJson::Str(_))) {
            None
        } else if !(ver matches Some(SpecJson::Arr(a)) && spec_version_of_items(a) is Some) {
            None
        } else if !spec_opt_bool_ok(no_response) || !spec_opt_bool_ok(cancel_async)
            || !spec_opt_bool_ok(stream) {
            None
        } else if !spec_opt_str_ok(kitty_window_id) || !spec_opt_str_ok(async_id)
            || !spec_opt_str_ok(stream_id) {
            None
        } else {
            Some(
                SpecMessage {
                    cmd: cmd->0->Str_0,
                    version: spec_version_of_items(ver->0->Arr_0)->0,
                    no_response: spec_opt_bool(no_response),
                    kitty_window_id: spec_opt_str(kitty_window_id),
                    payload,
                    async_id: spec_opt_str(async_id),
                    cancel_async: spec_opt_bool(cancel_async),
                    stream_id: spec_opt_str(stream_id),
                    stream: spec_opt_bool(stream),
                },
            )
        }
    }
}

pub open spec fn spec_opt_bool_ok(v: Option<SpecJson>) -> bool {
    v is None || v->0 is Bool
}

pub open spec fn spec_opt_bool(v: Option<SpecJson>) -> Option<bool> {
    match v {
        Some(SpecJson::Bool(b)) => Some(b),
        _ => None,
    }
}

pub open spec fn spec_opt_str_ok(v: Option<SpecJson>) -> bool {
    v is None || v->0 is Str
}

pub open spec fn spec_opt_str(v: Option<SpecJson>) -> Option<Seq<char>> {
    match v {
        Some(SpecJson::Str(t)) => Some(t),
        _ => None,
    }
}

/// Reads the version field out of its JSON array.
fn version_of_items(items: &Vec<JsonValue>) -> (r: Result<Vec<u32>, ()>)
    ensures
        r matches Ok(v) ==> spec_version_of_items(jv_views(items@)) == Some(v@),
        r is Err ==> spec_version_of_items(jv_views(items@)) is None,
{
    proof {
        lemma_jv_views_index(items@);
    }
    let ghost iv = jv_views(items@);
    let mut out: Vec<u32> = Vec::new();
    let mut i: usize = 0;
    while i < items.len()
        invariant
            i <= items@.len(),
            iv == jv_views(items@),
            iv.len() == items@.len(),
            forall|k: int| 0 <= k < items@.len() ==> iv[k] == jv_view(items@[k]),
            out@.len() == i,
            forall|k: int|
                0 <= k < i ==> iv[k] is Int && 0 <= #[trigger] iv[k]->Int_0 < 0x100000000,
            forall|k: int| 0 <= k < i ==> out@[k] == iv[k]->Int_0 as u32,
        decreases items@.len() - i,
    {
        match &items[i] {
            JsonValue::Int(x) => {
                if *x < 0 || *x >= 0x100000000i64 {
                    proof {
                        assert(iv[i as int] == jv_view(items@[i as int]));
                        assert(!(0 <= iv[i as int]->Int_0 < 0x100000000));
                        assert(spec_version_of_items(iv) is None);
                    }
                    return Err(());
                }
                out.push(*x as u32);
            },
            _ => {
                proof {
                    assert(iv[i as int] == jv_view(items@[i as int]));
                    assert(!(iv[i as int] is Int));
                    assert(spec_version_of_items(iv) is None);
                }
                return Err(());
            },
        }
        i = i + 1;
    }
    proof {
        assert(forall|k: int|
            0 <= k < iv.len() ==> iv[k] is Int && 0 <= #[trigger] iv[k]->Int_0 < 0x100000000);
        assert(Seq::new(iv.len(), |k: int| iv[k]->Int_0 as u32) =~= out@);
        assert(spec_version_of_items(iv) == Some(out@));
    }
    Ok(out)
}

/// The envelope denoted by a decoded JSON body, or an error if the body
/// does not have the envelope shape.
fn msg_from_json(v: &JsonValue) -> (r: Result<KittyMessage, ()>)
    ensures
        r matches Ok(msg) ==> spec_msg_of_json(jv_view(*v)) == Some(msg@),
        r is Err ==> spec_msg_of_json(jv_view(*v)) is None,
{
    let entries = match v {
        JsonValue::Obj(entries) => entries,
        _ => {
            return Err(());
        },
    };
    let cmd = match obj_get(entries, &String::from_str("cmd")) {
        Some(JsonValue::Str(c)) => c.clone(),
        _ => {
            return Err(());
        },
    };
    let version = match obj_get(entries, &String::from_str("version")) {
        Some(JsonValue::Arr(items)) => {
            match version_of_items(items) {
                Ok(ver) => ver,
                Err(()) => {
                    return Err(());
                },
            }
        },
        _ => {
            return Err(());
        },
    };
    let no_response = match obj_get(entries, &String::from_str("no_response")) {
        None => None,
        Some(JsonValue::Bool(b)) => Some(*b),
        _ => {
            return Err(());
        },
    };
    let kitty_window_id = match obj_get(entries, &String::from_str("kitty_window_id")) {
        None => None,
        Some(JsonValue::Str(sx)) => Some(sx.clone()),
        _ => {
            return Err(());
        },
    };
    let payload = match obj_get(entries, &String::from_str("payload")) {
        None => None,
        Some(p) => Some(p.clone()),
    };
    let async_id = match obj_get(entries, &String::from_str("async_id")) {
        None => None,
        Some(JsonValue::Str(sx)) => Some(sx.clone()),
        _ => {
            return Err(());
        },
    };
    let cancel_async = match obj_get(entries, &String::from_str("cancel_async")) {
        None => None,
        Some(JsonValue::Bool(b)) => Some(*b),
        _ => {
            return Err(());
        },
    };
    let stream_id = match obj_get(entries, &String::from_str("stream_id")) {
        None => None,
        Some(JsonValue::Str(sx)) => Some(sx.clone()),
        _ => {
            return Err(());
        },
    };
    let stream = match obj_get(entries, &String::from_str("stream")) {
        None => None,
        Some(JsonValue::Bool(b)) => Some(*b),
        _ => {
            return Err(());
        },
    };
    Ok(
        KittyMessage {
            cmd,
            version,
            no_response,
            kitty_window_id,
            payload,
            async_id,
            cancel_async,
            stream_id,
            stream,
        },
    )
}



/// How a decode attempt fails: bytes that are not text, text without the
/// framing, a body that is not JSON, a JSON body that is not an object,
/// or an object without the required shape.
pub enum DecodeFailure {
    Text,
    Framing,
    Structure,
    NotObject,
    Shape,
}

/// Whether the text has the exact prefix and suffix escape sequences.
pub open spec fn spec_framed(s: Seq<char>) -> bool {
    s.len() >= 14 && s.subrange(0, 12) == spec_prefix() && s.subrange(
        s.len() - 2,
        s.len() as int,
    ) == spec_suffix()
}

/// The JSON body between the framing markers.
pub open spec fn spec_body(s: Seq<char>) -> Seq<char> {
    s.subrange(12, s.len() - 2)
}

/// What decoding a command envelope from raw bytes yields.
pub open spec fn spec_msg_decode(bytes: Seq<u8>) -> Result<SpecMessage, DecodeFailure> {
    if !vstd::utf8::valid_utf8(bytes) {
        Err(DecodeFailure::Text)
    } else {
        let s = vstd::utf8::decode_utf8(bytes);
        if !spec_framed(s) {
            Err(DecodeFailure::Framing)
        } else {
            match crate::json::spec_parse_doc(spec_body(s)) {
                None => Err(DecodeFailure::Structure),
                Some(j) => match spec_msg_of_json(j) {
                    None => Err(DecodeFailure::Shape),
                    Some(m) => Ok(m),
                },
            }
        }
    }
}

/// What decoding a reply envelope from raw bytes yields.
pub open spec fn spec_resp_decode(bytes: Seq<u8>) -> Result<SpecResponse, DecodeFailure> {
    if !vstd::utf8::valid_utf8(bytes) {
        Err(DecodeFailure::Text)
    } else {
        let s = vstd::utf8::decode_utf8(bytes);
        if !spec_framed(s) {
            Err(DecodeFailure::Framing)
        } else {
            match crate::json::spec_parse_doc(spec_body(s)) {
                None => Err(DecodeFailure::Structure),
                Some(j) => if !(j is Obj) {
                    Err(DecodeFailure::NotObject)
                } else {
                    match spec_resp_of_json(j) {
                        None => Err(DecodeFailure::Shape),
                        Some(r) => Ok(r),
                    }
                },
            }
        }
    }
}

/// Relies on `std::str::from_utf8`: succeeds exactly on valid UTF-8, and
/// the returned slice views the same bytes.
#[verifier::external_body]
fn bytes_to_str(v: &[u8]) -> (r: Option<&str>)
    ensures
        r matches Some(s) ==> s.spec_bytes() == v@,
        r is Some <==> vstd::utf8::valid_utf8(v@),
{
    std::str::from_utf8(v).ok()
}

/// Checks the framing markers and returns the body characters.
fn check_framing(chars: &Vec<char>) -> (r: Option<Vec<char>>)
    ensures
        r matches Some(b) ==> spec_framed(chars@) && b@ == spec_body(chars@),
        r is None ==> !spec_framed(chars@),
{
    proof {
        reveal_strlit("\u{1b}P@kitty-cmd");
        reveal_strlit("\u{1b}\\");
    }
    let n = chars.len();
    if n < 14 {
        return None;
    }
    let ok_prefix = chars[0] == '\u{1b}' && chars[1] == 'P' && chars[2] == '@' && chars[3] == 'k'
        && chars[4] == 'i' && chars[5] == 't' && chars[6] == 't' && chars[7] == 'y' && chars[8]
        == '-' && chars[9] == 'c' && chars[10] == 'm' && chars[11] == 'd';
    if !ok_prefix {
        proof {
            assert(forall|m: int|
                0 <= m < 12 ==> chars@.subrange(0, 12)[m] == chars@[m]);
            assert(chars@.subrange(0, 12) != spec_prefix());
        }
        return None;
    }
    let ok_suffix = chars[n - 2] == '\u{1b}' && chars[n - 1] == '\\';
    if !ok_suffix {
        proof {
            assert(chars@.subrange(n - 2, n as int)[0] == chars@[n - 2]);
            assert(chars@.subrange(n - 2, n as int)[1] == chars@[n - 1]);
            assert(chars@.subrange(n - 2, n as int) != spec_suffix());
        }
        return None;
    }
    proof {
        assert(chars@.subrange(0, 12) =~= spec_prefix());
        assert(chars@.subrange(n - 2, n as int) =~= spec_suffix());
    }
    let mut body: Vec<char> = Vec::new();
    let mut i: usize = 12;
    while i < n - 2
        invariant
            12 <= i <= n - 2,
            n == chars@.len(),
            14 <= n,
            body@ == chars@.subrange(12, i as int),
        decreases n - i,
    {
        body.push(chars[i]);
        i = i + 1;
        assert(body@ =~= chars@.subrange(12, i as int));
    }
    Some(body)
}

impl KittyMessage {
    /// Decodes a framed command envelope from raw bytes.  Fails with a
    /// format error on bytes that are not text, with a framing error when
    /// the escape markers are missing, and with a JSON error when the body
    /// is not JSON or lacks the envelope shape.
    pub fn decode(data: &[u8]) -> (r: Result<KittyMessage, ProtocolError>)
        ensures
            r matches Ok(msg) ==> spec_msg_decode(data@) == Ok::<SpecMessage, DecodeFailure>(
                msg@,
            ),
            r matches Err(e) ==> spec_msg_decode(data@) is Err && match spec_msg_decode(
                data@,
            )->Err_0 {
                DecodeFailure::Text => e is InvalidMessageFormat,
                DecodeFailure::Framing => e is InvalidEscapeSequence,
                _ => e is JsonError,
            },
    {
        broadcast use vstd::utf8::encode_utf8_decode_utf8;

        let s = match bytes_to_str(data) {
            Some(s) => s,
            None => {
                return Err(
                    ProtocolError::InvalidMessageFormat(
                        String::from_str("input is not valid UTF-8"),
                    ),
                );
            },
        };
        let chars = crate::json::str_chars(s);
        assert(chars@ == vstd::utf8::decode_utf8(data@));
        let body = match check_framing(&chars) {
            Some(b) => b,
            None => {
                return Err(ProtocolError::InvalidEscapeSequence);
            },
        };
        let j = match JsonValue::parse_document(&body) {
            Some(j) => j,
            None => {
                return Err(
                    ProtocolError::JsonError(String::from_str("body is not valid JSON")),
                );
            },
        };
        match msg_from_json(&j) {
            Ok(msg) => Ok(msg),
            Err(()) => Err(
                ProtocolError::JsonError(
                    String::from_str("body does not have the command envelope shape"),
                ),
            ),
        }
    }
}

// ---------------------------------------------------------------------------
// Reply envelopes.
// ---------------------------------------------------------------------------
/// Mathematical model of a reply envelope.
pub struct SpecResponse {
    pub ok: bool,
    pub data: Option<SpecJson>,
    pub error: Option<Seq<char>>,
}

/// One remote-control reply: a success flag, an optional result value, and
/// an optional error message.
#[derive(Debug)]
pub struct KittyResponse {
    pub ok: bool,
    pub data: Option<JsonValue>,
    pub error: Option<String>,
}

impl View for KittyResponse {
    type V = SpecResponse;

    open spec fn view(&self) -> SpecResponse {
        SpecResponse {
            ok: self.ok,
            data: view_opt_json(self.data),
            error: view_opt_string(self.error),
        }
    }
}

/// The reply a decoded JSON object denotes, if it has the right shape:
/// `ok` a required flag; `data` any value, with `null` meaning absent;
/// `error` a string, with `null` meaning absent.
pub open spec fn spec_resp_of_json(j: SpecJson) -> Option<SpecResponse> {
    if !(j is Obj) {
        None
    } else {
        let o = j->Obj_0;
        let ok = spec_obj_get(o, "ok"@);
        let data = spec_obj_get(o, "data"@);
        let error = spec_obj_get(o, "error"@);
        if !(ok matches Some(SpecJson::Bool(_))) {
            None
        } else if !(error is None || error->0 is Str || error->0 is Null) {
            None
        } else {
            Some(
                SpecResponse {
                    ok: ok->0->Bool_0,
                    data: match data {
                        Some(SpecJson::Null) => None,
                        d => d,
                    },
                    error: spec_opt_str(error),
                },
            )
        }
    }
}

impl KittyResponse {
    /// Decodes a framed reply envelope from raw bytes.  Fails with an
    /// envelope error on bytes that are not text, on missing framing and
    /// on a body that is not a JSON object, and with a JSON error when the
    /// body is not JSON or lacks the reply shape.
    pub fn decode(data: &[u8]) -> (r: Result<KittyResponse, ProtocolError>)
        ensures
            r matches Ok(resp) ==> spec_resp_decode(data@) == Ok::<SpecResponse, DecodeFailure>(
                resp@,
            ),
            r matches Err(e) ==> spec_resp_decode(data@) is Err && match spec_resp_decode(
                data@,
            )->Err_0 {
                DecodeFailure::Text => e is EnvelopeParseError,
                DecodeFailure::Framing => e is EnvelopeParseError,
                DecodeFailure::NotObject => e is EnvelopeParseError,
                _ => e is JsonError,
            },
    {
        broadcast use vstd::utf8::encode_utf8_decode_utf8;

        let s = match bytes_to_str(data) {
            Some(s) => s,
            None => {
                return Err(
                    ProtocolError::EnvelopeParseError(
                        String::from_str("input is not valid UTF-8"),
                    ),
                );
            },
        };
        let chars = crate::json::str_chars(s);
        assert(chars@ == vstd::utf8::decode_utf8(data@));
        let body = match check_framing(&chars) {
            Some(b) => b,
            None => {
                return Err(
                    ProtocolError::EnvelopeParseError(
                        String::from_str("Invalid response prefix or suffix"),
                    ),
                );
            },
        };
        let j = match JsonValue::parse_document(&body) {
            Some(j) => j,
            None => {
                return Err(
                    ProtocolError::JsonError(String::from_str("body is not valid JSON")),
                );
            },
        };
        match &j {
            JsonValue::Obj(_) => {},
            _ => {
                return Err(
                    ProtocolError::EnvelopeParseError(
                        String::from_str("Response is not a JSON object"),
                    ),
                );
            },
        }
        match resp_from_json(&j) {
            Ok(resp) => Ok(resp),
            Err(()) => Err(
                ProtocolError::JsonError(
                    String::from_str("body does not have the reply envelope shape"),
                ),
            ),
        }
    }
}

/// The reply denoted by a decoded JSON object, or an error if it does not
/// have the reply shape.
fn resp_from_json(v: &JsonValue) -> (r: Result<KittyResponse, ()>)
    ensures
        r matches Ok(resp) ==> spec_resp_of_json(jv_view(*v)) == Some(resp@),
        r is Err ==> spec_resp_of_json(jv_view(*v)) is None,
{
    let entries = match v {
        JsonValue::Obj(entries) => entries,
        _ => {
            return Err(());
        },
    };
    let ok = match obj_get(entries, &String::from_str("ok")) {
        Some(JsonValue::Bool(b)) => *b,
        _ => {
            return Err(());
        },
    };
    let data = match obj_get(entries, &String::from_str("data")) {
        None => None,
        Some(JsonValue::Null) => None,
        Some(d) => Some(d.clone()),
    };
    let error = match obj_get(entries, &String::from_str("error")) {
        None => None,
        Some(JsonValue::Null) => None,
        Some(JsonValue::Str(sx)) => Some(sx.clone()),
        _ => {
            return Err(());
        },
    };
    Ok(KittyResponse { ok, data, error })
}



// ---------------------------------------------------------------------------
// Chunking oversized payload strings.
// ---------------------------------------------------------------------------
/// The UTF-8 byte length of a character sequence: the in-band size limit
/// is wire-imposed and counts bytes, not characters.
pub open spec fn spec_str_bytes(s: Seq<char>) -> int {
    vstd::utf8::encode_utf8(s).len() as int
}

/// The UTF-8 byte length of one character.
pub open spec fn spec_char_bytes(c: char) -> int {
    vstd::utf8::encode_scalar(c as u32).len() as int
}

/// Whether one payload member is a string above the in-band byte limit.
pub open spec fn spec_oversized(e: (Seq<char>, SpecJson)) -> bool {
    e.1 is Str && spec_str_bytes(e.1->Str_0) > 4096
}

/// Whether an envelope must be split before sending: some string-valued
/// payload member exceeds the in-band byte limit.
pub open spec fn spec_needs_streaming(m: SpecMessage) -> bool {
    m.payload matches Some(SpecJson::Obj(o)) && exists|i: int|
        0 <= i < o.len() && spec_oversized(#[trigger] o[i])
}

/// Index of the first oversized member at or after `i`, or the length.
pub open spec fn spec_first_oversized(o: Seq<(Seq<char>, SpecJson)>, i: int) -> int
    decreases o.len() - i,
{
    if i < 0 || i >= o.len() {
        o.len() as int
    } else if spec_oversized(o[i]) {
        i
    } else {
        spec_first_oversized(o, i + 1)
    }
}

/// End of the slice starting at `i` with `budget` bytes left: characters
/// are taken greedily, and never split, while they fit.
pub open spec fn spec_slice_end_from(s: Seq<char>, i: int, budget: int) -> int
    decreases s.len() - i,
{
    if 0 <= i < s.len() && spec_char_bytes(s[i]) <= budget {
        spec_slice_end_from(s, i + 1, budget - spec_char_bytes(s[i]))
    } else {
        i
    }
}

/// End of the slice starting at `i`: as many whole characters as fit in
/// the byte limit.
pub open spec fn spec_slice_end(s: Seq<char>, i: int) -> int {
    spec_slice_end_from(s, i, 4096)
}

/// Start of the `k`-th slice.
pub open spec fn spec_slice_start(s: Seq<char>, k: int) -> int
    decreases k,
{
    if k <= 0 {
        0
    } else {
        spec_slice_end(s, spec_slice_start(s, k - 1))
    }
}

/// The `k`-th slice of the split string: whole characters, at most the
/// byte limit each.
pub open spec fn spec_slice(sdata: Seq<char>, k: int) -> Seq<char> {
    sdata.subrange(
        spec_slice_start(sdata, k),
        spec_slice_end(sdata, spec_slice_start(sdata, k)),
    )
}

/// How many content chunks the split of the tail starting at `i` yields.
pub open spec fn spec_chunk_count_from(s: Seq<char>, i: int) -> int
    decreases s.len() - i,
{
    if i < 0 || i >= s.len() {
        0
    } else {
        let e = spec_slice_end(s, i);
        if i < e <= s.len() {
            1 + spec_chunk_count_from(s, e)
        } else {
            1
        }
    }
}

/// How many content chunks the split produces.
pub open spec fn spec_chunk_count(s: Seq<char>) -> int {
    spec_chunk_count_from(s, 0)
}

/// The `k`-th content chunk: the slice as `data`, its index as
/// `chunk_num`, the shared stream id, and the stream flag.
pub open spec fn spec_content_chunk(
    m: SpecMessage,
    sid: Seq<char>,
    sdata: Seq<char>,
    k: int,
) -> SpecMessage {
    SpecMessage {
        payload: Some(
            SpecJson::Obj(
                seq![
                    ("data"@, SpecJson::Str(spec_slice(sdata, k))),
                    ("chunk_num"@, SpecJson::Int(k as i64)),
                ],
            ),
        ),
        stream_id: Some(sid),
        stream: Some(true),
        ..m
    }
}

/// The terminator chunk: an empty `data` field under the same stream id.
pub open spec fn spec_end_chunk(m: SpecMessage, sid: Seq<char>) -> SpecMessage {
    SpecMessage {
        payload: Some(SpecJson::Obj(seq![("data"@, SpecJson::Str(Seq::empty()))])),
        stream_id: Some(sid),
        stream: Some(true),
        ..m
    }
}

/// The chunk sequence for an envelope that needs streaming: one content
/// chunk per slice of the first oversized payload string, then one
/// terminator chunk, all sharing `sid`.
pub open spec fn spec_chunks(m: SpecMessage, sid: Seq<char>) -> Seq<SpecMessage> {
    let o = m.payload->0->Obj_0;
    let f = spec_first_oversized(o, 0);
    let sdata = o[f].1->Str_0;
    let n = spec_chunk_count(sdata);
    Seq::new(
        (n + 1) as nat,
        |k: int|
            if k < n {
                spec_content_chunk(m, sid, sdata, k)
            } else {
                spec_end_chunk(m, sid)
            },
    )
}

/// Byte lengths add character by character.
proof fn lemma_str_bytes_first(s: Seq<char>)
    requires
        s.len() > 0,
    ensures
        spec_str_bytes(s) == spec_char_bytes(s[0]) + spec_str_bytes(s.drop_first()),
{
}

proof fn lemma_char_bytes_range(c: char)
    ensures
        1 <= spec_char_bytes(c) <= 4,
{
}

/// What the greedy slice end guarantees: it stays in bounds, the slice
/// fits the budget, it is maximal, and with any reasonable budget it
/// makes progress.
proof fn lemma_slice_end_from(s: Seq<char>, i: int, budget: int)
    requires
        0 <= i <= s.len(),
        0 <= budget,
    ensures
        ({
            let e = spec_slice_end_from(s, i, budget);
            &&& i <= e <= s.len()
            &&& spec_str_bytes(s.subrange(i, e)) <= budget
            &&& (e < s.len() ==> spec_str_bytes(s.subrange(i, e)) + spec_char_bytes(s[e])
                > budget)
            &&& (i < s.len() && budget >= 4 ==> e > i)
        }),
    decreases s.len() - i,
{
    if 0 <= i < s.len() && spec_char_bytes(s[i]) <= budget {
        lemma_char_bytes_range(s[i]);
        lemma_slice_end_from(s, i + 1, budget - spec_char_bytes(s[i]));
        let e = spec_slice_end_from(s, i, budget);
        assert(s.subrange(i, e)[0] == s[i]);
        assert(s.subrange(i, e).drop_first() =~= s.subrange(i + 1, e));
        lemma_str_bytes_first(s.subrange(i, e));
    } else {
        assert(s.subrange(i, i) =~= Seq::<char>::empty());
        if i < s.len() {
            lemma_char_bytes_range(s[i]);
        }
    }
}

proof fn lemma_chunk_count_nonneg(s: Seq<char>, i: int)
    ensures
        spec_chunk_count_from(s, i) >= 0,
        0 <= i < s.len() ==> spec_chunk_count_from(s, i) >= 1,
    decreases s.len() - i,
{
    if 0 <= i < s.len() {
        let e = spec_slice_end(s, i);
        if i < e <= s.len() {
            lemma_chunk_count_nonneg(s, e);
        }
    }
}

/// Slice starts are in bounds, and each slice covers exactly up to the
/// next start; before the last chunk there is always text left.
proof fn lemma_slice_start_count(s: Seq<char>, k: int)
    requires
        0 <= k <= spec_chunk_count(s),
    ensures
        0 <= spec_slice_start(s, k) <= s.len(),
        spec_chunk_count_from(s, spec_slice_start(s, k)) == spec_chunk_count(s) - k,
        k < spec_chunk_count(s) ==> spec_slice_start(s, k) < s.len(),
        k == spec_chunk_count(s) ==> spec_slice_start(s, k) == s.len(),
    decreases k,
{
    lemma_chunk_count_nonneg(s, 0);
    if k == 0 {
        if spec_chunk_count(s) == 0 {
            assert(s.len() == 0);
        }
    } else {
        lemma_slice_start_count(s, k - 1);
        let p = spec_slice_start(s, k - 1);
        lemma_slice_end_from(s, p, 4096);
        let e = spec_slice_end(s, p);
        assert(spec_chunk_count_from(s, p) == 1 + spec_chunk_count_from(s, e));
        lemma_chunk_count_nonneg(s, e);
        if k < spec_chunk_count(s) {
            assert(spec_chunk_count_from(s, e) >= 1);
            assert(e < s.len()) by {
                if e >= s.len() {
                    assert(spec_chunk_count_from(s, e) == 0);
                }
            }
        }
        if k == spec_chunk_count(s) {
            assert(spec_chunk_count_from(s, e) == 0);
            assert(e >= s.len()) by {
                if e < s.len() {
                    assert(spec_chunk_count_from(s, e) >= 1);
                }
            }
        }
    }
}

/// The abstract values of a sequence of envelopes.
pub open spec fn msg_views(s: Seq<KittyMessage>) -> Seq<SpecMessage>
    decreases s,
{
    if s.len() == 0 {
        Seq::empty()
    } else {
        seq![s[0]@] + msg_views(s.drop_first())
    }
}

pub broadcast proof fn lemma_msg_views_index(s: Seq<KittyMessage>)
    ensures
        (#[trigger] msg_views(s)).len() == s.len(),
        forall|i: int| 0 <= i < s.len() ==> msg_views(s)[i] == s[i]@,
    decreases s,
{
    if s.len() > 0 {
        lemma_msg_views_index(s.drop_first());
        assert forall|i: int| 0 <= i < s.len() implies msg_views(s)[i] == s[i]@ by {
            if i > 0 {
                assert(s.drop_first()[i - 1] == s[i]);
            }
        }
    }
}

pub proof fn lemma_msg_views_push(s: Seq<KittyMessage>, x: KittyMessage)
    ensures
        msg_views(s.push(x)) == msg_views(s).push(x@),
{
    lemma_msg_views_index(s.push(x));
    lemma_msg_views_index(s);
    assert(msg_views(s.push(x)) =~= msg_views(s).push(x@));
}

fn clone_opt_string(o: &Option<String>) -> (r: Option<String>)
    ensures
        view_opt_string(r) == view_opt_string(*o),
{
    match o {
        None => None,
        Some(sx) => Some(sx.clone()),
    }
}

fn clone_u32_vec(v: &Vec<u32>) -> (r: Vec<u32>)
    ensures
        r@ == v@,
{
    let mut out: Vec<u32> = Vec::new();
    let mut i: usize = 0;
    while i < v.len()
        invariant
            i <= v@.len(),
            out@ == v@.take(i as int),
        decreases v@.len() - i,
    {
        out.push(v[i]);
        i = i + 1;
        assert(out@ =~= v@.take(i as int));
    }
    assert(v@.take(v@.len() as int) =~= v@);
    out
}

/// Finds the first oversized member of a payload object, if any.
fn find_first_oversized(o: &Vec<(String, JsonValue)>) -> (r: Option<usize>)
    ensures
        r matches Some(i) ==> i == spec_first_oversized(jv_entry_views(o@), 0) && i < o@.len()
            && spec_oversized(jv_entry_views(o@)[i as int]),
        r is None ==> forall|i: int|
            0 <= i < o@.len() ==> !spec_oversized(#[trigger] jv_entry_views(o@)[i]),
{
    proof {
        lemma_jv_entry_views_index(o@);
    }
    let ghost ev = jv_entry_views(o@);
    let mut i: usize = 0;
    while i < o.len()
        invariant
            i <= o@.len(),
            ev == jv_entry_views(o@),
            ev.len() == o@.len(),
            forall|k: int| 0 <= k < o@.len() ==> ev[k] == (o@[k].0@, jv_view(o@[k].1)),
            spec_first_oversized(ev, 0) == spec_first_oversized(ev, i as int),
            forall|k: int| 0 <= k < i ==> !spec_oversized(#[trigger] ev[k]),
        decreases o@.len() - i,
    {
        let big = match &o[i].1 {
            JsonValue::Str(sx) => {
                let scv = crate::json::str_chars(sx.as_str());
                let over = bytes_over_limit(&scv);
                proof {
                    assert(ev[i as int].1 == SpecJson::Str(sx@));
                    assert(over == spec_oversized(ev[i as int]));
                }
                over
            },
            _ => {
                proof {
                    assert(ev[i as int].1 == jv_view(o@[i as int].1));
                    assert(!(ev[i as int].1 is Str));
                }
                false
            },
        };
        if big {
            return Some(i);
        }
        i = i + 1;
    }
    None
}

/// Byte lengths add when one character is appended.
proof fn lemma_str_bytes_push(t: Seq<char>, c: char)
    ensures
        spec_str_bytes(t.push(c)) == spec_str_bytes(t) + spec_char_bytes(c),
    decreases t.len(),
{
    if t.len() == 0 {
        assert(t.push(c)[0] == c);
        assert(t.push(c).drop_first() =~= Seq::<char>::empty());
        lemma_str_bytes_first(t.push(c));
        assert(vstd::utf8::encode_utf8(Seq::<char>::empty()) =~= Seq::<u8>::empty());
        assert(t =~= Seq::<char>::empty());
    } else {
        assert(t.push(c)[0] == t[0]);
        assert(t.push(c).drop_first() =~= t.drop_first().push(c));
        lemma_str_bytes_first(t.push(c));
        lemma_str_bytes_first(t);
        lemma_str_bytes_push(t.drop_first(), c);
    }
}

/// A prefix never has more bytes than the whole.
proof fn lemma_str_bytes_mono(s: Seq<char>, j: int)
    requires
        0 <= j <= s.len(),
    ensures
        spec_str_bytes(s) >= spec_str_bytes(s.take(j)),
    decreases s.len() - j,
{
    if j < s.len() {
        assert(s.take(j + 1) =~= s.take(j).push(s[j]));
        lemma_str_bytes_push(s.take(j), s[j]);
        lemma_char_bytes_range(s[j]);
        lemma_str_bytes_mono(s, j + 1);
    } else {
        assert(s.take(j) =~= s);
    }
}

/// Whether the text exceeds the in-band byte limit; the walk stops as
/// soon as the limit is passed.
#[verifier::loop_isolation(false)]
fn bytes_over_limit(cv: &Vec<char>) -> (b: bool)
    ensures
        b == (spec_str_bytes(cv@) > 4096),
{
    proof {
        assert(vstd::utf8::encode_utf8(Seq::<char>::empty()) =~= Seq::<u8>::empty());
        assert(cv@.take(0) =~= Seq::<char>::empty());
    }
    let mut acc: usize = 0;
    let mut j: usize = 0;
    while j < cv.len() && acc <= 4096
        invariant
            j <= cv@.len(),
            acc as int == spec_str_bytes(cv@.take(j as int)),
            acc <= 4100,
        decreases cv@.len() - j,
    {
        proof {
            assert(cv@.take(j as int + 1) =~= cv@.take(j as int).push(cv@[j as int]));
            lemma_str_bytes_push(cv@.take(j as int), cv@[j as int]);
        }
        let w = char_len_utf8(cv[j]);
        acc = acc + w;
        j = j + 1;
    }
    proof {
        if acc > 4096 {
            lemma_str_bytes_mono(cv@, j as int);
        } else {
            assert(j == cv@.len());
            assert(cv@.take(j as int) =~= cv@);
        }
    }
    acc > 4096
}

/// The UTF-8 width of one character.
fn char_len_utf8(c: char) -> (n: usize)
    ensures
        n == spec_char_bytes(c),
        1 <= n <= 4,
{
    proof {
        vstd::utf8::char_is_scalar(c);
    }
    let u = c as u32;
    if u < 0x80 {
        1
    } else if u < 0x800 {
        2
    } else if u < 0x10000 {
        3
    } else {
        4
    }
}

/// End of the slice starting at `i`: whole characters, greedily, within
/// the byte limit.
#[verifier::loop_isolation(false)]
fn slice_end(cv: &Vec<char>, i: usize) -> (e: usize)
    requires
        i <= cv@.len(),
    ensures
        e == spec_slice_end(cv@, i as int),
        i <= e <= cv@.len(),
        i < cv@.len() ==> e > i,
{
    proof {
        lemma_slice_end_from(cv@, i as int, 4096);
    }
    let mut j = i;
    let mut budget: usize = 4096;
    while j < cv.len() && char_len_utf8(cv[j]) <= budget
        invariant
            i <= j <= cv@.len(),
            budget <= 4096,
            spec_slice_end_from(cv@, i as int, 4096) == spec_slice_end_from(
                cv@,
                j as int,
                budget as int,
            ),
        decreases cv@.len() - j,
    {
        let w = char_len_utf8(cv[j]);
        budget = budget - w;
        j = j + 1;
    }
    j
}

/// How many content chunks splitting the whole string yields.
#[verifier::loop_isolation(false)]
fn count_chunks(cv: &Vec<char>) -> (n: usize)
    ensures
        n == spec_chunk_count(cv@),
{
    let mut n: usize = 0;
    let mut i: usize = 0;
    while i < cv.len()
        invariant
            i <= cv@.len(),
            n <= i,
            spec_chunk_count(cv@) == n + spec_chunk_count_from(cv@, i as int),
        decreases cv@.len() - i,
    {
        let e = slice_end(cv, i);
        proof {
            assert(spec_chunk_count_from(cv@, i as int) == 1 + spec_chunk_count_from(
                cv@,
                e as int,
            ));
        }
        n = n + 1;
        i = e;
    }
    n
}

/// Copies a character range into a string.
fn chars_range_string(cv: &Vec<char>, from: usize, to: usize) -> (r: String)
    requires
        from <= to <= cv@.len(),
    ensures
        r@ == cv@.subrange(from as int, to as int),
{
    let mut out = String::new();
    let mut i = from;
    while i < to
        invariant
            from <= i <= to,
            to <= cv@.len(),
            out@ == cv@.subrange(from as int, i as int),
        decreases to - i,
    {
        crate::json::string_push_char(&mut out, cv[i]);
        i = i + 1;
        assert(out@ =~= cv@.subrange(from as int, i as int));
    }
    out
}

impl KittyMessage {
    /// Whether some string-valued payload member exceeds the in-band size
    /// limit, so that sending must split the envelope.
    pub fn needs_streaming(&self) -> (b: bool)
        ensures
            b == spec_needs_streaming(self@),
    {
        match &self.payload {
            Some(JsonValue::Obj(o)) => {
                match find_first_oversized(o) {
                    Some(i) => {
                        proof {
                            lemma_jv_entry_views_index(o@);
                            assert(self@.payload == Some(SpecJson::Obj(jv_entry_views(o@))));
                            let ev = jv_entry_views(o@);
                            assert(0 <= i && (i as int) < ev.len() && spec_oversized(
                                ev[i as int],
                            ));
                            assert(spec_oversized(self@.payload->0->Obj_0[i as int]));
                            assert(spec_needs_streaming(self@));
                        }
                        true
                    },
                    None => {
                        proof {
                            lemma_jv_entry_views_index(o@);
                            assert(self@.payload == Some(SpecJson::Obj(jv_entry_views(o@))));
                        }
                        false
                    },
                }
            },
            Some(other) => {
                proof {
                    assert(self@.payload == Some(jv_view(*other)));
                    assert(!(jv_view(*other) is Obj));
                }
                false
            },
            None => false,
        }
    }

    /// Splits this envelope for sending.  An envelope under the size limit
    /// passes through alone and unchanged.  Otherwise the first oversized
    /// payload string is cut into slices of at most the limit; each slice
    /// travels in its own sub-envelope under the given stream id with an
    /// increasing `chunk_num`, and one terminator with an empty `data`
    /// field follows.
    #[verifier::loop_isolation(false)]
    #[verifier::rlimit(100)]
    pub fn into_chunks(self, stream_id: &str) -> (r: Vec<KittyMessage>)
        ensures
            !spec_needs_streaming(self@) ==> r@.len() == 1 && r@[0]@ == self@,
            spec_needs_streaming(self@) ==> msg_views(r@) == spec_chunks(self@, stream_id@),
    {
        let ghost m = self@;
        if !self.needs_streaming() {
            let mut out: Vec<KittyMessage> = Vec::new();
            out.push(self);
            return out;
        }
        let entries = match &self.payload {
            Some(JsonValue::Obj(o)) => o,
            Some(other) => {
                proof {
                    assert(m.payload == Some(jv_view(*other)));
                    assert(!(jv_view(*other) is Obj));
                    assert(false);
                }
                return Vec::new();
            },
            None => {
                proof {
                    assert(false);
                }
                return Vec::new();
            },
        };
        let fi = match find_first_oversized(entries) {
            Some(fi) => fi,
            None => {
                proof {
                    lemma_jv_entry_views_index(entries@);
                    assert(m.payload == Some(SpecJson::Obj(jv_entry_views(entries@))));
                    assert(false);
                }
                return Vec::new();
            },
        };
        proof {
            lemma_jv_entry_views_index(entries@);
            assert(m.payload == Some(SpecJson::Obj(jv_entry_views(entries@))));
            assert(jv_view(entries@[fi as int].1) is Str);
        }
        let sdata = match &entries[fi].1 {
            JsonValue::Str(sx) => sx,
            _ => {
                proof {
                    assert(false);
                }
                return Vec::new();
            },
        };
        let ghost sd = sdata@;
        proof {
            lemma_jv_entry_views_index(entries@);
            assert(jv_entry_views(entries@)[fi as int].1 == jv_view(entries@[fi as int].1));
            assert(sd == m.payload->0->Obj_0[fi as int].1->Str_0);
        }
        let cv = crate::json::str_chars(sdata.as_str());
        let num = count_chunks(&cv);
        let ghost target = spec_chunks(m, stream_id@);
        let mut out: Vec<KittyMessage> = Vec::new();
        let mut k: usize = 0;
        let mut start: usize = 0;
        proof {
            lemma_msg_views_index(out@);
            assert(msg_views(out@) =~= target.take(0));
        }
        while k < num
            invariant
                k <= num,
                start as int == spec_slice_start(sd, k as int),
                spec_chunk_count_from(sd, start as int) == num - k,
                start <= cv@.len(),
                msg_views(out@) =~= target.take(k as int),
            decreases num - k,
        {
            assert(start < cv@.len()) by {
                assert(spec_chunk_count_from(sd, start as int) > 0);
            }
            let end: usize = slice_end(&cv, start);
            proof {
                assert(spec_chunk_count_from(sd, start as int) == 1 + spec_chunk_count_from(
                    sd,
                    end as int,
                ));
            }
            let slice = chars_range_string(&cv, start, end);
            assert(slice@ == spec_slice(sd, k as int));
            let mut payload_entries: Vec<(String, JsonValue)> = Vec::new();
            proof {
                lemma_jv_entry_views_index(payload_entries@);
            }
            let e1 = (String::from_str("data"), JsonValue::Str(slice));
            proof {
                lemma_jv_entry_views_push(payload_entries@, e1);
            }
            payload_entries.push(e1);
            let e2 = (String::from_str("chunk_num"), JsonValue::Int(k as i64));
            proof {
                lemma_jv_entry_views_push(payload_entries@, e2);
            }
            payload_entries.push(e2);
            let chunk = KittyMessage {
                cmd: self.cmd.clone(),
                version: clone_u32_vec(&self.version),
                no_response: self.no_response,
                kitty_window_id: clone_opt_string(&self.kitty_window_id),
                payload: Some(JsonValue::Obj(payload_entries)),
                async_id: clone_opt_string(&self.async_id),
                cancel_async: self.cancel_async,
                stream_id: Some(String::from_str(stream_id)),
                stream: Some(true),
            };
            proof {
                assert(chunk@.payload->0->Obj_0 =~= spec_content_chunk(
                    m,
                    stream_id@,
                    sd,
                    k as int,
                ).payload->0->Obj_0);
                assert(chunk@ =~= spec_content_chunk(m, stream_id@, sd, k as int));
                lemma_msg_views_push(out@, chunk);
            }
            out.push(chunk);
            k = k + 1;
            start = end;
            assert(start as int == spec_slice_start(sd, k as int));
            assert(msg_views(out@) =~= target.take(k as int));
        }
        let mut end_entries: Vec<(String, JsonValue)> = Vec::new();
        proof {
            lemma_jv_entry_views_index(end_entries@);
        }
        let e1 = (String::from_str("data"), JsonValue::Str(String::new()));
        proof {
            lemma_jv_entry_views_push(end_entries@, e1);
        }
        end_entries.push(e1);
        let end_chunk = KittyMessage {
            cmd: self.cmd.clone(),
            version: clone_u32_vec(&self.version),
            no_response: self.no_response,
            kitty_window_id: clone_opt_string(&self.kitty_window_id),
            payload: Some(JsonValue::Obj(end_entries)),
            async_id: clone_opt_string(&self.async_id),
            cancel_async: self.cancel_async,
            stream_id: Some(String::from_str(stream_id)),
            stream: Some(true),
        };
        proof {
            assert(end_chunk@.payload->0->Obj_0 =~= spec_end_chunk(
                m,
                stream_id@,
            ).payload->0->Obj_0);
            assert(end_chunk@ =~= spec_end_chunk(m, stream_id@));
            lemma_msg_views_push(out@, end_chunk);
        }
        out.push(end_chunk);
        proof {
            assert(msg_views(out@) =~= target);
        }
        out
    }
}



// ---------------------------------------------------------------------------
// Round trip: decoding an encoded envelope yields the envelope back.
// ---------------------------------------------------------------------------
/// Envelopes whose encoding the decoder is guaranteed to invert: any
/// payload must be a well-formed JSON value.
pub open spec fn spec_wf_message(m: SpecMessage) -> bool {
    match m.payload {
        Some(p) => crate::json::wf_json(p),
        None => true,
    }
}

proof fn lemma_wf_msg_json(m: SpecMessage)
    requires
        spec_wf_message(m),
    ensures
        crate::json::wf_json(spec_msg_json(m)),
{
    let items = spec_version_items(m.version);
    assert(forall|i: int| 0 <= i < items.len() ==> crate::json::wf_json(#[trigger] items[i]));
    crate::json::lemma_wf_json_seq_all(items);
    let base = seq![
        ("cmd"@, SpecJson::Str(m.cmd)),
        ("version"@, SpecJson::Arr(items)),
    ];
    assert(crate::json::wf_json_entries(base)) by {
        assert(base[0] == ("cmd"@, SpecJson::Str(m.cmd)));
        assert(crate::json::wf_json(SpecJson::Str(m.cmd)));
        assert(crate::json::wf_json(SpecJson::Arr(items)));
        let tail = base.drop_first();
        assert(tail =~= seq![("version"@, SpecJson::Arr(items))]);
        assert(tail[0] == ("version"@, SpecJson::Arr(items)));
        assert(tail.drop_first() =~= Seq::<(Seq<char>, SpecJson)>::empty());
        assert(crate::json::wf_json_entries(Seq::<(Seq<char>, SpecJson)>::empty()));
        assert(crate::json::wf_json_entries(tail));
    }
    let e1 = base;
    let e2 = if m.no_response is Some {
        let x = ("no_response"@, SpecJson::Bool(m.no_response->0));
        crate::json::lemma_wf_json_entries_push(e1, x);
        e1.push(x)
    } else {
        e1
    };
    let e3 = if m.kitty_window_id is Some {
        let x = ("kitty_window_id"@, SpecJson::Str(m.kitty_window_id->0));
        crate::json::lemma_wf_json_entries_push(e2, x);
        e2.push(x)
    } else {
        e2
    };
    let e4 = if m.payload is Some {
        let x = ("payload"@, m.payload->0);
        crate::json::lemma_wf_json_entries_push(e3, x);
        e3.push(x)
    } else {
        e3
    };
    let e5 = if m.async_id is Some {
        let x = ("async_id"@, SpecJson::Str(m.async_id->0));
        crate::json::lemma_wf_json_entries_push(e4, x);
        e4.push(x)
    } else {
        e4
    };
    let e6 = if m.cancel_async is Some {
        let x = ("cancel_async"@, SpecJson::Bool(m.cancel_async->0));
        crate::json::lemma_wf_json_entries_push(e5, x);
        e5.push(x)
    } else {
        e5
    };
    let e7 = if m.stream_id is Some {
        let x = ("stream_id"@, SpecJson::Str(m.stream_id->0));
        crate::json::lemma_wf_json_entries_push(e6, x);
        e6.push(x)
    } else {
        e6
    };
    let e8 = if m.stream is Some {
        let x = ("stream"@, SpecJson::Bool(m.stream->0));
        crate::json::lemma_wf_json_entries_push(e7, x);
        e7.push(x)
    } else {
        e7
    };
    assert(e8 == spec_msg_entries(m));
}

/// Reading an envelope's own JSON body back yields the same envelope.
#[verifier::rlimit(100)]
pub proof fn lemma_msg_shape_round_trip(m: SpecMessage)
    ensures
        spec_msg_of_json(spec_msg_json(m)) == Some(m),
{
    broadcast use lemma_obj_get_push;

    reveal_strlit("cmd");
    reveal_strlit("version");
    reveal_strlit("no_response");
    reveal_strlit("kitty_window_id");
    reveal_strlit("payload");
    reveal_strlit("async_id");
    reveal_strlit("cancel_async");
    reveal_strlit("stream_id");
    reveal_strlit("stream");
    assert("cmd"@.len() == 3 && "version"@.len() == 7 && "no_response"@.len() == 11
        && "kitty_window_id"@.len() == 15 && "payload"@.len() == 7 && "async_id"@.len() == 8
        && "cancel_async"@.len() == 12 && "stream_id"@.len() == 9 && "stream"@.len() == 6);
    assert("version"@ != "payload"@) by {
        assert("version"@[0] == 'v' && "payload"@[0] == 'p');
    }
    let items = spec_version_items(m.version);
    let base = seq![
        ("cmd"@, SpecJson::Str(m.cmd)),
        ("version"@, SpecJson::Arr(items)),
    ];
    assert forall|k: Seq<char>| true implies #[trigger] spec_obj_get(base, k) == (if k == "cmd"@ {
        Some(SpecJson::Str(m.cmd))
    } else if k == "version"@ {
        Some(SpecJson::Arr(items))
    } else {
        None::<SpecJson>
    }) by {
        assert(base[0] == ("cmd"@, SpecJson::Str(m.cmd)));
        let tail = base.drop_first();
        assert(tail =~= seq![("version"@, SpecJson::Arr(items))]);
        assert(spec_obj_get(tail, k) == (if k == "version"@ {
            Some(SpecJson::Arr(items))
        } else {
            None::<SpecJson>
        })) by {
            assert(tail[0] == ("version"@, SpecJson::Arr(items)));
            assert(tail.drop_first() =~= Seq::<(Seq<char>, SpecJson)>::empty());
            assert(spec_obj_get(Seq::<(Seq<char>, SpecJson)>::empty(), k) is None);
        }
    }
    let e1 = base;
    let e2 = if m.no_response is Some {
        e1.push(("no_response"@, SpecJson::Bool(m.no_response->0)))
    } else {
        e1
    };
    if m.no_response is Some {
        let x = ("no_response"@, SpecJson::Bool(m.no_response->0));
        assert forall|k: Seq<char>| true implies #[trigger] spec_obj_get(e2, k) == (if spec_obj_get(
            e1,
            k,
        ) is Some {
            spec_obj_get(e1, k)
        } else if k == "no_response"@ {
            Some(SpecJson::Bool(m.no_response->0))
        } else {
            None::<SpecJson>
        }) by {
            lemma_obj_get_push(e1, x, k);
        }
    }
    let e3 = if m.kitty_window_id is Some {
        e2.push(("kitty_window_id"@, SpecJson::Str(m.kitty_window_id->0)))
    } else {
        e2
    };
    if m.kitty_window_id is Some {
        let x = ("kitty_window_id"@, SpecJson::Str(m.kitty_window_id->0));
        assert forall|k: Seq<char>| true implies #[trigger] spec_obj_get(e3, k) == (if spec_obj_get(
            e2,
            k,
        ) is Some {
            spec_obj_get(e2, k)
        } else if k == "kitty_window_id"@ {
            Some(SpecJson::Str(m.kitty_window_id->0))
        } else {
            None::<SpecJson>
        }) by {
            lemma_obj_get_push(e2, x, k);
        }
    }
    let e4 = if m.payload is Some {
        e3.push(("payload"@, m.payload->0))
    } else {
        e3
    };
    if m.payload is Some {
        let x = ("payload"@, m.payload->0);
        assert forall|k: Seq<char>| true implies #[trigger] spec_obj_get(e4, k) == (if spec_obj_get(
            e3,
            k,
        ) is Some {
            spec_obj_get(e3, k)
        } else if k == "payload"@ {
            Some(m.payload->0)
        } else {
            None::<SpecJson>
        }) by {
            lemma_obj_get_push(e3, x, k);
        }
    }
    let e5 = if m.async_id is Some {
        e4.push(("async_id"@, SpecJson::Str(m.async_id->0)))
    } else {
        e4
    };
    if m.async_id is Some {
        let x = ("async_id"@, SpecJson::Str(m.async_id->0));
        assert forall|k: Seq<char>| true implies #[trigger] spec_obj_get(e5, k) == (if spec_obj_get(
            e4,
            k,
        ) is Some {
            spec_obj_get(e4, k)
        } else if k == "async_id"@ {
            Some(SpecJson::Str(m.async_id->0))
        } else {
            None::<SpecJson>
        }) by {
            lemma_obj_get_push(e4, x, k);
        }
    }
    let e6 = if m.cancel_async is Some {
        e5.push(("cancel_async"@, SpecJson::Bool(m.cancel_async->0)))
    } else {
        e5
    };
    if m.cancel_async is Some {
        let x = ("cancel_async"@, SpecJson::Bool(m.cancel_async->0));
        assert forall|k: Seq<char>| true implies #[trigger] spec_obj_get(e6, k) == (if spec_obj_get(
            e5,
            k,
        ) is Some {
            spec_obj_get(e5, k)
        } else if k == "cancel_async"@ {
            Some(SpecJson::Bool(m.cancel_async->0))
        } else {
            None::<SpecJson>
        }) by {
            lemma_obj_get_push(e5, x, k);
        }
    }
    let e7 = if m.stream_id is Some {
        e6.push(("stream_id"@, SpecJson::Str(m.stream_id->0)))
    } else {
        e6
    };
    if m.stream_id is Some {
        let x = ("stream_id"@, SpecJson::Str(m.stream_id->0));
        assert forall|k: Seq<char>| true implies #[trigger] spec_obj_get(e7, k) == (if spec_obj_get(
            e6,
            k,
        ) is Some {
            spec_obj_get(e6, k)
        } else if k == "stream_id"@ {
            Some(SpecJson::Str(m.stream_id->0))
        } else {
            None::<SpecJson>
        }) by {
            lemma_obj_get_push(e6, x, k);
        }
    }
    let e8 = if m.stream is Some {
        e7.push(("stream"@, SpecJson::Bool(m.stream->0)))
    } else {
        e7
    };
    if m.stream is Some {
        let x = ("stream"@, SpecJson::Bool(m.stream->0));
        assert forall|k: Seq<char>| true implies #[trigger] spec_obj_get(e8, k) == (if spec_obj_get(
            e7,
            k,
        ) is Some {
            spec_obj_get(e7, k)
        } else if k == "stream"@ {
            Some(SpecJson::Bool(m.stream->0))
        } else {
            None::<SpecJson>
        }) by {
            lemma_obj_get_push(e7, x, k);
        }
    }
    let o = spec_msg_entries(m);
    assert(o == e8);
    assert(spec_obj_get(e1, "cmd"@) == Some(SpecJson::Str(m.cmd)));
    assert(spec_obj_get(e2, "cmd"@) == Some(SpecJson::Str(m.cmd)));
    assert(spec_obj_get(e3, "cmd"@) == Some(SpecJson::Str(m.cmd)));
    assert(spec_obj_get(e4, "cmd"@) == Some(SpecJson::Str(m.cmd)));
    assert(spec_obj_get(e5, "cmd"@) == Some(SpecJson::Str(m.cmd)));
    assert(spec_obj_get(e6, "cmd"@) == Some(SpecJson::Str(m.cmd)));
    assert(spec_obj_get(e7, "cmd"@) == Some(SpecJson::Str(m.cmd)));
    assert(spec_obj_get(e8, "cmd"@) == Some(SpecJson::Str(m.cmd)));
    assert(spec_obj_get(e1, "version"@) == Some(SpecJson::Arr(items)));
    assert(spec_obj_get(e2, "version"@) == Some(SpecJson::Arr(items)));
    assert(spec_obj_get(e3, "version"@) == Some(SpecJson::Arr(items)));
    assert(spec_obj_get(e4, "version"@) == Some(SpecJson::Arr(items)));
    assert(spec_obj_get(e5, "version"@) == Some(SpecJson::Arr(items)));
    assert(spec_obj_get(e6, "version"@) == Some(SpecJson::Arr(items)));
    assert(spec_obj_get(e7, "version"@) == Some(SpecJson::Arr(items)));
    assert(spec_obj_get(e8, "version"@) == Some(SpecJson::Arr(items)));
    assert(spec_obj_get(o, "cmd"@) == Some(SpecJson::Str(m.cmd)));
    assert(spec_obj_get(o, "version"@) == Some(SpecJson::Arr(items)));
    assert(spec_obj_get(o, "no_response"@) == match m.no_response {
        Some(b) => Some(SpecJson::Bool(b)),
        None => None::<SpecJson>,
    });
    assert(spec_obj_get(o, "kitty_window_id"@) == match m.kitty_window_id {
        Some(t) => Some(SpecJson::Str(t)),
        None => None::<SpecJson>,
    });
    assert(spec_obj_get(o, "payload"@) == m.payload);
    assert(spec_obj_get(o, "async_id"@) == match m.async_id {
        Some(t) => Some(SpecJson::Str(t)),
        None => None::<SpecJson>,
    });
    assert(spec_obj_get(o, "cancel_async"@) == match m.cancel_async {
        Some(b) => Some(SpecJson::Bool(b)),
        None => None::<SpecJson>,
    });
    assert(spec_obj_get(o, "stream_id"@) == match m.stream_id {
        Some(t) => Some(SpecJson::Str(t)),
        None => None::<SpecJson>,
    });
    assert(spec_obj_get(o, "stream"@) == match m.stream {
        Some(b) => Some(SpecJson::Bool(b)),
        None => None::<SpecJson>,
    });
    assert(spec_version_of_items(items) == Some(m.version)) by {
        assert(forall|i: int|
            0 <= i < items.len() ==> items[i] is Int && 0 <= #[trigger] items[i]->Int_0
                < 0x100000000);
        assert(Seq::new(items.len(), |i: int| items[i]->Int_0 as u32) =~= m.version);
    }
    assert(spec_msg_of_json(spec_msg_json(m))->0 =~= m);
}

/// Round trip: for any well-formed envelope, decoding the encoded wire
/// bytes yields every field of the envelope back exactly.
pub proof fn lemma_encode_decode_round_trip(m: SpecMessage)
    requires
        spec_wf_message(m),
    ensures
        spec_msg_decode(vstd::utf8::encode_utf8(spec_encode_msg(m))) == Ok::<
            SpecMessage,
            DecodeFailure,
        >(m),
{
    broadcast use vstd::utf8::encode_utf8_decode_utf8, vstd::utf8::encode_utf8_valid_utf8;

    let s = spec_encode_msg(m);
    let body = crate::json::spec_ser(spec_msg_json(m));
    assert(vstd::utf8::decode_utf8(vstd::utf8::encode_utf8(s)) == s);
    reveal_strlit("\u{1b}P@kitty-cmd");
    reveal_strlit("\u{1b}\\");
    assert(spec_prefix().len() == 12);
    assert(spec_suffix().len() == 2);
    assert(s.len() == 14 + body.len());
    assert(s.subrange(0, 12) =~= spec_prefix());
    assert(s.subrange(s.len() - 2, s.len() as int) =~= spec_suffix());
    assert(spec_framed(s));
    assert(spec_body(s) =~= body);
    lemma_wf_msg_json(m);
    crate::json::lemma_parse_ser_doc(spec_msg_json(m));
    lemma_msg_shape_round_trip(m);
}



/// The terminator never occurs inside an encoded envelope: for a
/// well-formed envelope the escape-backslash byte pair stands exactly
/// once, as the final two bytes of the wire frame.  Every control
/// character of a string value is escaped, and the other serialized
/// tokens are printable, so the escape byte cannot arise in the body.
pub proof fn lemma_terminator_only_at_end(m: SpecMessage)
    requires
        spec_wf_message(m),
    ensures
        ({
            let bytes = vstd::utf8::encode_utf8(spec_encode_msg(m));
            &&& bytes.len() >= 14
            &&& bytes[bytes.len() - 2] == 0x1b
            &&& bytes[bytes.len() - 1] == 0x5c
            &&& forall|i: int|
                0 <= i < bytes.len() - 2 ==> !((#[trigger] bytes[i]) == 0x1b && bytes[i + 1]
                    == 0x5c)
        }),
{
    reveal_strlit("\u{1b}P@kitty-cmd");
    reveal_strlit("\u{1b}\\");
    let body = crate::json::spec_ser(spec_msg_json(m));
    lemma_wf_msg_json(m);
    crate::json::lemma_ser_no_controls(spec_msg_json(m));
    crate::json::lemma_encode_utf8_concat(spec_prefix() + body, spec_suffix());
    crate::json::lemma_encode_utf8_concat(spec_prefix(), body);
    let pb = vstd::utf8::encode_utf8(spec_prefix());
    let bb = vstd::utf8::encode_utf8(body);
    let sb = vstd::utf8::encode_utf8(spec_suffix());
    assert(vstd::utf8::is_ascii_chars(spec_prefix())) by {
        assert forall|i: int| 0 <= i < spec_prefix().len() implies '\0' <= #[trigger] spec_prefix()[i]
            <= '\u{7f}' by {
            assert(spec_prefix().len() == 12);
        }
    }
    assert(vstd::utf8::is_ascii_chars(spec_suffix())) by {
        assert forall|i: int| 0 <= i < spec_suffix().len() implies '\0' <= #[trigger] spec_suffix()[i]
            <= '\u{7f}' by {
            assert(spec_suffix().len() == 2);
        }
    }
    vstd::utf8::is_ascii_chars_encode_utf8(spec_prefix());
    vstd::utf8::is_ascii_chars_encode_utf8(spec_suffix());
    crate::json::lemma_no_esc_byte(body);
    let bytes = vstd::utf8::encode_utf8(spec_encode_msg(m));
    assert(bytes =~= pb + bb + sb);
    assert(pb.len() == 12 && sb.len() == 2);
    assert(sb[0] == 0x1b && sb[1] == 0x5c) by {
        assert(spec_suffix()[0] == '\u{1b}' && spec_suffix()[1] == '\\');
    }
    assert(bytes[bytes.len() - 2] == sb[0] && bytes[bytes.len() - 1] == sb[1]);
    assert forall|i: int|
        0 <= i < bytes.len() - 2 implies !((#[trigger] bytes[i]) == 0x1b && bytes[i + 1]
        == 0x5c) by {
        if i < 12 {
            assert(bytes[i] == pb[i] && pb[i] == spec_prefix()[i] as u8);
            if i == 0 {
                assert(bytes[1] == spec_prefix()[1] as u8 && spec_prefix()[1] == 'P');
                assert('P' as u8 == 0x50);
            } else {
                assert(spec_prefix()[i] as u8 != 0x1b);
            }
        } else {
            assert(bytes[i] == bb[i - 12]);
            assert(bb[i - 12] != 0x1b);
        }
    }
}

/// Framing rejection: bytes that are not UTF-8, or whose text lacks the
/// exact prefix or the exact suffix, always fail to decode, as a text or
/// framing failure and never anything else.
pub proof fn lemma_framing_rejection(bytes: Seq<u8>)
    ensures
        !vstd::utf8::valid_utf8(bytes) ==> spec_msg_decode(bytes) == Err::<
            SpecMessage,
            DecodeFailure,
        >(DecodeFailure::Text),
        vstd::utf8::valid_utf8(bytes) && !spec_framed(vstd::utf8::decode_utf8(bytes))
            ==> spec_msg_decode(bytes) == Err::<SpecMessage, DecodeFailure>(
            DecodeFailure::Framing,
        ),
{
}

proof fn lemma_first_oversized_props(o: Seq<(Seq<char>, SpecJson)>, i: int)
    requires
        0 <= i <= o.len(),
    ensures
        i <= spec_first_oversized(o, i) <= o.len(),
        spec_first_oversized(o, i) < o.len() ==> spec_oversized(o[spec_first_oversized(o, i)]),
        (exists|k: int| i <= k < o.len() && spec_oversized(#[trigger] o[k]))
            ==> spec_first_oversized(o, i) < o.len(),
    decreases o.len() - i,
{
    if i < o.len() && !spec_oversized(o[i]) {
        lemma_first_oversized_props(o, i + 1);
    }
}

/// Chunk threshold: an envelope splits only above the byte limit, and
/// then into content chunks of whole characters carrying at most the
/// limit in bytes each, consecutive and together covering the whole
/// field, maximally packed, with `chunk_num` increasing from zero, one
/// empty-`data` terminator, and one stream id shared by all.
pub proof fn lemma_chunk_threshold(m: SpecMessage, sid: Seq<char>)
    requires
        spec_needs_streaming(m),
    ensures
        ({
            let o = m.payload->0->Obj_0;
            let f = spec_first_oversized(o, 0);
            let sdata = o[f].1->Str_0;
            let n = spec_chunk_count(sdata);
            let cs = spec_chunks(m, sid);
            &&& f < o.len()
            &&& spec_str_bytes(sdata) > 4096
            &&& n >= 2
            &&& cs.len() == n + 1
            &&& (forall|k: int|
                0 <= k <= n ==> (#[trigger] cs[k]).stream_id == Some(sid) && cs[k].stream
                    == Some(true) && cs[k].cmd == m.cmd && cs[k].version == m.version)
            &&& (forall|k: int|
                0 <= k < n ==> (#[trigger] cs[k]).payload == Some(
                    SpecJson::Obj(
                        seq![
                            ("data"@, SpecJson::Str(spec_slice(sdata, k))),
                            ("chunk_num"@, SpecJson::Int(k as i64)),
                        ],
                    ),
                ))
            &&& cs[n].payload == Some(
                SpecJson::Obj(seq![("data"@, SpecJson::Str(Seq::<char>::empty()))]),
            )
            &&& spec_slice_start(sdata, 0) == 0
            &&& spec_slice_start(sdata, n) == sdata.len()
            &&& (forall|k: int|
                0 <= k < n ==> #[trigger] spec_slice_start(sdata, k) < spec_slice_start(
                    sdata,
                    k + 1,
                ) <= sdata.len())
            &&& (forall|k: int|
                0 <= k < n ==> #[trigger] spec_slice(sdata, k) == sdata.subrange(
                    spec_slice_start(sdata, k),
                    spec_slice_start(sdata, k + 1),
                ))
            &&& (forall|k: int|
                0 <= k < n ==> 0 < spec_str_bytes(#[trigger] spec_slice(sdata, k)) <= 4096)
            &&& (forall|k: int|
                0 <= k < n - 1 ==> spec_str_bytes(#[trigger] spec_slice(sdata, k)) > 4092)
        }),
{
    let o = m.payload->0->Obj_0;
    assert(exists|i: int| 0 <= i < o.len() && spec_oversized(#[trigger] o[i]));
    lemma_first_oversized_props(o, 0);
    let f = spec_first_oversized(o, 0);
    assert(f < o.len() && spec_oversized(o[f]));
    let sdata = o[f].1->Str_0;
    let n = spec_chunk_count(sdata);
    assert(spec_str_bytes(sdata) > 4096);
    assert(sdata.len() > 0) by {
        if sdata.len() == 0 {
            assert(sdata =~= Seq::<char>::empty());
            assert(vstd::utf8::encode_utf8(Seq::<char>::empty()) =~= Seq::<u8>::empty());
        }
    }
    lemma_chunk_count_nonneg(sdata, 0);
    assert(n >= 1);
    assert forall|k: int|
        0 <= k < n implies #[trigger] spec_slice_start(sdata, k) < spec_slice_start(sdata, k + 1)
        <= sdata.len() && spec_slice(sdata, k) == sdata.subrange(
        spec_slice_start(sdata, k),
        spec_slice_start(sdata, k + 1),
    ) && 0 < spec_str_bytes(spec_slice(sdata, k)) <= 4096 by {
        lemma_slice_start_count(sdata, k);
        let p = spec_slice_start(sdata, k);
        lemma_slice_end_from(sdata, p, 4096);
        let e = spec_slice_end(sdata, p);
        assert(spec_slice_start(sdata, k + 1) == e);
        assert(spec_slice(sdata, k) == sdata.subrange(p, e));
        assert(spec_str_bytes(sdata.subrange(p, e)) > 0) by {
            if spec_str_bytes(sdata.subrange(p, e)) <= 0 {
                lemma_str_bytes_first(sdata.subrange(p, e));
                lemma_char_bytes_range(sdata.subrange(p, e)[0]);
            }
        }
    }
    assert forall|k: int|
        0 <= k < n - 1 implies spec_str_bytes(#[trigger] spec_slice(sdata, k)) > 4092 by {
        lemma_slice_start_count(sdata, k);
        let p = spec_slice_start(sdata, k);
        lemma_slice_end_from(sdata, p, 4096);
        let e = spec_slice_end(sdata, p);
        lemma_slice_start_count(sdata, k + 1);
        assert(e < sdata.len());
        lemma_char_bytes_range(sdata[e]);
    }
    lemma_slice_start_count(sdata, n);
    assert(spec_slice_start(sdata, n) == sdata.len());
    assert(n >= 2) by {
        if n == 1 {
            lemma_slice_start_count(sdata, 0);
            lemma_slice_end_from(sdata, 0, 4096);
            assert(spec_slice_start(sdata, 1) == spec_slice_end(sdata, 0));
            assert(sdata.subrange(0, sdata.len() as int) =~= sdata);
            assert(spec_str_bytes(sdata) <= 4096);
        }
    }
}

} // verus!
