//! The client-side engine around one connection: configuration, the
//! public-key resolution policy, authentication injection, the send
//! pipeline (encrypt, chunk, encode), and the receive state machine that
//! accumulates bytes until the terminator.
use crate::encryption::Encryptor;
use crate::encryption::spec_encrypted_envelope;
use crate::error::ConnectionError;
use crate::error::EncryptionError;
use crate::error::KittyError;
use crate::json::JsonValue;
use crate::json::SpecJson;
use crate::json::jv_view;
use crate::json::jv_entry_views;
use crate::json::lemma_jv_entry_views_index;
use crate::json::lemma_jv_entry_views_push;
use crate::protocol::KittyMessage;
use crate::protocol::SpecMessage;
use crate::protocol::StreamIdGen;
use crate::protocol::view_opt_string;
use vstd::prelude::*;
use vstd::string::StringExecFns;
use vstd::string::StrSliceExecFns;

verus! {

// ---------------------------------------------------------------------------
// Configuration.
// ---------------------------------------------------------------------------
/// Connection configuration assembled before connecting: the socket path,
/// the optional password and peer key, and the I/O timeout in
/// milliseconds.
pub struct KittyBuilder {
    pub socket_path: Option<String>,
    pub password: Option<String>,
    pub public_key: Option<String>,
    pub timeout: u64,
}

impl KittyBuilder {
    /// A fresh configuration: no socket path, no authentication, and a
    /// ten-second timeout.
    pub fn new() -> (r: KittyBuilder)
        ensures
            r.socket_path is None,
            r.password is None,
            r.public_key is None,
            r.timeout == 10000,
    {
        KittyBuilder { socket_path: None, password: None, public_key: None, timeout: 10000 }
    }

    pub fn socket_path(self, path: String) -> (r: KittyBuilder)
        ensures
            view_opt_string(r.socket_path) == Some(path@),
            r.password == self.password,
            r.public_key == self.public_key,
            r.timeout == self.timeout,
    {
        KittyBuilder { socket_path: Some(path), ..self }
    }

    /// Sets the I/O timeout, in milliseconds.
    pub fn timeout(self, timeout_ms: u64) -> (r: KittyBuilder)
        ensures
            r.timeout == timeout_ms,
            r.socket_path == self.socket_path,
            r.password == self.password,
            r.public_key == self.public_key,
    {
        KittyBuilder { timeout: timeout_ms, ..self }
    }

    pub fn password(self, password: String) -> (r: KittyBuilder)
        ensures
            view_opt_string(r.password) == Some(password@),
            r.socket_path == self.socket_path,
            r.public_key == self.public_key,
            r.timeout == self.timeout,
    {
        KittyBuilder { password: Some(password), ..self }
    }

    /// Sets the peer public key explicitly, as `<version>:<radix-85>`
    /// text; an explicit key wins over every other source.
    pub fn public_key(self, public_key: String) -> (r: KittyBuilder)
        ensures
            view_opt_string(r.public_key) == Some(public_key@),
            r.socket_path == self.socket_path,
            r.password == self.password,
            r.timeout == self.timeout,
    {
        KittyBuilder { public_key: Some(public_key), ..self }
    }
}

// ---------------------------------------------------------------------------
// Extracting the server process id from a socket path.
// ---------------------------------------------------------------------------
/// Index of the last path separator, or -1.
pub open spec fn spec_rfind_slash(s: Seq<char>) -> int
    decreases s.len(),
{
    if s.len() == 0 {
        -1
    } else if s[s.len() - 1] == '/' {
        s.len() - 1
    } else {
        spec_rfind_slash(s.drop_last())
    }
}

/// The value of an all-digit run, if it is non-empty and fits in the
/// process-id type.
pub open spec fn spec_parse_u32(t: Seq<char>) -> Option<u32> {
    if t.len() > 0 && crate::json::spec_all_digits(t) && crate::json::spec_digits_val(t)
        < 0x100000000 {
        Some(crate::json::spec_digits_val(t) as u32)
    } else {
        None
    }
}

/// The process id named by a socket path: the file name must be
/// `kitty-<pid>.sock`.
pub open spec fn spec_extract_pid(s: Seq<char>) -> Option<u32> {
    let name = s.skip(spec_rfind_slash(s) + 1);
    if name.len() >= 11 && name.take(6) == "kitty-"@ && name.skip(name.len() - 5) == ".sock"@ {
        spec_parse_u32(name.subrange(6, name.len() - 5))
    } else {
        None
    }
}

proof fn lemma_rfind_slash(s: Seq<char>)
    ensures
        -1 <= spec_rfind_slash(s) < s.len(),
        spec_rfind_slash(s) >= 0 ==> s[spec_rfind_slash(s)] == '/',
        forall|k: int| spec_rfind_slash(s) < k < s.len() ==> s[k] != '/',
    decreases s.len(),
{
    if s.len() > 0 && s[s.len() - 1] != '/' {
        lemma_rfind_slash(s.drop_last());
        assert(forall|k: int| 0 <= k < s.len() - 1 ==> s.drop_last()[k] == s[k]);
    }
}

impl KittyBuilder {
    /// The process id named by a socket path of the form
    /// `.../kitty-<pid>.sock`, if any.
    #[verifier::loop_isolation(false)]
    #[verifier::rlimit(50)]
    pub fn extract_pid_from_socket(socket_path: &str) -> (r: Option<u32>)
        ensures
            r == spec_extract_pid(socket_path@),
    {
        proof {
            reveal_strlit("kitty-");
            reveal_strlit(".sock");
        }
        let chars = crate::json::str_chars(socket_path);
        let n = chars.len();
        proof {
            lemma_rfind_slash(chars@);
        }
        // Find the start of the file name.
        let mut start: usize = n;
        while start > 0 && chars[start - 1] != '/'
            invariant
                0 <= start <= n,
                forall|k: int| start <= k < n ==> chars@[k] != '/',
            decreases start,
        {
            start = start - 1;
        }
        proof {
            assert(start as int == spec_rfind_slash(chars@) + 1) by {
                if start > 0 {
                    assert(chars@[start - 1] == '/');
                }
            }
        }
        let ghost name = chars@.skip(spec_rfind_slash(chars@) + 1);
        assert(name.len() == n - start);
        assert(forall|k: int| 0 <= k < name.len() ==> name[k] == chars@[start + k]);
        if n - start < 11 {
            return None;
        }
        // The `kitty-` prefix.
        let p = chars[start] == 'k' && chars[start + 1] == 'i' && chars[start + 2] == 't'
            && chars[start + 3] == 't' && chars[start + 4] == 'y' && chars[start + 5] == '-';
        if !p {
            proof {
                assert(name[0] == chars@[start as int] && name[1] == chars@[start as int + 1]
                    && name[2] == chars@[start as int + 2] && name[3] == chars@[start as int + 3]
                    && name[4] == chars@[start as int + 4] && name[5] == chars@[start as int + 5]);
                assert(name.take(6)[0] == name[0] && name.take(6)[1] == name[1] && name.take(6)[2]
                    == name[2] && name.take(6)[3] == name[3] && name.take(6)[4] == name[4]
                    && name.take(6)[5] == name[5]);
                assert(name.take(6) != "kitty-"@);
            }
            return None;
        }
        // The `.sock` suffix.
        let q = chars[n - 5] == '.' && chars[n - 4] == 's' && chars[n - 3] == 'o' && chars[n - 2]
            == 'c' && chars[n - 1] == 'k';
        if !q {
            proof {
                let tl = name.skip(name.len() - 5);
                assert(tl[0] == chars@[n - 5] && tl[1] == chars@[n - 4] && tl[2] == chars@[n - 3]
                    && tl[3] == chars@[n - 2] && tl[4] == chars@[n - 1]);
                assert(tl != ".sock"@);
            }
            return None;
        }
        if n - start == 11 {
            proof {
                assert(name.take(6) =~= "kitty-"@);
                assert(name.skip(name.len() - 5) =~= ".sock"@);
                assert(name.subrange(6, name.len() - 5).len() == 0);
            }
            return None;
        }
        proof {
            assert(name.take(6) =~= "kitty-"@);
            assert(name.skip(name.len() - 5) =~= ".sock"@);
        }
        let ghost digs = name.subrange(6, name.len() - 5);
        // The digits between them.
        let mut val: u64 = 0;
        let mut i: usize = start + 6;
        let stop = n - 5;
        assert(digs.len() == stop - i);
        while i < stop
            invariant
                start + 6 <= i <= stop,
                forall|k: int| 0 <= k < i - start - 6 ==> crate::json::is_digit(digs[k]),
                val as int == crate::json::spec_digits_val(digs.take(i - start - 6)),
                val < 0x100000000,
            decreases stop - i,
        {
            let c = chars[i];
            let u = c as u32;
            if !(48 <= u && u <= 57) {
                proof {
                    assert(digs[i - start - 6] == chars@[i as int]);
                    assert(!crate::json::spec_all_digits(digs));
                }
                return None;
            }
            let d = (u - 48) as u64;
            proof {
                crate::json::lemma_digits_val_step(digs, i - start - 6);
                crate::json::lemma_mul10_cmp(val as int, d as int, 0xFFFFFFFF);
            }
            if val > (0xFFFFFFFFu64 - d) / 10 {
                proof {
                    assert(digs[i - start - 6] == chars@[i as int]);
                    assert(crate::json::spec_digits_val(digs.take(i - start - 6 + 1))
                        >= 0x100000000);
                    assert(crate::json::spec_all_digits(digs.take(i - start - 6 + 1)));
                    crate::json::lemma_digits_val_mono(digs.take(i - start - 6 + 1), 0);
                    if crate::json::spec_all_digits(digs) {
                        crate::json::lemma_digits_val_mono(digs, i - start - 6 + 1);
                    }
                }
                return None;
            }
            proof {
                assert(digs[i - start - 6] == chars@[i as int]);
            }
            val = val * 10 + d;
            i = i + 1;
        }
        proof {
            assert(digs.take(stop - start - 6) =~= digs);
            assert(crate::json::spec_all_digits(digs));
            assert(digs.len() > 0);
            assert(spec_parse_u32(digs) == Some(val as u32));
        }
        Some(val as u32)
    }
}

// ---------------------------------------------------------------------------
// Public key resolution.
// ---------------------------------------------------------------------------
/// Resolves the peer public key for authentication, evaluated once at
/// connection setup.  Without a password no key is needed and none is
/// resolved.  With a password, an explicitly supplied key wins; otherwise
/// a key from the process-id store; otherwise an environment-provided
/// key; if all three are absent the configuration is rejected.
pub fn resolve_public_key(
    explicit: Option<String>,
    pid_store: Option<String>,
    env_key: Option<String>,
    password_set: bool,
) -> (r: Result<Option<String>, EncryptionError>)
    ensures
        !password_set ==> (r matches Ok(k) && k is None),
        password_set && explicit is Some ==> (r matches Ok(k) && view_opt_string(k)
            == view_opt_string(explicit)),
        password_set && explicit is None && pid_store is Some ==> (r matches Ok(k)
            && view_opt_string(k) == view_opt_string(pid_store)),
        password_set && explicit is None && pid_store is None && env_key is Some ==> (r matches Ok(
            k,
        ) && view_opt_string(k) == view_opt_string(env_key)),
        password_set && explicit is None && pid_store is None && env_key is None ==> (r matches Err(
            e,
        ) && e is MissingPublicKey),
{
    if !password_set {
        return Ok(None);
    }
    if let Some(k) = explicit {
        return Ok(Some(k));
    }
    if let Some(k) = pid_store {
        return Ok(Some(k));
    }
    if let Some(k) = env_key {
        return Ok(Some(k));
    }
    Err(EncryptionError::MissingPublicKey)
}

// ---------------------------------------------------------------------------
// Authentication injection and the send pipeline.
// ---------------------------------------------------------------------------
/// Object members with the value under `key` replaced at its first
/// occurrence, or appended if the key is absent.
pub open spec fn spec_obj_set(
    o: Seq<(Seq<char>, SpecJson)>,
    key: Seq<char>,
    v: SpecJson,
) -> Seq<(Seq<char>, SpecJson)>
    decreases o,
{
    if o.len() == 0 {
        seq![(key, v)]
    } else if o[0].0 == key {
        seq![(key, v)] + o.drop_first()
    } else {
        seq![o[0]] + spec_obj_set(o.drop_first(), key, v)
    }
}

/// Replaces or appends one member.
#[verifier::loop_isolation(false)]
#[verifier::rlimit(80)]
fn obj_set(o: &mut Vec<(String, JsonValue)>, key: String, v: JsonValue)
    ensures
        jv_entry_views(final(o)@) == spec_obj_set(jv_entry_views(old(o)@), key@, jv_view(v)),
{
    proof {
        lemma_jv_entry_views_index(o@);
    }
    let ghost orig = jv_entry_views(o@);
    proof {
        assert(orig.take(0) =~= Seq::<(Seq<char>, SpecJson)>::empty());
        assert(orig.skip(0) =~= orig);
        assert(orig.take(0) + spec_obj_set(orig.skip(0), key@, jv_view(v)) =~= spec_obj_set(
            orig,
            key@,
            jv_view(v),
        ));
    }
    let mut i: usize = 0;
    while i < o.len()
        invariant
            i <= o@.len(),
            o@.len() == old(o)@.len(),
            jv_entry_views(o@) == orig,
            orig.len() == o@.len(),
            forall|k: int| 0 <= k < o@.len() ==> orig[k] == (o@[k].0@, jv_view(o@[k].1)),
            forall|k: int| 0 <= k < i ==> orig[k].0 != key@,
            spec_obj_set(orig, key@, jv_view(v)) == orig.take(i as int) + spec_obj_set(
                orig.skip(i as int),
                key@,
                jv_view(v),
            ),
        decreases o@.len() - i,
    {
        proof {
            assert(orig.skip(i as int)[0] == orig[i as int]);
            assert(orig.skip(i as int).drop_first() =~= orig.skip(i as int + 1));
        }
        if o[i].0 == key {
            let ghost pre = o@;
            o.set(i, (key, v));
            proof {
                lemma_jv_entry_views_index(o@);
                assert(jv_entry_views(o@) =~= orig.take(i as int) + (seq![(key@, jv_view(v))]
                    + orig.skip(i as int).drop_first())) by {
                    assert(forall|k: int|
                        0 <= k < o@.len() && k != i ==> o@[k] == pre[k]);
                }
                assert(spec_obj_set(orig, key@, jv_view(v)) == orig.take(i as int) + (seq![
                    (key@, jv_view(v)),
                ] + orig.skip(i as int).drop_first()));
            }
            return ;
        }
        proof {
            assert(orig.take(i as int + 1) =~= orig.take(i as int) + seq![orig[i as int]]);
            assert(orig.take(i as int) + spec_obj_set(orig.skip(i as int), key@, jv_view(v))
                =~= orig.take(i as int + 1) + spec_obj_set(
                orig.skip(i as int + 1),
                key@,
                jv_view(v),
            ));
        }
        i = i + 1;
    }
    proof {
        assert(orig.skip(o@.len() as int) =~= Seq::<(Seq<char>, SpecJson)>::empty());
    }
    let ghost pre = o@;
    o.push((key, v));
    proof {
        lemma_jv_entry_views_push(pre, (key, v));
        assert(jv_entry_views(o@) =~= orig.take(orig.len() as int) + seq![(key@, jv_view(v))]);
        assert(orig.take(orig.len() as int) =~= orig);
        assert(spec_obj_set(orig, key@, jv_view(v)) =~= orig + seq![(key@, jv_view(v))]);
    }
}

/// The cleartext payload with the password and a nanosecond timestamp
/// injected: into an object payload in place, into a fresh object when no
/// payload was present, and not at all into a non-object payload.
pub open spec fn spec_with_auth(
    payload: Option<SpecJson>,
    password: Seq<char>,
    timestamp: i64,
) -> SpecJson {
    match payload {
        Some(SpecJson::Obj(o)) => SpecJson::Obj(
            spec_obj_set(
                spec_obj_set(o, "password"@, SpecJson::Str(password)),
                "timestamp"@,
                SpecJson::Int(timestamp),
            ),
        ),
        Some(p) => p,
        None => SpecJson::Obj(
            seq![
                ("password"@, SpecJson::Str(password)),
                ("timestamp"@, SpecJson::Int(timestamp)),
            ],
        ),
    }
}

/// Injects the password and timestamp into a cleartext payload.
pub fn with_auth(payload: Option<JsonValue>, password: &str, timestamp: i64) -> (r: JsonValue)
    ensures
        r@ == spec_with_auth(
            crate::protocol::view_opt_json(payload),
            password@,
            timestamp,
        ),
{
    match payload {
        Some(JsonValue::Obj(mut o)) => {
            obj_set(&mut o, String::from_str("password"), JsonValue::Str(String::from_str(
                password,
            )));
            obj_set(&mut o, String::from_str("timestamp"), JsonValue::Int(timestamp));
            JsonValue::Obj(o)
        },
        Some(p) => p,
        None => {
            let mut o: Vec<(String, JsonValue)> = Vec::new();
            proof {
                lemma_jv_entry_views_index(o@);
            }
            let e1 = (String::from_str("password"), JsonValue::Str(String::from_str(password)));
            proof {
                lemma_jv_entry_views_push(o@, e1);
            }
            o.push(e1);
            let e2 = (String::from_str("timestamp"), JsonValue::Int(timestamp));
            proof {
                lemma_jv_entry_views_push(o@, e2);
            }
            o.push(e2);
            let r = JsonValue::Obj(o);
            proof {
                assert(r@->Obj_0 =~= seq![
                    ("password"@, SpecJson::Str(password@)),
                    ("timestamp"@, SpecJson::Int(timestamp)),
                ]);
            }
            r
        },
    }
}

/// An envelope made ready for the wire under a password: the cleartext
/// payload got the password and timestamp injected and was replaced by an
/// encrypted payload envelope for the configured peer key.
pub open spec fn spec_authenticated(
    m: SpecMessage,
    peer: Seq<u8>,
    password: Seq<char>,
    timestamp: i64,
    m2: SpecMessage,
) -> bool {
    exists|env: SpecJson|
        #![trigger spec_encrypted_envelope(peer, spec_with_auth(m.payload, password, timestamp), env)]
        {
            &&& spec_encrypted_envelope(peer, spec_with_auth(m.payload, password, timestamp), env)
            &&& m2 == (SpecMessage { payload: Some(env), ..m })
        }
}

/// Applies the authentication step to one envelope: inject the password
/// and timestamp, encrypt, and carry the encrypted envelope as payload.
pub fn authenticate_message(
    msg: KittyMessage,
    encryptor: &Encryptor,
    password: &str,
    timestamp: i64,
) -> (r: Result<KittyMessage, KittyError>)
    ensures
        r matches Ok(m2) ==> spec_authenticated(msg@, encryptor@, password@, timestamp, m2@),
        r matches Err(e) ==> e is Encryption,
{
    let ghost m = msg@;
    let cleartext = with_auth(msg.payload, password, timestamp);
    let encrypted = match encryptor.encrypt_command(&cleartext) {
        Ok(envv) => envv,
        Err(e) => {
            return Err(e);
        },
    };
    let r = KittyMessage {
        cmd: msg.cmd,
        version: msg.version,
        no_response: msg.no_response,
        kitty_window_id: msg.kitty_window_id,
        payload: Some(encrypted),
        async_id: msg.async_id,
        cancel_async: msg.cancel_async,
        stream_id: msg.stream_id,
        stream: msg.stream,
    };
    proof {
        assert(r@ == (SpecMessage { payload: Some(jv_view(encrypted)), ..m }));
    }
    Ok(r)
}

// ---------------------------------------------------------------------------
// Receiving: accumulate bytes until the terminator.
// ---------------------------------------------------------------------------
/// Whether a buffer ends with the frame terminator (escape, backslash).
pub open spec fn spec_ends_with_terminator(b: Seq<u8>) -> bool {
    b.len() >= 2 && b[b.len() - 2] == 0x1b && b[b.len() - 1] == 0x5c
}

/// What one read tells the receive loop.
#[derive(Debug, PartialEq, Eq, Structural, Clone, Copy)]
pub enum ReadStep {
    /// More bytes are needed.
    Continue,
    /// The buffer ends with the terminator: the frame is complete.
    Complete,
    /// The peer closed the stream (a zero-length read).
    Closed,
}

/// Accumulates reply bytes until a full frame or end of stream.  The
/// caller performs the reads; this state machine makes every decision.
pub struct ReceiveState {
    pub buf: Vec<u8>,
    pub closed: bool,
}

impl ReceiveState {
    pub fn new() -> (r: ReceiveState)
        ensures
            r.buf@ == Seq::<u8>::empty(),
            !r.closed,
    {
        ReceiveState { buf: Vec::new(), closed: false }
    }

    /// Feeds the bytes of one read.  An empty read means the peer closed;
    /// otherwise the bytes are appended and the frame is complete exactly
    /// when the buffer now ends with the terminator.
    pub fn on_read(&mut self, chunk: &[u8]) -> (r: ReadStep)
        ensures
            chunk@.len() == 0 ==> final(self).buf@ == old(self).buf@ && r == ReadStep::Closed
                && final(self).closed,
            chunk@.len() > 0 ==> final(self).buf@ == old(self).buf@ + chunk@ && final(self).closed
                == old(self).closed && r != ReadStep::Closed && (r == ReadStep::Complete
                <==> spec_ends_with_terminator(final(self).buf@)),
    {
        if chunk.len() == 0 {
            self.closed = true;
            return ReadStep::Closed;
        }
        let mut i: usize = 0;
        while i < chunk.len()
            invariant
                i <= chunk@.len(),
                self.buf@ == old(self).buf@ + chunk@.take(i as int),
                self.closed == old(self).closed,
            decreases chunk@.len() - i,
        {
            self.buf.push(chunk[i]);
            i = i + 1;
            assert(self.buf@ =~= old(self).buf@ + chunk@.take(i as int));
        }
        proof {
            assert(old(self).buf@ + chunk@.take(chunk@.len() as int) =~= old(self).buf@ + chunk@);
        }
        let n = self.buf.len();
        if n >= 2 && self.buf[n - 2] == 0x1b && self.buf[n - 1] == 0x5c {
            ReadStep::Complete
        } else {
            ReadStep::Continue
        }
    }

    /// Ends the receive.  A close before any byte arrived, or a close
    /// before the terminator was ever seen, is a connection-closed error
    /// - never an empty or truncated frame handed over as if it were a
    /// reply.  Only a buffer that ends with the terminator, or one the
    /// peer never closed, goes on to decoding.
    pub fn finish(self) -> (r: Result<Vec<u8>, ConnectionError>)
        ensures
            self.buf@.len() == 0 ==> (r matches Err(e) && e is ConnectionClosed),
            self.buf@.len() > 0 && self.closed && !spec_ends_with_terminator(self.buf@) ==> (
            r matches Err(e) && e is ConnectionClosed),
            self.buf@.len() > 0 && (!self.closed || spec_ends_with_terminator(self.buf@)) ==> (
            r matches Ok(b) && b@ == self.buf@),
    {
        if self.buf.len() == 0 {
            return Err(ConnectionError::ConnectionClosed);
        }
        if self.closed {
            let n = self.buf.len();
            if n < 2 || !(self.buf[n - 2] == 0x1b && self.buf[n - 1] == 0x5c) {
                return Err(ConnectionError::ConnectionClosed);
            }
        }
        Ok(self.buf)
    }
}

} // verus!
