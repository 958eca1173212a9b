//! The event model, the resolved API options, the capture client, and the
//! wire payload an event is serialized into.

use vstd::prelude::*;
use vstd::string::StringExecFns;
use crate::json::{append_attrs, append_json_string, attrs_json, json_string, pairs_view};
use crate::text::{lower_of, lowercase, push_char};
use crate::timestamp::{append_iso, iso_chars, Timestamp};

verus! {

/// Keys occur at most once in an attribute list.
pub open spec fn unique_keys(attrs: Seq<(Seq<char>, Seq<char>)>) -> bool {
    forall|i: int, j: int|
        0 <= i < j < attrs.len() ==> (#[trigger] attrs[i]).0 != (#[trigger] attrs[j]).0
}

/// Whether some attribute has the key `k`.
pub open spec fn has_key(attrs: Seq<(Seq<char>, Seq<char>)>, k: Seq<char>) -> bool {
    exists|i: int| 0 <= i < attrs.len() && (#[trigger] attrs[i]).0 == k
}

/// Inserting with last-write-wins: an existing key keeps its position and
/// takes the new value; a new key is appended.
pub open spec fn spec_insert(
    attrs: Seq<(Seq<char>, Seq<char>)>,
    k: Seq<char>,
    v: Seq<char>,
) -> Seq<(Seq<char>, Seq<char>)> {
    if has_key(attrs, k) {
        let i = choose|i: int| 0 <= i < attrs.len() && (#[trigger] attrs[i]).0 == k;
        attrs.update(i, (k, v))
    } else {
        attrs.push((k, v))
    }
}

/// Inserting the first `n` of a list of pairs in order, each by
/// [`spec_insert`], so that later pairs win over earlier ones.
pub open spec fn spec_insert_all(
    attrs: Seq<(Seq<char>, Seq<char>)>,
    pairs: Seq<(Seq<char>, Seq<char>)>,
    n: int,
) -> Seq<(Seq<char>, Seq<char>)>
    decreases n,
{
    if n <= 0 {
        attrs
    } else {
        let prev = spec_insert_all(attrs, pairs, n - 1);
        spec_insert(prev, pairs[n - 1].0, pairs[n - 1].1)
    }
}

/// `spec_insert` keeps keys unique, gives `k` the value `v`, and leaves
/// every other key's attribute where it was.
pub proof fn lemma_spec_insert(attrs: Seq<(Seq<char>, Seq<char>)>, k: Seq<char>, v: Seq<char>)
    requires
        unique_keys(attrs),
    ensures
        unique_keys(spec_insert(attrs, k, v)),
        has_key(spec_insert(attrs, k, v), k),
        exists|i: int|
            0 <= i < spec_insert(attrs, k, v).len() && #[trigger] spec_insert(attrs, k, v)[i] == (
            k,
            v,
            ),
        forall|i: int|
            0 <= i < spec_insert(attrs, k, v).len() && (#[trigger] spec_insert(attrs, k, v)[i]).0
                != k ==> 0 <= i < attrs.len() && spec_insert(attrs, k, v)[i] == attrs[i],
        spec_insert(attrs, k, v).len() == if has_key(attrs, k) {
            attrs.len() as int
        } else {
            attrs.len() + 1 as int
        },
{
    if has_key(attrs, k) {
        let i = choose|i: int| 0 <= i < attrs.len() && (#[trigger] attrs[i]).0 == k;
        assert(spec_insert(attrs, k, v)[i] == (k, v));
    } else {
        assert(spec_insert(attrs, k, v)[attrs.len() as int] == (k, v));
    }
}

/// Overwriting is last-write-wins: inserting a key twice leaves the
/// attributes exactly as if only the second insertion had happened, so
/// exactly one attribute holds the key, and it holds the second value.
pub proof fn lemma_insert_overwrite(
    attrs: Seq<(Seq<char>, Seq<char>)>,
    k: Seq<char>,
    a: Seq<char>,
    b: Seq<char>,
)
    requires
        unique_keys(attrs),
    ensures
        spec_insert(spec_insert(attrs, k, a), k, b) == spec_insert(attrs, k, b),
        unique_keys(spec_insert(spec_insert(attrs, k, a), k, b)),
        exists|i: int|
            0 <= i < spec_insert(spec_insert(attrs, k, a), k, b).len()
                && #[trigger] spec_insert(spec_insert(attrs, k, a), k, b)[i] == (k, b),
        forall|j: int|
            0 <= j < spec_insert(spec_insert(attrs, k, a), k, b).len() && (#[trigger] spec_insert(
                spec_insert(attrs, k, a),
                k,
                b,
            )[j]).0 == k ==> spec_insert(spec_insert(attrs, k, a), k, b)[j] == (k, b),
{
    lemma_spec_insert(attrs, k, a);
    let r1 = spec_insert(attrs, k, a);
    lemma_spec_insert(r1, k, b);
    lemma_spec_insert(attrs, k, b);
    let r = spec_insert(r1, k, b);
    if has_key(attrs, k) {
        let i1 = choose|i: int| 0 <= i < attrs.len() && (#[trigger] attrs[i]).0 == k;
        assert(r1 == attrs.update(i1, (k, a)));
        let w = choose|w: int| 0 <= w < r1.len() && (#[trigger] r1[w]).0 == k;
        assert(r1[i1].0 == k);
        assert(w == i1);
        assert(r =~= spec_insert(attrs, k, b));
    } else {
        assert(r1 == attrs.push((k, a)));
        let w = choose|w: int| 0 <= w < r1.len() && (#[trigger] r1[w]).0 == k;
        if w < attrs.len() {
            assert(attrs[w].0 == k);
            assert(false);
        }
        assert(w == attrs.len());
        assert(r =~= attrs.push((k, b)));
    }
    assert forall|j: int| 0 <= j < r.len() && (#[trigger] r[j]).0 == k implies r[j] == (k, b) by {
        let i = choose|i: int| 0 <= i < r.len() && #[trigger] r[i] == (k, b);
        if j != i {
            assert(r[i].0 == k);
        }
    }
}

/// The subject identifier of an event plus its open-ended string metadata.
#[derive(Debug, Clone)]
pub struct Properties {
    distinct_id: String,
    properties: Vec<(String, String)>,
}

/// The mathematical content of [`Properties`]: the subject identifier and
/// the attribute pairs in insertion order.
pub struct PropertiesView {
    pub distinct_id: Seq<char>,
    pub attrs: Seq<(Seq<char>, Seq<char>)>,
}

impl View for Properties {
    type V = PropertiesView;

    closed spec fn view(&self) -> PropertiesView {
        PropertiesView { distinct_id: self.distinct_id@, attrs: pairs_view(self.properties@) }
    }
}

impl Properties {
    /// Attribute keys are unique.
    pub open spec fn wf(&self) -> bool {
        unique_keys(self@.attrs)
    }

    pub fn new(distinct_id: String) -> (r: Properties)
        ensures
            r@.distinct_id == distinct_id@,
            r@.attrs == Seq::<(Seq<char>, Seq<char>)>::empty(),
            r.wf(),
    {
        let r = Properties { distinct_id, properties: Vec::new() };
        proof {
            assert(r@.attrs =~= Seq::<(Seq<char>, Seq<char>)>::empty());
        }
        r
    }

    /// Inserts an attribute; a duplicate key is overwritten in place, so the
    /// last write wins.
    pub fn insert(&mut self, key: String, value: String)
        requires
            old(self).wf(),
        ensures
            final(self)@.distinct_id == old(self)@.distinct_id,
            final(self)@.attrs == spec_insert(old(self)@.attrs, key@, value@),
            final(self).wf(),
    {
        proof {
            lemma_spec_insert(old(self)@.attrs, key@, value@);
        }
        let n = self.properties.len();
        let mut i: usize = 0;
        while i < n
            invariant
                i <= n,
                n == self.properties@.len(),
                *self == *old(self),
                old(self).wf(),
                forall|m: int| 0 <= m < i ==> (#[trigger] self@.attrs[m]).0 != key@,
            decreases n - i,
        {
            if self.properties[i].0 == key {
                proof {
                    lemma_spec_insert(old(self)@.attrs, key@, value@);
                    assert(self@.attrs[i as int].0 == key@);
                    assert(has_key(self@.attrs, key@));
                    let w = choose|w: int|
                        0 <= w < self@.attrs.len() && (#[trigger] self@.attrs[w]).0 == key@;
                    assert(w == i);
                }
                self.properties.set(i, (key, value));
                proof {
                    assert(self@.attrs =~= spec_insert(old(self)@.attrs, key@, value@));
                }
                return ;
            }
            i = i + 1;
        }
        proof {
            assert(!has_key(self@.attrs, key@));
        }
        self.properties.push((key, value));
        proof {
            assert(self@.attrs =~= old(self)@.attrs.push((key@, value@)));
        }
    }
}

/// An analytics event as the caller builds it: a name (with the caller's
/// casing kept), the subject's properties, and an optional timestamp.
#[derive(Debug, Clone)]
pub struct Event {
    event: String,
    properties: Properties,
    timestamp: Option<Timestamp>,
}

/// The mathematical content of [`Event`].
pub struct EventView {
    pub name: Seq<char>,
    pub distinct_id: Seq<char>,
    pub attrs: Seq<(Seq<char>, Seq<char>)>,
    pub timestamp: Option<Timestamp>,
}

impl View for Event {
    type V = EventView;

    closed spec fn view(&self) -> EventView {
        EventView {
            name: self.event@,
            distinct_id: self.properties@.distinct_id,
            attrs: self.properties@.attrs,
            timestamp: self.timestamp,
        }
    }
}

impl Event {
    /// Attribute keys are unique and any timestamp is a renderable date.
    pub open spec fn wf(&self) -> bool {
        &&& unique_keys(self@.attrs)
        &&& self@.timestamp matches Some(t) ==> t.wf()
    }

    pub fn new(event: String, distinct_id: String) -> (r: Event)
        ensures
            r@.name == event@,
            r@.distinct_id == distinct_id@,
            r@.attrs == Seq::<(Seq<char>, Seq<char>)>::empty(),
            r@.timestamp is None,
            r.wf(),
    {
        let r = Event { event, properties: Properties::new(distinct_id), timestamp: None };
        r
    }

    /// Inserts one attribute; a duplicate key takes the new value.
    pub fn insert_prop(&mut self, key: String, value: String)
        requires
            old(self).wf(),
        ensures
            final(self)@.name == old(self)@.name,
            final(self)@.distinct_id == old(self)@.distinct_id,
            final(self)@.timestamp == old(self)@.timestamp,
            final(self)@.attrs == spec_insert(old(self)@.attrs, key@, value@),
            final(self).wf(),
    {
        self.properties.insert(key, value);
    }

    /// Inserts each pair in order, so a later pair wins over an earlier one
    /// with the same key.
    pub fn insert_prop_many(&mut self, props: Vec<(String, String)>)
        requires
            old(self).wf(),
        ensures
            final(self)@.name == old(self)@.name,
            final(self)@.distinct_id == old(self)@.distinct_id,
            final(self)@.timestamp == old(self)@.timestamp,
            final(self)@.attrs == spec_insert_all(
                old(self)@.attrs,
                pairs_view(props@),
                props@.len() as int,
            ),
            final(self).wf(),
    {
        let n = props.len();
        let mut i: usize = 0;
        while i < n
            invariant
                i <= n,
                n == props@.len(),
                self@.name == old(self)@.name,
                self@.distinct_id == old(self)@.distinct_id,
                self@.timestamp == old(self)@.timestamp,
                self@.attrs == spec_insert_all(old(self)@.attrs, pairs_view(props@), i as int),
                self.wf(),
            decreases n - i,
        {
            let key = props[i].0.clone();
            let value = props[i].1.clone();
            self.properties.insert(key, value);
            i = i + 1;
        }
    }

    /// Sets the submission timestamp.
    pub fn set_timestamp(&mut self, timestamp: Timestamp)
        requires
            old(self).wf(),
            timestamp.wf(),
        ensures
            final(self)@.name == old(self)@.name,
            final(self)@.distinct_id == old(self)@.distinct_id,
            final(self)@.attrs == old(self)@.attrs,
            final(self)@.timestamp == Some(timestamp),
            final(self).wf(),
    {
        self.timestamp = Some(timestamp);
    }

    /// The event name, with the caller's casing untouched.
    pub fn name(&self) -> (r: &String)
        ensures
            r@ == self@.name,
    {
        &self.event
    }

    /// The timestamp, if one was set.
    pub fn timestamp(&self) -> (r: Option<Timestamp>)
        ensures
            r == self@.timestamp,
    {
        self.timestamp
    }
}

/// The resolved ingestion endpoint and API key.
#[derive(Debug, Clone)]
pub struct ApiOptions {
    endpoint: String,
    key: String,
}

/// The mathematical content of [`ApiOptions`].
pub struct ApiOptionsView {
    pub endpoint: Seq<char>,
    pub key: Seq<char>,
}

impl View for ApiOptions {
    type V = ApiOptionsView;

    closed spec fn view(&self) -> ApiOptionsView {
        ApiOptionsView { endpoint: self.endpoint@, key: self.key@ }
    }
}

impl ApiOptions {
    /// The key is not blank and the base URL ends in a slash.
    pub open spec fn wf(&self) -> bool {
        &&& !crate::text::is_blank(self@.key)
        &&& self@.endpoint.len() > 0
        &&& self@.endpoint.last() == '/'
    }

    pub fn new(endpoint: String, key: String) -> (r: ApiOptions)
        requires
            !crate::text::is_blank(key@),
            endpoint@.len() > 0,
            endpoint@.last() == '/',
        ensures
            r@.endpoint == endpoint@,
            r@.key == key@,
            r.wf(),
    {
        ApiOptions { endpoint, key }
    }

    /// The base URL of the ingestion endpoint.
    pub fn endpoint(&self) -> (r: &String)
        ensures
            r@ == self@.endpoint,
    {
        &self.endpoint
    }

    /// The resolved API key.
    pub fn key(&self) -> (r: &String)
        ensures
            r@ == self@.key,
    {
        &self.key
    }
}

/// `"null"` or the quoted ISO rendering: how the optional timestamp appears
/// in the wire payload.
pub open spec fn timestamp_json(t: Option<Timestamp>) -> Seq<char> {
    match t {
        None => "null"@,
        Some(ts) => seq!['"'] + iso_chars(ts) + seq!['"'],
    }
}

/// The mathematical content of [`InnerEvent`]: what the wire payload holds.
pub struct WireView {
    pub api_key: Seq<char>,
    pub event: Seq<char>,
    pub distinct_id: Seq<char>,
    pub attrs: Seq<(Seq<char>, Seq<char>)>,
    pub timestamp: Option<Timestamp>,
}

/// The JSON text of the wire payload: the API key, the lowercased event
/// name, the `properties` object with the attribute map flattened beside
/// `distinct_id`, and the timestamp or `null`.
pub open spec fn wire_json(v: WireView) -> Seq<char> {
    "{\"api_key\":"@ + json_string(v.api_key) + ",\"event\":"@ + json_string(v.event)
        + ",\"properties\":{\"distinct_id\":"@ + json_string(v.distinct_id) + attrs_json(v.attrs)
        + "},\"timestamp\":"@ + timestamp_json(v.timestamp) + "}"@
}

/// The wire payload of one capture call: the caller's event joined with the
/// resolved API key, the event name lowercased. The key is injected here, at
/// submission time, and is never stored on [`Event`] or [`Properties`].
#[derive(Debug)]
pub struct InnerEvent {
    api_key: String,
    event: String,
    properties: Properties,
    timestamp: Option<Timestamp>,
}

impl View for InnerEvent {
    type V = WireView;

    closed spec fn view(&self) -> WireView {
        WireView {
            api_key: self.api_key@,
            event: self.event@,
            distinct_id: self.properties@.distinct_id,
            attrs: self.properties@.attrs,
            timestamp: self.timestamp,
        }
    }
}

impl InnerEvent {
    /// Any timestamp is a renderable date.
    pub open spec fn wf(&self) -> bool {
        self@.timestamp matches Some(t) ==> t.wf()
    }

    /// Joins an event with the resolved API key; the event name is
    /// lowercased for the wire, the caller's [`Event`] value is not changed.
    pub fn new(event: Event, api_key: String) -> (r: InnerEvent)
        ensures
            r@.api_key == api_key@,
            r@.event == lower_of(event@.name),
            r@.distinct_id == event@.distinct_id,
            r@.attrs == event@.attrs,
            r@.timestamp == event@.timestamp,
            event.wf() ==> r.wf(),
    {
        let Event { event: name, properties, timestamp } = event;
        InnerEvent { api_key, event: lowercase(name.as_str()), properties, timestamp }
    }

    /// Serializes the payload to its JSON text.
    pub fn to_json(&self) -> (r: String)
        requires
            self.wf(),
        ensures
            r@ == wire_json(self@),
    {
        let mut out = String::from_str("{\"api_key\":");
        append_json_string(&mut out, self.api_key.as_str());
        out.append(",\"event\":");
        append_json_string(&mut out, self.event.as_str());
        out.append(",\"properties\":{\"distinct_id\":");
        append_json_string(&mut out, self.properties.distinct_id.as_str());
        append_attrs(&mut out, &self.properties.properties);
        out.append("},\"timestamp\":");
        match &self.timestamp {
            None => out.append("null"),
            Some(t) => {
                push_char(&mut out, '"');
                append_iso(&mut out, t);
                push_char(&mut out, '"');
            },
        }
        out.append("}");
        proof {
            assert(out@ =~= wire_json(self@));
        }
        out
    }
}

/// One HTTP request, ready for an unverified transport to send: the URL of
/// the capture endpoint and the JSON body.
#[derive(Debug)]
pub struct CaptureRequest {
    pub url: String,
    pub body: String,
}

/// A capture client: the resolved options plus the per-call timeout bound,
/// in milliseconds. Immutable once built; a different timeout means a new
/// client.
#[derive(Debug, Clone)]
pub struct Client {
    options: ApiOptions,
    timeout_ms: u64,
}

/// The mathematical content of [`Client`].
pub struct ClientView {
    pub options: ApiOptionsView,
    pub timeout_ms: u64,
}

impl View for Client {
    type V = ClientView;

    closed spec fn view(&self) -> ClientView {
        ClientView { options: self.options@, timeout_ms: self.timeout_ms }
    }
}

/// The default per-call timeout, in milliseconds.
pub const DEFAULT_TIMEOUT_MS: u64 = 2000;

impl Client {
    pub fn new(options: ApiOptions) -> (r: Client)
        ensures
            r@.options == options@,
            r@.timeout_ms == DEFAULT_TIMEOUT_MS,
    {
        Client { options, timeout_ms: DEFAULT_TIMEOUT_MS }
    }

    /// A client for the same options but a caller-chosen timeout.
    pub fn new_with_timeout(options: ApiOptions, timeout_ms: u64) -> (r: Client)
        ensures
            r@.options == options@,
            r@.timeout_ms == timeout_ms,
    {
        Client { options, timeout_ms }
    }

    /// A client bound to the same options but a different timeout; nothing
    /// shared is mutated.
    pub fn with_timeout(&self, timeout_ms: u64) -> (r: Client)
        ensures
            r@.options == self@.options,
            r@.timeout_ms == timeout_ms,
    {
        let options = ApiOptions {
            endpoint: self.options.endpoint.clone(),
            key: self.options.key.clone(),
        };
        Client { options, timeout_ms }
    }

    /// The per-call timeout bound, in milliseconds.
    pub fn timeout_ms(&self) -> (r: u64)
        ensures
            r == self@.timeout_ms,
    {
        self.timeout_ms
    }

    /// The error a capture call reports when it exceeds this client's
    /// timeout: distinct from a transport failure, carrying the bound.
    pub fn timeout_error(&self) -> (e: crate::batch::CaptureError)
        ensures
            e == crate::batch::CaptureError::Timeout(self@.timeout_ms),
    {
        crate::batch::CaptureError::Timeout(self.timeout_ms)
    }

    /// The URL and JSON body of the request that submits `event`: the body
    /// is the wire payload of the event joined with this client's key, and
    /// the URL is the capture route under this client's endpoint.
    pub fn capture_request(&self, event: Event) -> (r: CaptureRequest)
        requires
            event.wf(),
        ensures
            r.url@ == self@.options.endpoint + "capture/"@,
            r.body@ == wire_json(
                WireView {
                    api_key: self@.options.key,
                    event: lower_of(event@.name),
                    distinct_id: event@.distinct_id,
                    attrs: event@.attrs,
                    timestamp: event@.timestamp,
                },
            ),
    {
        let inner = InnerEvent::new(event, self.options.key.clone());
        let body = inner.to_json();
        let mut url = self.options.endpoint.clone();
        url.append("capture/");
        CaptureRequest { url, body }
    }
}

} // verus!
