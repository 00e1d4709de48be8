//! Spans: named records of attributes, each attribute set at most once.
//!
//! A span is modelled by its name and a map from attribute key to value. The
//! keys come from a fixed schema; a key that was never recorded is absent from
//! the map, and a key that was recorded keeps its first value.

use vstd::prelude::*;

verus! {

/// The attribute keys of the schema.
#[derive(Clone, Copy, Debug, PartialEq, Eq, Hash, Structural)]
pub enum Key {
    HttpRequestMethod,
    UrlPath,
    UrlScheme,
    UrlQuery,
    ServerAddress,
    ServerPort,
    UserAgentOriginal,
    NetworkProtocolName,
    NetworkProtocolVersion,
    ClientAddress,
    ClientPort,
    NetworkPeerAddress,
    NetworkPeerPort,
    HttpResponseStatusCode,
    HttpRoute,
    HttpRequestSize,
    HttpRequestBodySize,
    HttpResponseSize,
    HttpResponseBodySize,
    NetworkTransport,
    OtelName,
    DbSystem,
    DbOperationName,
    DbCollectionName,
    DbStatement,
}

/// The name under which a key is exported.
pub open spec fn key_name(key: Key) -> Seq<char> {
    match key {
        Key::HttpRequestMethod => "http.request.method"@,
        Key::UrlPath => "url.path"@,
        Key::UrlScheme => "url.scheme"@,
        Key::UrlQuery => "url.query"@,
        Key::ServerAddress => "server.address"@,
        Key::ServerPort => "server.port"@,
        Key::UserAgentOriginal => "user_agent.original"@,
        Key::NetworkProtocolName => "network.protocol.name"@,
        Key::NetworkProtocolVersion => "network.protocol.version"@,
        Key::ClientAddress => "client.address"@,
        Key::ClientPort => "client.port"@,
        Key::NetworkPeerAddress => "network.peer.address"@,
        Key::NetworkPeerPort => "network.peer.port"@,
        Key::HttpResponseStatusCode => "http.response.status_code"@,
        Key::HttpRoute => "http.route"@,
        Key::HttpRequestSize => "http.request.size"@,
        Key::HttpRequestBodySize => "http.request.body.size"@,
        Key::HttpResponseSize => "http.response.size"@,
        Key::HttpResponseBodySize => "http.response.body.size"@,
        Key::NetworkTransport => "network.transport"@,
        Key::OtelName => "otel.name"@,
        Key::DbSystem => "db.system"@,
        Key::DbOperationName => "db.operation.name"@,
        Key::DbCollectionName => "db.collection.name"@,
        Key::DbStatement => "db.statement"@,
    }
}

impl Key {
    /// The name under which this key is exported.
    pub fn name(self) -> (name: &'static str)
        ensures
            name@ == key_name(self),
    {
        match self {
            Key::HttpRequestMethod => "http.request.method",
            Key::UrlPath => "url.path",
            Key::UrlScheme => "url.scheme",
            Key::UrlQuery => "url.query",
            Key::ServerAddress => "server.address",
            Key::ServerPort => "server.port",
            Key::UserAgentOriginal => "user_agent.original",
            Key::NetworkProtocolName => "network.protocol.name",
            Key::NetworkProtocolVersion => "network.protocol.version",
            Key::ClientAddress => "client.address",
            Key::ClientPort => "client.port",
            Key::NetworkPeerAddress => "network.peer.address",
            Key::NetworkPeerPort => "network.peer.port",
            Key::HttpResponseStatusCode => "http.response.status_code",
            Key::HttpRoute => "http.route",
            Key::HttpRequestSize => "http.request.size",
            Key::HttpRequestBodySize => "http.request.body.size",
            Key::HttpResponseSize => "http.response.size",
            Key::HttpResponseBodySize => "http.response.body.size",
            Key::NetworkTransport => "network.transport",
            Key::OtelName => "otel.name",
            Key::DbSystem => "db.system",
            Key::DbOperationName => "db.operation.name",
            Key::DbCollectionName => "db.collection.name",
            Key::DbStatement => "db.statement",
        }
    }
}

/// The value of an attribute.
#[derive(Clone, Debug, PartialEq, Eq)]
pub enum Value {
    Text(String),
    Number(u64),
    Flag(bool),
}

/// The model of a `Value`: a text is its sequence of characters.
pub enum ValueView {
    Text(Seq<char>),
    Number(u64),
    Flag(bool),
}

impl View for Value {
    type V = ValueView;

    open spec fn view(&self) -> ValueView {
        match self {
            Value::Text(s) => ValueView::Text(s@),
            Value::Number(n) => ValueView::Number(*n),
            Value::Flag(b) => ValueView::Flag(*b),
        }
    }
}

/// One recorded attribute.
#[derive(Clone, Debug, PartialEq, Eq)]
pub struct Attribute {
    pub key: Key,
    pub value: Value,
}

/// The map that a list of attributes stands for.
pub open spec fn attributes_map(list: Seq<Attribute>) -> Map<Key, ValueView>
    decreases list.len(),
{
    if list.len() == 0 {
        Map::empty()
    } else {
        attributes_map(list.drop_last()).insert(list.last().key, list.last().value@)
    }
}

/// Whether no key occurs twice in `list`.
pub open spec fn distinct_keys(list: Seq<Attribute>) -> bool {
    forall|i: int, j: int| 0 <= i < j < list.len() ==> (#[trigger] list[i]).key != (#[trigger] list[j]).key
}

/// Whether `key` occurs in `list`.
pub open spec fn lists_key(list: Seq<Attribute>, key: Key) -> bool {
    exists|i: int| 0 <= i < list.len() && (#[trigger] list[i]).key == key
}

/// The keys of the map are the keys of the list, and where no key occurs twice
/// each key maps to the value listed with it.
pub proof fn lemma_attributes_map(list: Seq<Attribute>)
    ensures
        forall|k: Key| #[trigger] attributes_map(list).contains_key(k) <==> lists_key(list, k),
        distinct_keys(list) ==> forall|i: int|
            0 <= i < list.len() ==> attributes_map(list)[(#[trigger] list[i]).key] == list[i].value@,
    decreases list.len(),
{
    if list.len() > 0 {
        let front = list.drop_last();
        let last = list.last();
        lemma_attributes_map(front);
        assert(attributes_map(list) == attributes_map(front).insert(last.key, last.value@));
        assert forall|k: Key| #[trigger] attributes_map(list).contains_key(k) <==> lists_key(list, k) by {
            if attributes_map(list).contains_key(k) {
                if k == last.key {
                    assert(list[list.len() - 1].key == k);
                } else {
                    assert(attributes_map(front).contains_key(k));
                    assert(lists_key(front, k));
                    let i = choose|i: int| 0 <= i < front.len() && (#[trigger] front[i]).key == k;
                    assert(list[i].key == k);
                }
            }
            if lists_key(list, k) {
                let i = choose|i: int| 0 <= i < list.len() && (#[trigger] list[i]).key == k;
                if i < front.len() {
                    assert(front[i].key == k);
                    assert(lists_key(front, k));
                    assert(attributes_map(front).contains_key(k));
                }
            }
        }
        if distinct_keys(list) {
            assert(distinct_keys(front)) by {
                assert forall|i: int, j: int| 0 <= i < j < front.len() implies
                    (#[trigger] front[i]).key != (#[trigger] front[j]).key by {
                    assert(list[i].key != list[j].key);
                }
            }
            assert forall|i: int| 0 <= i < list.len() implies
                attributes_map(list)[(#[trigger] list[i]).key] == list[i].value@ by {
                if i < front.len() {
                    assert(list[i].key != list[list.len() - 1].key);
                    assert(front[i].key == list[i].key);
                }
            }
        }
    }
}

/// A span: a name and the attributes recorded so far.
#[derive(Debug)]
pub struct Span {
    name: String,
    attributes: Vec<Attribute>,
}

/// The model of a `Span`.
pub struct SpanView {
    pub name: Seq<char>,
    pub attributes: Map<Key, ValueView>,
}

impl View for Span {
    type V = SpanView;

    closed spec fn view(&self) -> SpanView {
        SpanView { name: self.name@, attributes: attributes_map(self.attributes@) }
    }
}

/// What recording `value` under `key` makes of the attributes `before`: the
/// first value of a key stays.
pub open spec fn record_once(before: Map<Key, ValueView>, key: Key, value: ValueView) -> Map<
    Key,
    ValueView,
> {
    if before.contains_key(key) {
        before
    } else {
        before.insert(key, value)
    }
}

impl Span {
    #[verifier::type_invariant]
    spec fn well_formed(&self) -> bool {
        distinct_keys(self.attributes@)
    }

    /// A span with the given name and no attribute.
    pub fn new(name: &str) -> (span: Span)
        ensures
            span@.name == name@,
            span@.attributes == Map::<Key, ValueView>::empty(),
    {
        Span { name: String::from_str(name), attributes: Vec::new() }
    }

    /// The span's name.
    pub fn name(&self) -> (name: &str)
        ensures
            name@ == self@.name,
    {
        self.name.as_str()
    }

    /// The value recorded under `key`, if any.
    pub fn get(&self, key: Key) -> (found: Option<&Value>)
        ensures
            match found {
                Some(value) => self@.attributes.contains_key(key) && self@.attributes[key] == value@,
                None => !self@.attributes.contains_key(key),
            },
    {
        let mut i: usize = 0;
        while i < self.attributes.len()
            invariant
                0 <= i <= self.attributes@.len(),
                forall|j: int| 0 <= j < i ==> (#[trigger] self.attributes@[j]).key != key,
            decreases self.attributes@.len() - i,
        {
            if self.attributes[i].key == key {
                proof {
                    use_type_invariant(self);
                    lemma_attributes_map(self.attributes@);
                    assert(lists_key(self.attributes@, key));
                }
                return Some(&self.attributes[i].value);
            }
            i = i + 1;
        }
        proof {
            lemma_attributes_map(self.attributes@);
        }
        None
    }

    /// Whether a value was recorded under `key`.
    pub fn is_set(&self, key: Key) -> (set: bool)
        ensures
            set == self@.attributes.contains_key(key),
    {
        self.get(key).is_some()
    }

    /// Records `value` under `key`, unless the key was recorded before; says
    /// whether it did.
    pub fn record(&mut self, key: Key, value: Value) -> (recorded: bool)
        ensures
            final(self)@.name == old(self)@.name,
            recorded == !old(self)@.attributes.contains_key(key),
            final(self)@.attributes == record_once(old(self)@.attributes, key, value@),
    {
        if self.is_set(key) {
            return false;
        }
        proof {
            use_type_invariant(&*self);
            lemma_attributes_map(self.attributes@);
        }
        // The list is taken out, extended and put back: the span is whole at
        // every call that could unwind.
        let mut list: Vec<Attribute> = Vec::new();
        core::mem::swap(&mut self.attributes, &mut list);
        let ghost before = list@;
        list.push(Attribute { key, value });
        proof {
            assert(list@.drop_last() =~= before);
            assert forall|i: int, j: int| 0 <= i < j < list@.len() implies
                (#[trigger] list@[i]).key != (#[trigger] list@[j]).key by {
                assert(before[i].key == list@[i].key);
            }
        }
        self.attributes = list;
        true
    }

    /// The recorded attributes, each key once, in the order of recording.
    pub fn attributes(&self) -> (list: &Vec<Attribute>)
        ensures
            distinct_keys(list@),
            self@.attributes == attributes_map(list@),
    {
        proof {
            use_type_invariant(self);
        }
        &self.attributes
    }
}

} // verus!
