//! The client: endpoint selection, payload validation, request-path
//! construction, and the cached region list.

use vstd::prelude::*;

verus! {

/// The two endpoint families the remote service offers.
///
/// `Timezone` queries the current time of a named region; `Ip` queries the
/// current time at the caller's own address.
#[derive(Debug, Clone, Copy)]
pub enum Endpoint {
    /// The "timezone" endpoint.
    Timezone,
    /// The "ip" endpoint.
    Ip,
}

/// The name of an endpoint as it appears in request URLs.
pub open spec fn endpoint_name(e: Endpoint) -> Seq<char> {
    match e {
        Endpoint::Timezone => "timezone"@,
        Endpoint::Ip => "ip"@,
    }
}

impl Endpoint {
    /// The endpoint's name, `"timezone"` or `"ip"`.
    pub fn name(&self) -> (r: String)
        ensures
            r@ == endpoint_name(*self),
    {
        match self {
            Endpoint::Timezone => String::from_str("timezone"),
            Endpoint::Ip => String::from_str("ip"),
        }
    }

    /// The URL every lookup request of this endpoint starts with.
    pub fn base_url(&self) -> (r: String)
        ensures
            r@ == base_url_of(*self),
    {
        proof {
            reveal_strlit("https://worldtimeapi.org/api/");
            reveal_strlit("timezone");
            reveal_strlit("ip");
            reveal_strlit("https://worldtimeapi.org/api/timezone");
            reveal_strlit("https://worldtimeapi.org/api/ip");
        }
        let name = self.name();
        let r = String::from_str("https://worldtimeapi.org/api/").concat(name.as_str());
        proof {
            assert(r@ =~= base_url_of(*self));
        }
        r
    }

    /// The URL the region list of this endpoint is fetched from.
    pub fn listing_url(&self) -> (r: String)
        ensures
            r@ == listing_url_of(*self),
    {
        match self {
            Endpoint::Timezone => String::from_str("https://worldtimeapi.org/api/timezone/"),
            Endpoint::Ip => String::from_str("https://worldtimeapi.org/api/ip"),
        }
    }
}

/// The base URL of an endpoint: the service root followed by the endpoint name.
pub open spec fn base_url_of(e: Endpoint) -> Seq<char> {
    match e {
        Endpoint::Timezone => "https://worldtimeapi.org/api/timezone"@,
        Endpoint::Ip => "https://worldtimeapi.org/api/ip"@,
    }
}

/// The listing URL of an endpoint, queried once at client construction.
pub open spec fn listing_url_of(e: Endpoint) -> Seq<char> {
    match e {
        Endpoint::Timezone => "https://worldtimeapi.org/api/timezone/"@,
        Endpoint::Ip => "https://worldtimeapi.org/api/ip"@,
    }
}

/// Character-by-character string equality, `r == (a@ == b@)`.
fn str_eq(a: &str, b: &str) -> (r: bool)
    ensures
        r == (a@ == b@),
{
    let alen = a.unicode_len();
    let blen = b.unicode_len();
    if alen != blen {
        return false;
    }
    let mut i: usize = 0;
    while i < alen
        invariant
            alen == a@.len(),
            blen == b@.len(),
            alen == blen,
            i <= alen,
            forall|j: int| 0 <= j < i ==> a@[j] == b@[j],
        decreases alen - i,
    {
        if a.get_char(i) != b.get_char(i) {
            return false;
        }
        i += 1;
    }
    proof {
        assert(a@ =~= b@);
    }
    true
}

/// A lookup payload: key/value pairs in insertion order.
///
/// Keys are meant to come from the vocabulary `"area"`, `"location"`,
/// `"region"`; nothing is enforced at insertion, and [`build_path`] rejects
/// anything else.  When a key was inserted twice, the first insertion wins.
pub struct Payload {
    entries: Vec<(String, String)>,
}

impl View for Payload {
    type V = Seq<(Seq<char>, Seq<char>)>;

    closed spec fn view(&self) -> Seq<(Seq<char>, Seq<char>)> {
        self.entries@.map_values(|e: (String, String)| (e.0@, e.1@))
    }
}

/// Whether some entry of the payload has key `k`.
pub open spec fn has_key(p: Seq<(Seq<char>, Seq<char>)>, k: Seq<char>) -> bool {
    exists|i: int| 0 <= i < p.len() && p[i].0 == k
}

/// The value of the first entry with key `k` (the empty string when none has it).
pub open spec fn value_of(p: Seq<(Seq<char>, Seq<char>)>, k: Seq<char>) -> Seq<char>
    decreases p.len(),
{
    if p.len() == 0 {
        Seq::empty()
    } else if p[0].0 == k {
        p[0].1
    } else {
        value_of(p.drop_first(), k)
    }
}

proof fn lemma_value_of_first(p: Seq<(Seq<char>, Seq<char>)>, k: Seq<char>, i: int)
    requires
        0 <= i < p.len(),
        p[i].0 == k,
        forall|j: int| 0 <= j < i ==> p[j].0 != k,
    ensures
        value_of(p, k) == p[i].1,
    decreases i,
{
    if i > 0 {
        lemma_value_of_first(p.drop_first(), k, i - 1);
    }
}

impl Payload {
    /// An empty payload.
    pub fn new() -> (p: Payload)
        ensures
            p@ == Seq::<(Seq<char>, Seq<char>)>::empty(),
    {
        let p = Payload { entries: Vec::new() };
        proof {
            assert(p@ =~= Seq::<(Seq<char>, Seq<char>)>::empty());
        }
        p
    }

    /// Appends one key/value pair.
    pub fn insert(&mut self, key: &str, value: &str)
        ensures
            final(self)@ == old(self)@.push((key@, value@)),
    {
        self.entries.push((String::from_str(key), String::from_str(value)));
        proof {
            assert(self@ =~= old(self)@.push((key@, value@)));
        }
    }

    /// The number of entries.
    pub fn len(&self) -> (n: usize)
        ensures
            n == self@.len(),
    {
        self.entries.len()
    }
}

/// The first entry with key `key`, if the payload has one.
fn find_value<'a>(payload: &'a Payload, key: &str) -> (r: Option<&'a String>)
    ensures
        (r matches Some(v) ==> has_key(payload@, key@) && v@ == value_of(payload@, key@)),
        (r is None ==> !has_key(payload@, key@)),
{
    let n = payload.entries.len();
    let mut i: usize = 0;
    while i < n
        invariant
            n == payload@.len(),
            n == payload.entries@.len(),
            i <= n,
            forall|j: int| 0 <= j < i ==> payload@[j].0 != key@,
        decreases n - i,
    {
        proof {
            let entry = payload.entries@[i as int];
            assert(payload@[i as int] == (entry.0@, entry.1@));
        }
        if str_eq(payload.entries[i].0.as_str(), key) {
            proof {
                assert(payload@[i as int].0 == key@);
                lemma_value_of_first(payload@, key@, i as int);
            }
            return Some(&payload.entries[i].1);
        }
        i += 1;
    }
    None
}

#[verifier::external_type_specification]
#[verifier::external_body]
pub struct ExValue(serde_json::Value);

#[verifier::external_type_specification]
#[verifier::external_body]
pub struct ExJsonError(serde_json::Error);

/// What a lookup or a client construction can fail with.
///
/// `InvalidKey` and `MissingKey` are usage errors: the caller handed a bad
/// payload, and the operation stops before any request is built.  `Decode`
/// carries the JSON parser's error for a region-list body that was not a
/// valid JSON array.
#[derive(Debug)]
pub enum ClientError {
    /// A payload key outside the vocabulary `"area"`, `"location"`, `"region"`.
    InvalidKey(String),
    /// A key the payload needed but did not have: `"area"` always,
    /// `"region"` when it was given without `"location"`.
    MissingKey(String),
    /// The region-list body did not parse as a JSON array.
    Decode(serde_json::Error),
}

impl ClientError {
    /// Whether this error blames the caller's payload rather than the remote data.
    pub fn is_usage(&self) -> (r: bool)
        ensures
            r == ((self matches ClientError::InvalidKey(_)) || (self
                matches ClientError::MissingKey(_))),
    {
        match self {
            ClientError::InvalidKey(_) => true,
            ClientError::MissingKey(_) => true,
            ClientError::Decode(_) => false,
        }
    }

    /// A short description of the error.
    pub fn message(&self) -> (r: String)
        ensures
            (self matches ClientError::InvalidKey(k) ==> r@ == "Invalid key: "@ + k@),
            (self matches ClientError::MissingKey(k) ==> r@ == "Missing key: "@ + k@),
            (self matches ClientError::Decode(_) ==> r@ == "JSON decode error"@),
    {
        match self {
            ClientError::InvalidKey(k) => String::from_str("Invalid key: ").concat(k.as_str()),
            ClientError::MissingKey(k) => String::from_str("Missing key: ").concat(k.as_str()),
            ClientError::Decode(_) => String::from_str("JSON decode error"),
        }
    }
}

/// Whether `k` belongs to the payload vocabulary.
pub open spec fn allowed_key(k: Seq<char>) -> bool {
    k == "area"@ || k == "location"@ || k == "region"@
}

/// Whether every key of the payload belongs to the vocabulary.
pub open spec fn keys_allowed(p: Seq<(Seq<char>, Seq<char>)>) -> bool {
    forall|i: int| 0 <= i < p.len() ==> allowed_key(#[trigger] p[i].0)
}

/// Whether a payload passes every validation rule: all keys in the
/// vocabulary, `"area"` present, and `"region"` only beside `"location"`.
pub open spec fn payload_ok(p: Seq<(Seq<char>, Seq<char>)>) -> bool {
    &&& keys_allowed(p)
    &&& has_key(p, "area"@)
    &&& (has_key(p, "region"@) ==> has_key(p, "location"@))
}

/// The request path of a valid payload: `/area`, then `/location` when
/// present, then `/region` when both it and `/location` are present.
pub open spec fn path_of(p: Seq<(Seq<char>, Seq<char>)>) -> Seq<char> {
    let head = "/"@ + value_of(p, "area"@);
    if has_key(p, "location"@) {
        let mid = head + "/"@ + value_of(p, "location"@);
        if has_key(p, "region"@) {
            mid + "/"@ + value_of(p, "region"@)
        } else {
            mid
        }
    } else {
        head
    }
}

/// Validates a payload and builds its request path.
///
/// Checks run in a fixed order: first every key must be in the vocabulary,
/// then `"area"` must be present, then `"region"` must not appear without
/// `"location"`.  On success the path is exactly [`path_of`] of the payload;
/// each violation is reported as the matching usage error, and no path is
/// built.
pub fn build_path(payload: &Payload) -> (r: Result<String, ClientError>)
    ensures
        (payload_ok(payload@) ==> (r matches Ok(s) && s@ == path_of(payload@))),
        (!keys_allowed(payload@) ==> (r matches Err(e) && (e matches ClientError::InvalidKey(k)
            && has_key(payload@, k@) && !allowed_key(k@)))),
        (keys_allowed(payload@) && !has_key(payload@, "area"@) ==> (r matches Err(e) && (e
            matches ClientError::MissingKey(k) && k@ == "area"@))),
        (keys_allowed(payload@) && has_key(payload@, "area"@) && has_key(payload@, "region"@)
            && !has_key(payload@, "location"@) ==> (r matches Err(e) && (e
            matches ClientError::MissingKey(k) && k@ == "region"@))),
{
    let n = payload.entries.len();
    let mut i: usize = 0;
    while i < n
        invariant
            n == payload@.len(),
            n == payload.entries@.len(),
            i <= n,
            forall|j: int| 0 <= j < i ==> allowed_key(#[trigger] payload@[j].0),
        decreases n - i,
    {
        proof {
            let entry = payload.entries@[i as int];
            assert(payload@[i as int] == (entry.0@, entry.1@));
        }
        let key = &payload.entries[i].0;
        if !(str_eq(key.as_str(), "area") || str_eq(key.as_str(), "location") || str_eq(
            key.as_str(),
            "region",
        )) {
            proof {
                assert(payload@[i as int].0 == key@);
            }
            return Err(ClientError::InvalidKey(key.clone()));
        }
        i += 1;
    }
    let area = match find_value(payload, "area") {
        Some(v) => v,
        None => {
            return Err(ClientError::MissingKey(String::from_str("area")));
        },
    };
    let mut args = String::from_str("/");
    args.append(area.as_str());
    match find_value(payload, "location") {
        Some(location) => {
            args.append("/");
            args.append(location.as_str());
            match find_value(payload, "region") {
                Some(region) => {
                    args.append("/");
                    args.append(region.as_str());
                },
                None => {},
            }
        },
        None => {
            if find_value(payload, "region").is_some() {
                return Err(ClientError::MissingKey(String::from_str("region")));
            }
        },
    }
    Ok(args)
}

/// The region list a JSON text parses to: `Some` of the array's elements
/// when the text is a JSON array, `None` when it is not.
pub uninterp spec fn json_list_of(s: Seq<char>) -> Option<Seq<serde_json::Value>>;

/// Relies on serde_json::from_str for `Vec<serde_json::Value>`: whether the
/// text parses, and to what, is a function of the text alone.
#[verifier::external_body]
fn parse_region_list(body: &str) -> (r: Result<Vec<serde_json::Value>, serde_json::Error>)
    ensures
        (r matches Ok(v) ==> json_list_of(body@) == Some(v@)),
        (r matches Err(_) ==> json_list_of(body@) is None),
{
    serde_json::from_str::<Vec<serde_json::Value>>(body)
}

/// A client bound to one endpoint.
///
/// It owns the base URL every lookup starts from and the region list
/// captured at construction; neither changes afterwards, and no method
/// takes the client mutably.
#[derive(Debug)]
pub struct Client {
    regions: Vec<serde_json::Value>,
    url: String,
}

impl Client {
    /// The base URL lookups of this client are built on.
    pub closed spec fn url_view(&self) -> Seq<char> {
        self.url@
    }

    /// The region list captured at construction.
    pub closed spec fn regions_view(&self) -> Seq<serde_json::Value> {
        self.regions@
    }

    /// A client over an explicit base URL and region list.
    pub fn from_parts(url: String, regions: Vec<serde_json::Value>) -> (c: Client)
        ensures
            c.url_view() == url@,
            c.regions_view() == regions@,
    {
        Client { regions, url }
    }

    /// A client for `endpoint`, over the body its listing URL answered with.
    ///
    /// The body must be a JSON array; its elements become the cached region
    /// list.  A body that is not a JSON array is a decode error, and no
    /// client is built.
    pub fn new(endpoint: Endpoint, listing_body: &str) -> (r: Result<Client, ClientError>)
        ensures
            (r matches Ok(c) ==> json_list_of(listing_body@) matches Some(v) && c.regions_view()
                == v && c.url_view() == base_url_of(endpoint)),
            (r matches Err(e) ==> json_list_of(listing_body@) is None && e
                matches ClientError::Decode(_)),
    {
        let regions = match parse_region_list(listing_body) {
            Ok(v) => v,
            Err(e) => {
                return Err(ClientError::Decode(e));
            },
        };
        let url = endpoint.base_url();
        Ok(Client { regions, url })
    }

    /// Validates `payload` and builds the full request URL of the lookup:
    /// the client's base URL followed by [`path_of`] of the payload.
    /// A payload that fails validation is reported exactly as by
    /// [`build_path`], and no URL is built.
    pub fn request_url(&self, payload: &Payload) -> (r: Result<String, ClientError>)
        ensures
            (payload_ok(payload@) ==> (r matches Ok(u) && u@ == self.url_view() + path_of(
                payload@,
            ))),
            (!keys_allowed(payload@) ==> (r matches Err(e) && (e
                matches ClientError::InvalidKey(k) && has_key(payload@, k@) && !allowed_key(
                k@,
            )))),
            (keys_allowed(payload@) && !has_key(payload@, "area"@) ==> (r matches Err(e) && (e
                matches ClientError::MissingKey(k) && k@ == "area"@))),
            (keys_allowed(payload@) && has_key(payload@, "area"@) && has_key(payload@, "region"@)
                && !has_key(payload@, "location"@) ==> (r matches Err(e) && (e
                matches ClientError::MissingKey(k) && k@ == "region"@))),
    {
        let path = match build_path(payload) {
            Ok(p) => p,
            Err(e) => {
                return Err(e);
            },
        };
        Ok(self.url.clone().concat(path.as_str()))
    }

    /// The region list captured at construction, unchanged by any lookup.
    pub fn regions(&self) -> (r: &[serde_json::Value])
        ensures
            r@ == self.regions_view(),
    {
        self.regions.as_slice()
    }
}

} // verus!
