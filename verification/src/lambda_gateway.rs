use vstd::prelude::*;
use crate::strutil::ascii_lowercase;
use crate::strutil::lemma_lower_seq_idempotent;
use crate::strutil::lower_seq;

verus! {

/// An inbound envelope: of all the fields the platform sends, only the
/// decoded, typed body is kept. It can only be built around a payload that
/// decoded successfully, and is read-only afterwards.
#[derive(Debug)]
pub struct LambdaRequest<Data> {
    body: Data,
}

impl<Data> LambdaRequest<Data> {
    /// The payload the envelope carries.
    pub closed spec fn payload_spec(self) -> Data {
        self.body
    }

    /// Wraps an already-decoded payload.
    pub fn new(body: Data) -> (r: Self)
        ensures
            r.payload_spec() == body,
    {
        LambdaRequest { body }
    }

    /// The decoded payload, by reference.
    pub fn body(&self) -> (r: &Data)
        ensures
            *r == self.payload_spec(),
    {
        &self.body
    }
}

/// A payload the response builder can serialize as a body: the payload says
/// what its JSON text is, and serializes itself to exactly that text.
pub trait JsonBody {
    /// The JSON text that encodes this payload.
    spec fn json_view(&self) -> Seq<char>;

    /// Serializes the payload to its JSON text.
    fn to_json(&self) -> (r: String)
        ensures
            r@ == self.json_view(),
    ;
}

/// The header mapping that a list of (name, value) pairs denotes: pairs are
/// folded in order, so a later pair under the same name wins.
pub open spec fn header_map_of(h: Seq<(String, String)>) -> Map<Seq<char>, Seq<char>>
    decreases h.len(),
{
    if h.len() == 0 {
        Map::empty()
    } else {
        header_map_of(h.drop_last()).insert(h.last().0@, h.last().1@)
    }
}

/// Well-formed header storage: names are distinct and already lowercased.
pub open spec fn headers_wf(h: Seq<(String, String)>) -> bool {
    &&& forall|i: int, j: int| 0 <= i < j < h.len() ==> h[i].0@ != h[j].0@
    &&& forall|i: int| 0 <= i < h.len() ==> lower_seq(#[trigger] h[i].0@) == h[i].0@
}

/// A name is in the denoted mapping exactly when some pair carries it.
proof fn lemma_header_map_contains(h: Seq<(String, String)>, k: Seq<char>)
    ensures
        header_map_of(h).contains_key(k) <==> exists|i: int| 0 <= i < h.len() && h[i].0@ == k,
    decreases h.len(),
{
    if h.len() > 0 {
        lemma_header_map_contains(h.drop_last(), k);
        assert(forall|i: int|
            0 <= i < h.len() - 1 ==> #[trigger] h.drop_last()[i].0@ == h[i].0@);
        if header_map_of(h).contains_key(k) {
            if h.last().0@ == k {
                assert(h[h.len() - 1].0@ == k);
            }
        }
        if exists|i: int| 0 <= i < h.len() && h[i].0@ == k {
            let i = choose|i: int| 0 <= i < h.len() && h[i].0@ == k;
            if i < h.len() - 1 {
                assert(h.drop_last()[i].0@ == k);
            }
        }
    }
}

/// With distinct names, each pair's value is the one the mapping assigns to
/// its name.
proof fn lemma_header_map_value(h: Seq<(String, String)>, i: int)
    requires
        forall|p: int, q: int| 0 <= p < q < h.len() ==> h[p].0@ != h[q].0@,
        0 <= i < h.len(),
    ensures
        header_map_of(h).contains_key(h[i].0@),
        header_map_of(h)[h[i].0@] == h[i].1@,
    decreases h.len(),
{
    lemma_header_map_contains(h, h[i].0@);
    if i < h.len() - 1 {
        assert(forall|p: int|
            0 <= p < h.len() - 1 ==> #[trigger] h.drop_last()[p] == h[p]);
        lemma_header_map_value(h.drop_last(), i);
        assert(h.last().0@ != h[i].0@);
    }
}

/// Replacing the value stored under a pair's name updates the denoted
/// mapping at that name alone.
proof fn lemma_header_map_update(h: Seq<(String, String)>, i: int, p: (String, String))
    requires
        forall|x: int, y: int| 0 <= x < y < h.len() ==> h[x].0@ != h[y].0@,
        0 <= i < h.len(),
        p.0@ == h[i].0@,
    ensures
        header_map_of(h.update(i, p)) == header_map_of(h).insert(p.0@, p.1@),
    decreases h.len(),
{
    let hu = h.update(i, p);
    if i == h.len() - 1 {
        assert(hu.drop_last() =~= h.drop_last());
        assert(header_map_of(hu) == header_map_of(h.drop_last()).insert(p.0@, p.1@));
        assert(header_map_of(h.drop_last()).insert(h.last().0@, h.last().1@).insert(p.0@, p.1@)
            =~= header_map_of(h.drop_last()).insert(p.0@, p.1@));
    } else {
        assert(forall|x: int|
            0 <= x < h.len() - 1 ==> #[trigger] h.drop_last()[x] == h[x]);
        lemma_header_map_update(h.drop_last(), i, p);
        assert(hu.drop_last() =~= h.drop_last().update(i, p));
        assert(hu.last() == h.last());
        assert(header_map_of(hu) == header_map_of(h.drop_last()).insert(p.0@, p.1@).insert(
            h.last().0@,
            h.last().1@,
        ));
        assert(h.last().0@ != p.0@);
        assert(header_map_of(h.drop_last()).insert(p.0@, p.1@).insert(h.last().0@, h.last().1@)
            =~= header_map_of(h.drop_last()).insert(h.last().0@, h.last().1@).insert(
            p.0@,
            p.1@,
        ));
    }
}

/// Finds the index of the pair stored under `key`, if any.
fn find_header(h: &Vec<(String, String)>, key: &String) -> (r: Option<usize>)
    ensures
        match r {
            Some(i) => i < h@.len() && h@[i as int].0@ == key@,
            None => forall|j: int| 0 <= j < h@.len() ==> h@[j].0@ != key@,
        },
{
    let mut i: usize = 0;
    let n = h.len();
    while i < n
        invariant
            i <= n,
            n == h@.len(),
            forall|j: int| 0 <= j < i ==> h@[j].0@ != key@,
        decreases n - i,
    {
        if h[i].0 == *key {
            return Some(i);
        }
        i += 1;
    }
    None
}

/// The shape of a finished response, as the platform sees it.
#[verifier::ext_equal]
pub struct ResponseView {
    pub is_base64_encoded: bool,
    pub status_code: u16,
    pub headers: Map<Seq<char>, Seq<char>>,
    pub body: Seq<char>,
}

/// The response that finalizing a builder in the given state yields:
/// `is_base64_encoded` is always false, the rest is taken over verbatim.
pub open spec fn built_response(
    status_code: u16,
    headers: Map<Seq<char>, Seq<char>>,
    body: Seq<char>,
) -> ResponseView {
    ResponseView { is_base64_encoded: false, status_code, headers, body }
}

/// The outbound envelope handed back to the platform: immutable once built.
#[derive(Debug)]
pub struct LambdaResponse {
    is_base64_encoded: bool,
    status_code: u16,
    headers: Vec<(String, String)>,
    body: String,
}

impl View for LambdaResponse {
    type V = ResponseView;

    closed spec fn view(&self) -> ResponseView {
        ResponseView {
            is_base64_encoded: self.is_base64_encoded,
            status_code: self.status_code,
            headers: header_map_of(self.headers@),
            body: self.body@,
        }
    }
}

impl LambdaResponse {
    #[verifier::type_invariant]
    spec fn wf(self) -> bool {
        headers_wf(self.headers@)
    }

    /// Whether the body is base64-encoded; this system never encodes it.
    pub fn is_base64_encoded(&self) -> (r: bool)
        ensures
            r == self@.is_base64_encoded,
    {
        self.is_base64_encoded
    }

    /// The HTTP status code of the response.
    pub fn status_code(&self) -> (r: u16)
        ensures
            r == self@.status_code,
    {
        self.status_code
    }

    /// The response body text.
    pub fn body_str(&self) -> (r: &str)
        ensures
            r@ == self@.body,
    {
        self.body.as_str()
    }

    /// Case-insensitive header lookup: the name is lowercased, then looked up
    /// in the header mapping.
    pub fn header(&self, name: &str) -> (r: Option<&String>)
        ensures
            match r {
                Some(v) => self@.headers.contains_key(lower_seq(name@)) && v@ == self@.headers[
                    lower_seq(name@)
                ],
                None => !self@.headers.contains_key(lower_seq(name@)),
            },
    {
        proof {
            use_type_invariant(&*self);
        }
        let key = ascii_lowercase(name);
        match find_header(&self.headers, &key) {
            Some(i) => {
                proof {
                    lemma_header_map_value(self.headers@, i as int);
                }
                Some(&self.headers[i].1)
            },
            None => {
                proof {
                    lemma_header_map_contains(self.headers@, lower_seq(name@));
                }
                None
            },
        }
    }

    /// The stored headers as (name, value) pairs; names are lowercased and
    /// distinct, and the pairs denote exactly the response's header mapping.
    pub fn header_pairs(&self) -> (r: &Vec<(String, String)>)
        ensures
            header_map_of(r@) == self@.headers,
            headers_wf(r@),
    {
        proof {
            use_type_invariant(&*self);
        }
        &self.headers
    }
}

/// A staging object for one response: configuration calls chain, and the
/// terminal `build` consumes the builder.
#[derive(Debug)]
pub struct LambdaResponseBuilder {
    status_code: u16,
    headers: Vec<(String, String)>,
    body: String,
}

impl LambdaResponseBuilder {
    #[verifier::type_invariant]
    spec fn wf(self) -> bool {
        headers_wf(self.headers@)
    }

    /// The staged status code.
    pub closed spec fn status_spec(self) -> u16 {
        self.status_code
    }

    /// The staged header mapping, under lowercased names.
    pub closed spec fn headers_spec(self) -> Map<Seq<char>, Seq<char>> {
        header_map_of(self.headers@)
    }

    /// The staged body text.
    pub closed spec fn body_spec(self) -> Seq<char> {
        self.body@
    }

    /// A fresh builder: status 200, no headers, empty body.
    pub fn new() -> (r: Self)
        ensures
            r.status_spec() == 200,
            r.headers_spec() == Map::<Seq<char>, Seq<char>>::empty(),
            r.body_spec() == Seq::<char>::empty(),
    {
        LambdaResponseBuilder { status_code: 200, headers: Vec::new(), body: String::new() }
    }

    /// Sets the status code, overwriting any previous value. The code is not
    /// validated; the caller is trusted.
    pub fn with_status(self, code: u16) -> (r: Self)
        ensures
            r.status_spec() == code,
            r.headers_spec() == self.headers_spec(),
            r.body_spec() == self.body_spec(),
    {
        proof {
            use_type_invariant(&self);
        }
        let mut s = self;
        s.status_code = code;
        s
    }

    /// Inserts a header. The name is lowercased before storage, so inserts
    /// under different casings of one name collide and the later one wins.
    pub fn with_header(self, name: &str, value: &str) -> (r: Self)
        ensures
            r.status_spec() == self.status_spec(),
            r.body_spec() == self.body_spec(),
            r.headers_spec() == self.headers_spec().insert(lower_seq(name@), value@),
    {
        proof {
            use_type_invariant(&self);
        }
        let LambdaResponseBuilder { status_code, mut headers, body } = self;
        let key = ascii_lowercase(name);
        let val = String::from_str(value);
        proof {
            lemma_lower_seq_idempotent(name@);
        }
        match find_header(&headers, &key) {
            Some(i) => {
                proof {
                    lemma_header_map_update(headers@, i as int, (key, val));
                    assert(headers@.update(i as int, (key, val))[i as int].0@ == key@);
                    assert(forall|x: int, y: int|
                        0 <= x < y < headers@.len() ==> headers@.update(
                            i as int,
                            (key, val),
                        )[x].0@ != headers@.update(i as int, (key, val))[y].0@);
                }
                headers[i] = (key, val);
            },
            None => {
                proof {
                    let pushed = headers@.push((key, val));
                    assert(pushed.drop_last() =~= headers@);
                    assert(header_map_of(pushed) == header_map_of(headers@).insert(key@, val@));
                    assert(forall|x: int|
                        0 <= x < headers@.len() ==> #[trigger] pushed[x] == headers@[x]);
                }
                headers.push((key, val));
            },
        }
        LambdaResponseBuilder { status_code, headers, body }
    }

    /// Serializes `data` as the body. A "content-type: application/json"
    /// header is added only when no content-type header has been set yet; an
    /// explicitly set one is never overridden.
    pub fn with_json<D: JsonBody>(self, data: &D) -> (r: Self)
        ensures
            r.status_spec() == self.status_spec(),
            r.body_spec() == data.json_view(),
            r.headers_spec() == if self.headers_spec().contains_key("content-type"@) {
                self.headers_spec()
            } else {
                self.headers_spec().insert("content-type"@, "application/json"@)
            },
    {
        proof {
            use_type_invariant(&self);
        }
        let mut s = self;
        let key = String::from_str("content-type");
        let present = match find_header(&s.headers, &key) {
            Some(_) => true,
            None => false,
        };
        proof {
            lemma_header_map_contains(s.headers@, "content-type"@);
        }
        if !present {
            s = s.with_header("content-type", "application/json");
            proof {
                reveal_strlit("content-type");
                assert(lower_seq("content-type"@) =~= "content-type"@);
            }
        }
        let body = data.to_json();
        proof {
            use_type_invariant(&s);
        }
        s.body = body;
        s
    }

    /// Finalizes the response: `is_base64_encoded` is hard-coded to false,
    /// status code, headers and body are copied verbatim. The builder is
    /// consumed; a builder in the same state always yields the same response.
    pub fn build(self) -> (r: LambdaResponse)
        ensures
            r@ == built_response(self.status_spec(), self.headers_spec(), self.body_spec()),
    {
        proof {
            use_type_invariant(&self);
        }
        let response = LambdaResponse {
            is_base64_encoded: false,
            status_code: self.status_code,
            headers: self.headers,
            body: self.body,
        };
        proof {
            assert(response@ =~= built_response(
                self.status_spec(),
                self.headers_spec(),
                self.body_spec(),
            ));
        }
        response
    }
}

/// Header lookups are case-insensitive: after an insert under any casing of a
/// name, a lookup under any other casing of the same name yields the inserted
/// value, whatever was stored before.
pub proof fn lemma_header_case_insensitive(
    headers: Map<Seq<char>, Seq<char>>,
    name_inserted: Seq<char>,
    name_queried: Seq<char>,
    value: Seq<char>,
)
    requires
        lower_seq(name_inserted) == lower_seq(name_queried),
    ensures
        headers.insert(lower_seq(name_inserted), value).contains_key(lower_seq(name_queried)),
        headers.insert(lower_seq(name_inserted), value)[lower_seq(name_queried)] == value,
{
}

/// Of two inserts under casings of the same name, the later one wins.
pub proof fn lemma_later_header_wins(
    headers: Map<Seq<char>, Seq<char>>,
    name_first: Seq<char>,
    name_second: Seq<char>,
    value_first: Seq<char>,
    value_second: Seq<char>,
)
    requires
        lower_seq(name_first) == lower_seq(name_second),
    ensures
        headers.insert(lower_seq(name_first), value_first).insert(
            lower_seq(name_second),
            value_second,
        )[lower_seq(name_first)] == value_second,
{
}

/// Building is a pure function of the builder's staged state: two builders in
/// structurally equal states yield structurally equal responses.
pub proof fn lemma_build_deterministic(b1: LambdaResponseBuilder, b2: LambdaResponseBuilder)
    requires
        b1.status_spec() == b2.status_spec(),
        b1.headers_spec() == b2.headers_spec(),
        b1.body_spec() == b2.body_spec(),
    ensures
        built_response(b1.status_spec(), b1.headers_spec(), b1.body_spec()) == built_response(
            b2.status_spec(),
            b2.headers_spec(),
            b2.body_spec(),
        ),
{
}

} // verus!
