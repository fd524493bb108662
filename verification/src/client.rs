//! A runtime model of the synthesized client type: the transport
//! handle, the base URL, and the default header collection, together
//! with the builder-style configuration operations the synthesized type
//! exposes. A configuration chain is a sequence of by-value
//! transformations; the header collection is read or cloned at request
//! time, never mutated during one.

use vstd::prelude::*;
use vstd::string::StringExecFns;

use base64::Engine;

verus! {

/// The standard encoding of a string's bytes, as computed by the
/// base64 crate's standard-alphabet engine.
pub uninterp spec fn base64_of(s: Seq<char>) -> Seq<char>;

/// Relies on base64's `Engine::encode` with the standard engine
/// `general_purpose::STANDARD`: the result is the standard encoding of
/// the argument's bytes, a function of the argument alone.
#[verifier::external_body]
fn base64_encode(s: &str) -> (r: String)
    ensures
        r@ == base64_of(s@),
{
    base64::engine::general_purpose::STANDARD.encode(s)
}

/// The transport handle's type, from the HTTP client crate. It is
/// opaque to this library, which constructs it, stores it, and hands it
/// out, and never looks inside.
#[verifier::external_type_specification]
#[verifier::external_body]
pub struct ExClient(reqwest::Client);

/// Relies on `reqwest::Client::new`: constructs a fresh transport
/// handle. No TLS backend is configured in this build, so construction
/// has nothing to initialize that could fail.
#[verifier::external_body]
fn new_transport_handle() -> reqwest::Client {
    reqwest::Client::new()
}

/// The map a header entry list denotes: a later entry overrides an
/// earlier one with the same name.
pub open spec fn entries_map(s: Seq<(String, String)>) -> Map<Seq<char>, Seq<char>>
    decreases s.len(),
{
    if s.len() == 0 {
        Map::empty()
    } else {
        entries_map(s.drop_last()).insert(s.last().0@, s.last().1@)
    }
}

/// The client's default header collection: header names to values,
/// names unique, last write wins.
#[derive(Debug, PartialEq, Eq)]
pub struct HeaderMap {
    entries: Vec<(String, String)>,
}

impl View for HeaderMap {
    type V = Map<Seq<char>, Seq<char>>;

    closed spec fn view(&self) -> Map<Seq<char>, Seq<char>> {
        entries_map(self.entries@)
    }
}

/// The entry at `i` whose name no later entry repeats decides the map's
/// value at that name.
proof fn lemma_entries_map_index(s: Seq<(String, String)>, i: int)
    requires
        0 <= i < s.len(),
        forall|k: int| i < k < s.len() ==> s[k].0@ != s[i].0@,
    ensures
        entries_map(s).contains_key(s[i].0@),
        entries_map(s)[s[i].0@] == s[i].1@,
    decreases s.len(),
{
    if i < s.len() - 1 {
        lemma_entries_map_index(s.drop_last(), i);
    }
}

/// A name no entry carries is not in the map.
proof fn lemma_entries_map_absent(s: Seq<(String, String)>, key: Seq<char>)
    requires
        forall|i: int| 0 <= i < s.len() ==> s[i].0@ != key,
    ensures
        !entries_map(s).contains_key(key),
    decreases s.len(),
{
    if s.len() > 0 {
        lemma_entries_map_absent(s.drop_last(), key);
    }
}

/// Replacing the unique entry that carries a name is inserting into the
/// denoted map.
proof fn lemma_entries_map_update(s: Seq<(String, String)>, i: int, p: (String, String))
    requires
        0 <= i < s.len(),
        s[i].0@ == p.0@,
        forall|k: int| 0 <= k < s.len() && k != i ==> s[k].0@ != p.0@,
    ensures
        entries_map(s.update(i, p)) == entries_map(s).insert(p.0@, p.1@),
    decreases s.len(),
{
    if i == s.len() - 1 {
        assert(s.update(i, p).drop_last() =~= s.drop_last());
        assert(entries_map(s.drop_last()).insert(s[i].0@, s[i].1@).insert(p.0@, p.1@)
            =~= entries_map(s.drop_last()).insert(p.0@, p.1@));
    } else {
        assert(s.update(i, p).drop_last() =~= s.drop_last().update(i, p));
        lemma_entries_map_update(s.drop_last(), i, p);
        assert(s.update(i, p).last() == s.last());
        assert(entries_map(s.drop_last()).insert(p.0@, p.1@).insert(s.last().0@, s.last().1@)
            =~= entries_map(s.drop_last()).insert(s.last().0@, s.last().1@).insert(p.0@, p.1@));
    }
}

impl HeaderMap {
    /// Header names are pairwise distinct.
    pub closed spec fn wf(&self) -> bool {
        forall|i: int, j: int|
            0 <= i < j < self.entries@.len() ==> self.entries@[i].0@ != self.entries@[j].0@
    }

    /// An empty header collection.
    pub fn new() -> (r: Self)
        ensures
            r.wf(),
            r@ == Map::<Seq<char>, Seq<char>>::empty(),
    {
        HeaderMap { entries: Vec::new() }
    }

    /// Looks a header up by name.
    pub fn get(&self, name: &String) -> (r: Option<&String>)
        requires
            self.wf(),
        ensures
            (match r {
                Some(v) => self@.contains_key(name@) && v@ == self@[name@],
                None => !self@.contains_key(name@),
            }),
    {
        let n = self.entries.len();
        let mut i: usize = 0;
        while i < n
            invariant
                i <= n,
                n == self.entries@.len(),
                self.wf(),
                forall|k: int| 0 <= k < i ==> self.entries@[k].0@ != name@,
            decreases n - i,
        {
            if self.entries[i].0 == *name {
                proof {
                    lemma_entries_map_index(self.entries@, i as int);
                }
                return Some(&self.entries[i].1);
            }
            i += 1;
        }
        proof {
            lemma_entries_map_absent(self.entries@, name@);
        }
        None
    }

    /// Inserts one header, overwriting the entry with the same name if
    /// one is present.
    pub fn insert(&mut self, name: String, value: String)
        requires
            old(self).wf(),
        ensures
            final(self).wf(),
            final(self)@ == old(self)@.insert(name@, value@),
    {
        let n = self.entries.len();
        let mut i: usize = 0;
        while i < n
            invariant
                i <= n,
                n == self.entries@.len(),
                self == old(self),
                self.wf(),
                forall|k: int| 0 <= k < i ==> self.entries@[k].0@ != name@,
            decreases n - i,
        {
            if self.entries[i].0 == *(&name) {
                proof {
                    let es = self.entries@;
                    assert(forall|k: int| 0 <= k < es.len() && k != i ==> es[k].0@ != name@);
                }
                let ghost es = self.entries@;
                self.entries.set(i, (name, value));
                proof {
                    lemma_entries_map_update(es, i as int, self.entries@[i as int]);
                    assert(forall|k: int| 0 <= k < self.entries@.len() && k != i ==> self.entries@[k]
                        == es[k]);
                }
                return ;
            }
            i += 1;
        }
        let ghost es = self.entries@;
        self.entries.push((name, value));
        proof {
            assert(self.entries@.drop_last() =~= es);
            assert(self.entries@.last().0@ == name@);
        }
    }

    /// Merges another header collection into this one; on a name
    /// collision the entry of `other` wins.
    pub fn extend(&mut self, other: &HeaderMap)
        requires
            old(self).wf(),
            other.wf(),
        ensures
            final(self).wf(),
            final(self)@ == old(self)@.union_prefer_right(other@),
    {
        let ghost os = other.entries@;
        let n = other.entries.len();
        let mut i: usize = 0;
        proof {
            assert(os.subrange(0, 0) =~= Seq::<(String, String)>::empty());
            assert(old(self)@.union_prefer_right(entries_map(os.subrange(0, 0))) =~= old(self)@);
        }
        while i < n
            invariant
                i <= n,
                n == os.len(),
                os == other.entries@,
                self.wf(),
                self@ == old(self)@.union_prefer_right(entries_map(os.subrange(0, i as int))),
            decreases n - i,
        {
            let pair = &other.entries[i];
            let ghost before = self@;
            self.insert(pair.0.clone(), pair.1.clone());
            proof {
                assert(os.subrange(0, i as int + 1).drop_last() =~= os.subrange(0, i as int));
                assert(os.subrange(0, i as int + 1).last() == os[i as int]);
                assert(old(self)@.union_prefer_right(
                    entries_map(os.subrange(0, i as int)).insert(os[i as int].0@, os[i as int].1@),
                ) =~= before.insert(os[i as int].0@, os[i as int].1@));
            }
            i += 1;
        }
        proof {
            assert(os.subrange(0, n as int) =~= os);
            assert(other@ == entries_map(os));
        }
    }
}

/// The synthesized client: a transport handle, a base URL, and the
/// default headers attached to every request, with the builder-style
/// configuration the emitted type definition carries.
pub struct ApiClient {
    client: reqwest::Client,
    base_url: String,
    default_headers: HeaderMap,
}

impl ApiClient {
    /// The client's base URL.
    pub closed spec fn spec_base_url(&self) -> Seq<char> {
        self.base_url@
    }

    /// The client's default header set.
    pub closed spec fn spec_headers(&self) -> Map<Seq<char>, Seq<char>> {
        self.default_headers@
    }

    /// The header collection is well formed.
    pub closed spec fn wf(&self) -> bool {
        self.default_headers.wf()
    }

    /// A new client for the given base URL: a fresh transport handle
    /// and an empty default header set.
    pub fn new(base_url: String) -> (r: Self)
        ensures
            r.wf(),
            r.spec_base_url() == base_url@,
            r.spec_headers() == Map::<Seq<char>, Seq<char>>::empty(),
    {
        ApiClient {
            client: new_transport_handle(),
            base_url,
            default_headers: HeaderMap::new(),
        }
    }

    /// Inserts or overwrites one default header and returns the
    /// configured client (builder chaining).
    pub fn with_default_header(self, key: String, value: String) -> (r: Self)
        requires
            self.wf(),
        ensures
            r.wf(),
            r.spec_base_url() == self.spec_base_url(),
            r.spec_headers() == self.spec_headers().insert(key@, value@),
    {
        let mut c = self;
        c.default_headers.insert(key, value);
        c
    }

    /// Merges a header set into the default headers; on a name
    /// collision the merged-in entry wins.
    pub fn with_default_headers(self, headers: HeaderMap) -> (r: Self)
        requires
            self.wf(),
            headers.wf(),
        ensures
            r.wf(),
            r.spec_base_url() == self.spec_base_url(),
            r.spec_headers() == self.spec_headers().union_prefer_right(headers@),
    {
        let mut c = self;
        c.default_headers.extend(&headers);
        c
    }

    /// Sets the `Authorization` header to the basic scheme: the
    /// standard encoding of `username:password`.
    pub fn with_basic_auth(self, username: &str, password: &str) -> (r: Self)
        requires
            self.wf(),
        ensures
            r.wf(),
            r.spec_base_url() == self.spec_base_url(),
            r.spec_headers() == self.spec_headers().insert(
                "Authorization"@,
                "Basic "@ + base64_of(username@ + ":"@ + password@),
            ),
    {
        let mut credential: String = username.to_owned();
        credential.append(":");
        credential.append(password);
        let encoded = base64_encode(credential.as_str());
        let mut value: String = "Basic ".to_owned();
        value.append(encoded.as_str());
        self.with_default_header("Authorization".to_owned(), value)
    }

    /// Sets the `Authorization` header to the bearer scheme with the
    /// given token.
    pub fn with_bearer_auth(self, token: String) -> (r: Self)
        requires
            self.wf(),
        ensures
            r.wf(),
            r.spec_base_url() == self.spec_base_url(),
            r.spec_headers() == self.spec_headers().insert("Authorization"@, "Bearer "@ + token@),
    {
        let mut value: String = "Bearer ".to_owned();
        value.append(token.as_str());
        self.with_default_header("Authorization".to_owned(), value)
    }

    /// Read access to the transport handle.
    pub fn client(&self) -> &reqwest::Client {
        &self.client
    }

    /// Read access to the base URL.
    pub fn base_url(&self) -> (r: &str)
        ensures
            r@ == self.spec_base_url(),
    {
        self.base_url.as_str()
    }

    /// Read access to the default headers.
    pub fn default_headers(&self) -> (r: &HeaderMap)
        requires
            self.wf(),
        ensures
            r.wf(),
            r@ == self.spec_headers(),
    {
        &self.default_headers
    }
}

} // verus!
