use vstd::prelude::*;

verus! {

/// The reason phrase that `http` gives a status code, if it gives one.
pub uninterp spec fn canonical_reason_of(code: u16) -> Option<Seq<char>>;

/// The view of an optional string slice.
pub open spec fn opt_str_view(s: Option<&str>) -> Option<Seq<char>> {
    match s {
        Some(t) => Some(t@),
        None => None,
    }
}

/// The view of an optional string.
pub open spec fn opt_string_view(s: Option<String>) -> Option<Seq<char>> {
    match s {
        Some(t) => Some(t@),
        None => None,
    }
}

/// Relies on `http::StatusCode::canonical_reason`: the standard reason phrase of
/// a code, when the code has one. The code is first turned into `http`'s type
/// by `http::StatusCode::from_u16`, which accepts every code from 100 to 999.
#[verifier::external_body]
fn reason_phrase(code: u16) -> (r: Option<&'static str>)
    requires
        is_status_code(code),
    ensures
        opt_str_view(r) == canonical_reason_of(code),
{
    match http::StatusCode::from_u16(code) {
        Ok(status) => status.canonical_reason(),
        Err(_) => None,
    }
}

/// An HTTP status code: an integer from 100 to 999.
#[derive(Clone, Copy, Debug, PartialEq, Eq)]
pub struct StatusCode {
    code: u16,
}

/// The error returned for an integer that is no status code.
#[derive(Clone, Copy, Debug, PartialEq, Eq)]
pub struct InvalidStatusCode {}

impl View for StatusCode {
    type V = u16;

    closed spec fn view(&self) -> u16 {
        self.code
    }
}

/// Whether an integer is a status code.
pub open spec fn is_status_code(code: u16) -> bool {
    100 <= code <= 999
}

impl StatusCode {
    #[verifier::type_invariant]
    spec fn valid(self) -> bool {
        is_status_code(self.code)
    }

    /// Makes a status code of an integer from 100 to 999.
    pub fn from_u16(code: u16) -> (r: Result<StatusCode, InvalidStatusCode>)
        ensures
            r is Ok <==> is_status_code(code),
            r is Ok ==> r->Ok_0@ == code,
    {
        if 100 <= code && code <= 999 {
            Ok(StatusCode { code })
        } else {
            Err(InvalidStatusCode {})
        }
    }

    /// 500 Internal Server Error.
    pub fn internal_server_error() -> (r: StatusCode)
        ensures
            r@ == 500,
    {
        StatusCode { code: 500 }
    }

    /// The status code as an integer.
    pub fn as_u16(&self) -> (r: u16)
        ensures
            r == self@,
            is_status_code(r),
    {
        proof {
            use_type_invariant(self);
        }
        self.code
    }

    /// The standard reason phrase of the code, when it has one.
    pub fn canonical_reason(&self) -> (r: Option<&'static str>)
        ensures
            opt_str_view(r) == canonical_reason_of(self@),
    {
        proof {
            use_type_invariant(self);
        }
        reason_phrase(self.code)
    }
}

/// The view of a list of key/value pairs.
pub open spec fn pairs_view(v: Seq<(String, String)>) -> Seq<(Seq<char>, Seq<char>)> {
    v.map_values(|p: (String, String)| (p.0@, p.1@))
}

/// The value of the first pair whose key is `key`.
pub open spec fn lookup(entries: Seq<(Seq<char>, Seq<char>)>, key: Seq<char>) -> Option<Seq<char>>
    decreases entries.len(),
{
    if entries.len() == 0 {
        None
    } else if entries[0].0 == key {
        Some(entries[0].1)
    } else {
        lookup(entries.skip(1), key)
    }
}

proof fn lemma_lookup_absent(s: Seq<(Seq<char>, Seq<char>)>, key: Seq<char>)
    requires
        forall|j: int| 0 <= j < s.len() ==> s[j].0 != key,
    ensures
        lookup(s, key) is None,
    decreases s.len(),
{
    if s.len() > 0 {
        lemma_lookup_absent(s.skip(1), key);
    }
}

pub(crate) proof fn lemma_lookup_push(s: Seq<(Seq<char>, Seq<char>)>, p: (Seq<char>, Seq<char>), k: Seq<char>)
    ensures
        lookup(s.push(p), k) == (match lookup(s, k) {
            Some(v) => Some(v),
            None => if p.0 == k {
                Some(p.1)
            } else {
                None
            },
        }),
    decreases s.len(),
{
    if s.len() > 0 {
        assert(s.push(p)[0] == s[0]);
        assert(s.push(p).skip(1) =~= s.skip(1).push(p));
        lemma_lookup_push(s.skip(1), p, k);
    } else {
        assert(s.push(p).skip(1) =~= Seq::<(Seq<char>, Seq<char>)>::empty());
        assert(lookup(s.push(p).skip(1), k) is None);
    }
}

proof fn lemma_lookup_update(
    s: Seq<(Seq<char>, Seq<char>)>,
    i: int,
    key: Seq<char>,
    v: Seq<char>,
    k: Seq<char>,
)
    requires
        0 <= i < s.len(),
        s[i].0 == key,
        forall|j: int| 0 <= j < i ==> s[j].0 != key,
    ensures
        lookup(s.update(i, (key, v)), k) == if k == key {
            Some(v)
        } else {
            lookup(s, k)
        },
    decreases i,
{
    if i == 0 {
        assert(s.update(i, (key, v)).skip(1) =~= s.skip(1));
    } else {
        assert(s.update(i, (key, v)).skip(1) =~= s.skip(1).update(i - 1, (key, v)));
        lemma_lookup_update(s.skip(1), i - 1, key, v, k);
    }
}

/// Sets the value of `key` among `entries`: the pair with that key is
/// replaced where there is one, else the pair is added at the end.
pub fn put_entry(entries: &mut Vec<(String, String)>, key: String, value: String)
    ensures
        forall|k: Seq<char>|
            #![trigger lookup(pairs_view(final(entries)@), k)]
            lookup(pairs_view(final(entries)@), k) == if k == key@ {
                Some(value@)
            } else {
                lookup(pairs_view(old(entries)@), k)
            },
{
    let n = entries.len();
    let mut i: usize = 0;
    while i < n
        invariant
            n == entries.len(),
            0 <= i <= n,
            entries@ == old(entries)@,
            forall|j: int| 0 <= j < i ==> entries@[j].0@ != key@,
        decreases n - i,
    {
        if entries[i].0 == key {
            let ghost before = pairs_view(entries@);
            let ghost kv = key@;
            let ghost vv = value@;
            entries[i] = (key, value);
            proof {
                assert(pairs_view(entries@) =~= before.update(i as int, (kv, vv)));
                assert forall|k: Seq<char>|
                    #![trigger lookup(pairs_view(entries@), k)]
                    lookup(pairs_view(entries@), k) == if k == kv {
                        Some(vv)
                    } else {
                        lookup(before, k)
                    } by {
                    lemma_lookup_update(before, i as int, kv, vv, k);
                }
            }
            return;
        }
        i += 1;
    }
    let ghost before = pairs_view(entries@);
    let ghost kv = key@;
    let ghost vv = value@;
    entries.push((key, value));
    proof {
        assert(pairs_view(entries@) =~= before.push((kv, vv)));
        lemma_lookup_absent(before, kv);
        assert forall|k: Seq<char>|
            #![trigger lookup(pairs_view(entries@), k)]
            lookup(pairs_view(entries@), k) == if k == kv {
                Some(vv)
            } else {
                lookup(before, k)
            } by {
            lemma_lookup_push(before, (kv, vv), k);
        }
    }
}

/// What an error says: its kind and title, an optional detail, its status code
/// and extra key/value pairs.
pub struct ErrorView {
    pub kind: Seq<char>,
    pub title: Seq<char>,
    pub detail: Option<Seq<char>>,
    pub status: u16,
    pub extras: Seq<(Seq<char>, Seq<char>)>,
}

/// The title given to an error made of a status code that has no reason phrase.
pub const UNKNOWN_STATUS_TITLE: &'static str = "Unknown status code";

/// The kind given to an error made of a status code alone.
pub const BLANK_KIND: &'static str = "about:blank";

/// The title of an error made of a status code alone.
pub open spec fn status_title(code: u16) -> Seq<char> {
    match canonical_reason_of(code) {
        Some(t) => t,
        None => UNKNOWN_STATUS_TITLE@,
    }
}

/// The error made of a status code alone.
pub open spec fn status_error(code: u16) -> ErrorView {
    ErrorView {
        kind: BLANK_KIND@,
        title: status_title(code),
        detail: None,
        status: code,
        extras: Seq::empty(),
    }
}

/// The error made of a kind, a title and a status code.
pub open spec fn plain_error(kind: Seq<char>, title: Seq<char>, code: u16) -> ErrorView {
    ErrorView { kind, title, detail: None, status: code, extras: Seq::empty() }
}

/// The text of an error: `[kind] title`, then `: detail` when there is one.
pub open spec fn error_text(e: ErrorView) -> Seq<char> {
    let head = seq!['['] + e.kind + seq![']', ' '] + e.title;
    match e.detail {
        Some(d) => head + seq![':', ' '] + d,
        None => head,
    }
}

/// An error object in the shape of RFC 7807 problem details.
#[derive(Clone, Debug)]
pub struct Error {
    kind: String,
    title: String,
    detail: Option<String>,
    status: StatusCode,
    extras: Vec<(String, String)>,
}

impl View for Error {
    type V = ErrorView;

    closed spec fn view(&self) -> ErrorView {
        ErrorView {
            kind: self.kind@,
            title: self.title@,
            detail: opt_string_view(self.detail),
            status: self.status@,
            extras: pairs_view(self.extras@),
        }
    }
}

impl Error {
    /// Creates an error object.
    pub fn new(kind: &str, title: &str, status: StatusCode) -> (r: Error)
        ensures
            r@ == plain_error(kind@, title@, status@),
    {
        let r = Error {
            kind: kind.to_owned(),
            title: title.to_owned(),
            detail: None,
            status,
            extras: Vec::new(),
        };
        assert(pairs_view(r.extras@) =~= Seq::empty());
        r
    }

    /// Creates an error object of a status code alone: its kind is
    /// `about:blank` and its title the code's reason phrase.
    pub fn from_status(status: StatusCode) -> (r: Error)
        ensures
            r@ == status_error(status@),
    {
        let title = match status.canonical_reason() {
            Some(t) => t,
            None => UNKNOWN_STATUS_TITLE,
        };
        let r = Error {
            kind: BLANK_KIND.to_owned(),
            title: title.to_owned(),
            detail: None,
            status,
            extras: Vec::new(),
        };
        assert(pairs_view(r.extras@) =~= Seq::empty());
        r
    }

    /// Sets the kind and title of the error.
    pub fn set_kind(&mut self, kind: &str, title: &str) -> (r: &mut Error)
        ensures
            (*r)@ == (ErrorView { kind: kind@, title: title@, ..old(self)@ }),
            *final(self) == *final(r),
    {
        self.kind = kind.to_owned();
        self.title = title.to_owned();
        self
    }

    /// The kind of the error.
    pub fn kind(&self) -> (r: &str)
        ensures
            r@ == self@.kind,
    {
        self.kind.as_str()
    }

    /// The title of the error.
    pub fn title(&self) -> (r: &str)
        ensures
            r@ == self@.title,
    {
        self.title.as_str()
    }

    /// Sets the status code of the error.
    pub fn set_status_code(&mut self, value: StatusCode) -> (r: &mut Error)
        ensures
            (*r)@ == (ErrorView { status: value@, ..old(self)@ }),
            *final(self) == *final(r),
    {
        self.status = value;
        self
    }

    /// The status code of the error.
    pub fn status_code(&self) -> (r: StatusCode)
        ensures
            r@ == self@.status,
    {
        self.status
    }

    /// The detail of the error, if it has one.
    pub fn detail(&self) -> (r: Option<&str>)
        ensures
            opt_str_view(r) == self@.detail,
    {
        match &self.detail {
            Some(d) => Some(d.as_str()),
            None => None,
        }
    }

    /// Sets detailed information about the error.
    pub fn set_detail(&mut self, value: &str) -> (r: &mut Error)
        ensures
            (*r)@ == (ErrorView { detail: Some(value@), ..old(self)@ }),
            *final(self) == *final(r),
    {
        self.detail = Some(value.to_owned());
        self
    }

    /// The extra key/value pairs of the error.
    pub fn extras(&self) -> (r: &Vec<(String, String)>)
        ensures
            pairs_view(r@) == self@.extras,
    {
        &self.extras
    }

    /// Sets the extra value of `key`.
    pub fn set_extra(&mut self, key: &str, value: &str) -> (r: &mut Error)
        ensures
            (*r)@.kind == old(self)@.kind,
            (*r)@.title == old(self)@.title,
            (*r)@.detail == old(self)@.detail,
            (*r)@.status == old(self)@.status,
            forall|k: Seq<char>|
                #![trigger lookup((*r)@.extras, k)]
                lookup((*r)@.extras, k) == if k == key@ {
                    Some(value@)
                } else {
                    lookup(old(self)@.extras, k)
                },
            *final(self) == *final(r),
    {
        put_entry(&mut self.extras, key.to_owned(), value.to_owned());
        self
    }

    /// The reason phrase of the error's status code, or `Unknown status code`
    /// when it has none.
    pub fn description(&self) -> (r: &'static str)
        ensures
            r@ == status_title(self@.status),
    {
        match self.status.canonical_reason() {
            Some(t) => t,
            None => UNKNOWN_STATUS_TITLE,
        }
    }

    /// Creates an error builder.
    pub fn builder() -> (r: Builder)
        ensures
            r@ == (BuilderView { kind: None, detail: None, status: None }),
    {
        Builder::new()
    }

    /// The text of the error: `[kind] title`, then `: detail` when it has one.
    pub fn to_string(&self) -> (r: String)
        ensures
            r@ == error_text(self@),
    {
        let mut r = "[".to_owned();
        r.append(self.kind.as_str());
        r.append("] ");
        r.append(self.title.as_str());
        proof {
            reveal_strlit("[");
            reveal_strlit("] ");
        }
        match &self.detail {
            Some(d) => {
                r.append(": ");
                r.append(d.as_str());
                proof {
                    reveal_strlit(": ");
                }
            },
            None => {},
        }
        r
    }
}

/// What a builder holds: a kind with its title, a detail and a status code,
/// each of them set or not.
pub struct BuilderView {
    pub kind: Option<(Seq<char>, Seq<char>)>,
    pub detail: Option<Seq<char>>,
    pub status: Option<u16>,
}

/// The error that a builder makes. Without a status code it makes a 500
/// error, and then the kind it holds is not used.
pub open spec fn built(b: BuilderView) -> ErrorView {
    let base = match b.status {
        Some(c) => match b.kind {
            Some(kt) => plain_error(kt.0, kt.1, c),
            None => status_error(c),
        },
        None => status_error(500),
    };
    match b.detail {
        Some(d) => ErrorView { detail: Some(d), ..base },
        None => base,
    }
}

/// Configures and builds an error.
#[derive(Debug)]
pub struct Builder {
    kind: Option<(String, String)>,
    detail: Option<String>,
    status: Option<StatusCode>,
}

impl View for Builder {
    type V = BuilderView;

    closed spec fn view(&self) -> BuilderView {
        BuilderView {
            kind: match self.kind {
                Some(kt) => Some((kt.0@, kt.1@)),
                None => None,
            },
            detail: opt_string_view(self.detail),
            status: match self.status {
                Some(s) => Some(s@),
                None => None,
            },
        }
    }
}

impl Builder {
    fn new() -> (r: Builder)
        ensures
            r@ == (BuilderView { kind: None, detail: None, status: None }),
    {
        Builder { kind: None, detail: None, status: None }
    }

    /// Sets the status code of the error.
    pub fn status(self, status: StatusCode) -> (r: Builder)
        ensures
            r@ == (BuilderView { status: Some(status@), ..self@ }),
    {
        Builder { status: Some(status), ..self }
    }

    /// Sets the kind and title of the error.
    pub fn kind(self, kind: &str, title: &str) -> (r: Builder)
        ensures
            r@ == (BuilderView { kind: Some((kind@, title@)), ..self@ }),
    {
        Builder { kind: Some((kind.to_owned(), title.to_owned())), ..self }
    }

    /// Sets detailed information about the error.
    pub fn detail(self, detail: &str) -> (r: Builder)
        ensures
            r@ == (BuilderView { detail: Some(detail@), ..self@ }),
    {
        Builder { detail: Some(detail.to_owned()), ..self }
    }

    /// Creates the error object.
    pub fn build(self) -> (r: Error)
        ensures
            r@ == built(self@),
    {
        let mut err = match (self.kind, self.status) {
            (Some((kind, title)), Some(status)) => Error::new(kind.as_str(), title.as_str(), status),
            (None, Some(status)) => Error::from_status(status),
            _ => Error::from_status(StatusCode::internal_server_error()),
        };
        match self.detail {
            Some(detail) => {
                err.set_detail(detail.as_str());
                err
            },
            None => err,
        }
    }
}

} // verus!
