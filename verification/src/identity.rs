//! Algorithm-agnostic identity.
//!
//! Identity format: `scheme:payload`
//!
//! Supported schemes:
//! - `local:name` - Trust the connection (dev/LAN)
//! - `url:user@server` - Server vouches for user
//! - `ed25519:fingerprint` - Cryptographic (user holds key)

use std::str::FromStr;
use vstd::prelude::*;
use vstd::std_specs::cmp::PartialEqSpecImpl;
use vstd::std_specs::convert::FromSpecImpl;
use vstd::std_specs::convert::TryFromSpecImpl;
use vstd::std_specs::iter::IteratorSpec;
use vstd::string::StringExecFns;
use vstd::string::StringSliceAdditionalSpecFns;
use vstd::utf8::encode_utf8_decode_utf8;

verus! {

/// What an [`Identity`] stands for in contracts: its two parts as text.
pub struct IdentityView {
    pub scheme: Seq<char>,
    pub payload: Seq<char>,
}

/// What an [`IdentityParseError`] stands for in contracts.
pub enum ParseErrorView {
    MissingColon(Seq<char>),
    EmptyScheme,
}

/// A scheme that survives being written out and read back: it is not empty
/// and holds no `:`.
pub open spec fn valid_scheme(scheme: Seq<char>) -> bool {
    scheme.len() > 0 && !scheme.contains(':')
}

/// `i` is the position of the first `:` in `text`.
pub open spec fn is_separator_at(text: Seq<char>, i: int) -> bool {
    &&& 0 <= i < text.len()
    &&& text[i] == ':'
    &&& forall|j: int| 0 <= j < i ==> text[j] != ':'
}

/// The position of the first `:` in a text that holds one.
pub open spec fn separator_index(text: Seq<char>) -> int {
    choose|i: int| is_separator_at(text, i)
}

/// The canonical text form: the scheme, one `:`, the payload.
pub open spec fn format_spec(id: IdentityView) -> Seq<char> {
    id.scheme + seq![':'] + id.payload
}

/// What parsing a text gives: the text is split at its first `:`; a text
/// without one, or with nothing before it, is refused.
pub open spec fn parse_spec(text: Seq<char>) -> Result<IdentityView, ParseErrorView> {
    if !text.contains(':') {
        Err(ParseErrorView::MissingColon(text))
    } else if separator_index(text) == 0 {
        Err(ParseErrorView::EmptyScheme)
    } else {
        Ok(
            IdentityView {
                scheme: text.subrange(0, separator_index(text)),
                payload: text.subrange(separator_index(text) + 1, text.len() as int),
            },
        )
    }
}

/// The view of a parse result.
pub open spec fn parse_result_view(r: Result<Identity, IdentityParseError>) -> Result<
    IdentityView,
    ParseErrorView,
> {
    match r {
        Ok(id) => Ok(id@),
        Err(e) => Err(e@),
    }
}

/// A text has at most one first `:`.
pub proof fn lemma_separator_unique(text: Seq<char>, i: int)
    requires
        is_separator_at(text, i),
    ensures
        text.contains(':'),
        separator_index(text) == i,
{
    let k = separator_index(text);
    assert(is_separator_at(text, k));
    if k < i {
        assert(text[k] != ':');
    }
    if i < k {
        assert(text[i] != ':');
    }
}

/// An identity in the form `scheme:payload`.
#[derive(Debug, Hash)]
pub struct Identity {
    scheme: String,
    payload: String,
}

impl Clone for Identity {
    fn clone(&self) -> (id: Identity)
        ensures
            id@ == self@,
    {
        Identity { scheme: self.scheme.clone(), payload: self.payload.clone() }
    }
}

impl PartialEq for Identity {
    fn eq(&self, other: &Identity) -> (r: bool) {
        self.scheme == other.scheme && self.payload == other.payload
    }
}

impl Eq for Identity {

}

impl PartialEqSpecImpl for Identity {
    open spec fn obeys_eq_spec() -> bool {
        true
    }

    open spec fn eq_spec(&self, other: &Identity) -> bool {
        self@ == other@
    }
}

impl View for Identity {
    type V = IdentityView;

    closed spec fn view(&self) -> IdentityView {
        IdentityView { scheme: self.scheme@, payload: self.payload@ }
    }
}

/// Error parsing an identity string.
#[derive(Debug)]
pub enum IdentityParseError {
    /// The text holds no `:`; carries the text.
    MissingColon(String),
    /// Nothing stands before the first `:`.
    EmptyScheme,
}

impl Clone for IdentityParseError {
    fn clone(&self) -> (e: IdentityParseError)
        ensures
            e@ == self@,
    {
        match self {
            IdentityParseError::MissingColon(got) => IdentityParseError::MissingColon(got.clone()),
            IdentityParseError::EmptyScheme => IdentityParseError::EmptyScheme,
        }
    }
}

impl View for IdentityParseError {
    type V = ParseErrorView;

    open spec fn view(&self) -> ParseErrorView {
        match self {
            IdentityParseError::MissingColon(s) => ParseErrorView::MissingColon(s@),
            IdentityParseError::EmptyScheme => ParseErrorView::EmptyScheme,
        }
    }
}

/// Whether two texts hold the same characters.
fn same_text(a: &str, b: &str) -> (r: bool)
    ensures
        r == (a@ == b@),
{
    let x = a.as_bytes();
    let y = b.as_bytes();
    if x.len() != y.len() {
        return false;
    }
    let mut i: usize = 0;
    while i < x.len()
        invariant
            i <= x.len(),
            x.len() == y.len(),
            x@ == a.spec_bytes(),
            y@ == b.spec_bytes(),
            forall|j: int| 0 <= j < i ==> x@[j] == y@[j],
        decreases x.len() - i,
    {
        if x[i] != y[i] {
            return false;
        }
        i = i + 1;
    }
    proof {
        // Equal encodings decode to equal texts.
        assert(x@ =~= y@);
        encode_utf8_decode_utf8(a@);
        encode_utf8_decode_utf8(b@);
    }
    true
}

/// Position of the first `:` of `s`, which has `n` characters, or `None`
/// when it holds none.
fn find_separator(s: &str, n: usize) -> (r: Option<usize>)
    requires
        n == s@.len(),
    ensures
        match r {
            Some(i) => is_separator_at(s@, i as int),
            None => !s@.contains(':'),
        },
{
    let mut found: Option<usize> = None;
    let mut idx: usize = 0;
    for c in it: s.chars()
        invariant
            idx == it.index(),
            it.seq() == s@,
            n == s@.len(),
            match found {
                Some(i) => is_separator_at(s@, i as int),
                None => forall|j: int| 0 <= j < idx ==> s@[j] != ':',
            },
    {
        if found.is_none() && c == ':' {
            found = Some(idx);
        }
        idx = idx + 1;
    }
    found
}

impl Identity {
    /// Create a new identity. The parts are taken as they are: whether the
    /// scheme can be told from the payload in the text form is for the
    /// caller to see to (see [`valid_scheme`]).
    pub fn new(scheme: &str, payload: &str) -> (id: Identity)
        ensures
            id@.scheme == scheme@,
            id@.payload == payload@,
    {
        Identity { scheme: scheme.to_owned(), payload: payload.to_owned() }
    }

    /// Create a local (trust-the-connection) identity.
    pub fn local(name: &str) -> (id: Identity)
        ensures
            id@.scheme == "local"@,
            id@.payload == name@,
            id.is_valid(),
    {
        proof {
            reveal_strlit("local");
        }
        Identity::new("local", name)
    }

    /// Create a URL-based (server-vouched) identity.
    pub fn url(user_at_server: &str) -> (id: Identity)
        ensures
            id@.scheme == "url"@,
            id@.payload == user_at_server@,
            id.is_valid(),
    {
        proof {
            reveal_strlit("url");
        }
        Identity::new("url", user_at_server)
    }

    /// Whether the scheme is one that the text form keeps apart from the
    /// payload.
    pub open spec fn is_valid(&self) -> bool {
        valid_scheme(self@.scheme)
    }

    /// The scheme (e.g., "local", "url", "ed25519").
    pub fn scheme(&self) -> (s: &str)
        ensures
            s@ == self@.scheme,
    {
        self.scheme.as_str()
    }

    /// The payload (interpretation depends on scheme).
    pub fn payload(&self) -> (s: &str)
        ensures
            s@ == self@.payload,
    {
        self.payload.as_str()
    }

    /// Check if this is a local (unverified) identity.
    pub fn is_local(&self) -> (b: bool)
        ensures
            b == (self@.scheme == "local"@),
    {
        same_text(self.scheme.as_str(), "local")
    }

    /// The canonical text form, `scheme:payload`.
    pub fn to_string(&self) -> (text: String)
        ensures
            text@ == format_spec(self@),
    {
        proof {
            reveal_strlit(":");
        }
        let mut text = self.scheme.clone();
        text.append(":");
        text.append(self.payload.as_str());
        assert(text@ =~= format_spec(self@));
        text
    }

    /// Read an identity from its text form, splitting at the first `:`.
    pub fn parse(s: &str) -> (r: Result<Identity, IdentityParseError>)
        ensures
            parse_result_view(r) == parse_spec(s@),
            r is Ok ==> r->Ok_0.is_valid(),
    {
        let n = s.unicode_len();
        match find_separator(s, n) {
            None => Err(IdentityParseError::MissingColon(s.to_owned())),
            Some(i) => {
                proof {
                    lemma_separator_unique(s@, i as int);
                }
                if i == 0 {
                    Err(IdentityParseError::EmptyScheme)
                } else {
                    let scheme = s.substring_char(0, i);
                    let payload = s.substring_char(i + 1, n);
                    let id = Identity {
                        scheme: scheme.to_owned(),
                        payload: payload.to_owned(),
                    };
                    assert(!id@.scheme.contains(':')) by {
                        if id@.scheme.contains(':') {
                            let k = choose|k: int| 0 <= k < id@.scheme.len() && id@.scheme[k] == ':';
                            assert(s@[k] == ':');
                        }
                    }
                    Ok(id)
                }
            },
        }
    }
}

impl IdentityParseError {
    /// The message for a reader: what was wrong with the text.
    pub fn to_string(&self) -> (text: String)
        ensures
            text@ == match self@ {
                ParseErrorView::MissingColon(got) => "identity must contain ':' separator, got: "@
                    + got,
                ParseErrorView::EmptyScheme => "identity scheme cannot be empty"@,
            },
    {
        match self {
            IdentityParseError::MissingColon(got) => {
                let mut text = "identity must contain ':' separator, got: ".to_owned();
                text.append(got.as_str());
                text
            },
            IdentityParseError::EmptyScheme => "identity scheme cannot be empty".to_owned(),
        }
    }
}

impl FromStr for Identity {
    type Err = IdentityParseError;

    fn from_str(s: &str) -> (r: Result<Identity, IdentityParseError>)
        ensures
            parse_result_view(r) == parse_spec(s@),
            r is Ok ==> r->Ok_0.is_valid(),
    {
        Identity::parse(s)
    }
}

impl TryFrom<String> for Identity {
    type Error = IdentityParseError;

    fn try_from(s: String) -> (r: Result<Identity, IdentityParseError>)
        ensures
            parse_result_view(r) == parse_spec(s@),
            r is Ok ==> r->Ok_0.is_valid(),
    {
        Identity::parse(s.as_str())
    }
}

/// The conversion is stated on `try_from` itself, over views; it has no
/// value of its own in specifications.
impl TryFromSpecImpl<String> for Identity {
    open spec fn obeys_try_from_spec() -> bool {
        false
    }

    open spec fn try_from_spec(s: String) -> Result<Identity, IdentityParseError> {
        arbitrary()
    }
}

impl From<Identity> for String {
    fn from(id: Identity) -> (text: String)
        ensures
            text@ == format_spec(id@),
    {
        id.to_string()
    }
}

/// The conversion is stated on `from` itself, over views; it has no value
/// of its own in specifications.
impl FromSpecImpl<Identity> for String {
    open spec fn obeys_from_spec() -> bool {
        false
    }

    open spec fn from_spec(id: Identity) -> String {
        arbitrary()
    }
}

/// Writing a valid identity out and reading it back gives the same identity:
/// the text holds the scheme before its first `:` and the payload after it.
pub proof fn lemma_parse_format_roundtrip(id: IdentityView)
    requires
        valid_scheme(id.scheme),
    ensures
        is_separator_at(format_spec(id), id.scheme.len() as int),
        parse_spec(format_spec(id)) == Ok::<IdentityView, ParseErrorView>(id),
{
    let text = format_spec(id);
    let n = id.scheme.len() as int;
    assert(text[n] == ':');
    assert forall|j: int| 0 <= j < n implies text[j] != ':' by {
        assert(text[j] == id.scheme[j]);
        assert(id.scheme.contains(id.scheme[j]));
    }
    lemma_separator_unique(text, n);
    assert(text.subrange(0, n) =~= id.scheme);
    assert(text.subrange(n + 1, text.len() as int) =~= id.payload);
}

/// Which texts are read and which are refused: a text without a `:` is
/// refused as lacking the separator, one that begins with `:` as lacking
/// the scheme, and every other text is read.
pub proof fn lemma_parse_outcomes(text: Seq<char>)
    ensures
        !text.contains(':') <==> parse_spec(text) == Err::<IdentityView, ParseErrorView>(
            ParseErrorView::MissingColon(text),
        ),
        text.len() > 0 && text[0] == ':' <==> parse_spec(text) == Err::<
            IdentityView,
            ParseErrorView,
        >(ParseErrorView::EmptyScheme),
        text.contains(':') && text[0] != ':' <==> parse_spec(text) is Ok,
{
    if text.contains(':') {
        let k = choose|k: int| 0 <= k < text.len() && text[k] == ':';
        lemma_first_separator_exists(text, k);
        assert(is_separator_at(text, separator_index(text)));
        if text[0] == ':' {
            lemma_separator_unique(text, 0);
        }
    } else if text.len() > 0 && text[0] == ':' {
        assert(text.contains(text[0]));
    }
}

/// Reading a text and writing the result out gives the text back.
pub proof fn lemma_format_parse_roundtrip(text: Seq<char>)
    requires
        parse_spec(text) is Ok,
    ensures
        format_spec(parse_spec(text)->Ok_0) == text,
        valid_scheme(parse_spec(text)->Ok_0.scheme),
{
    let i = separator_index(text);
    assert(text.contains(':'));
    let k = choose|k: int| 0 <= k < text.len() && text[k] == ':';
    lemma_first_separator_exists(text, k);
    assert(is_separator_at(text, i));
    let id = parse_spec(text)->Ok_0;
    assert(format_spec(id) =~= text);
    if id.scheme.contains(':') {
        let j = choose|j: int| 0 <= j < id.scheme.len() && id.scheme[j] == ':';
        assert(text[j] == ':');
    }
}

/// A text that holds a `:` has a first one.
pub proof fn lemma_first_separator_exists(text: Seq<char>, k: int)
    requires
        0 <= k < text.len(),
        text[k] == ':',
    ensures
        exists|i: int| is_separator_at(text, i),
    decreases k,
{
    if exists|j: int| 0 <= j < k && text[j] == ':' {
        let j = choose|j: int| 0 <= j < k && text[j] == ':';
        lemma_first_separator_exists(text, j);
    } else {
        assert(is_separator_at(text, k));
    }
}

} // verus!
