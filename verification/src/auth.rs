//! The authorization pieces the core owns: the PKCE verifier/challenge
//! pair, and the parser that pulls the authorization code out of the one
//! redirect request the local listener receives.

use vstd::prelude::*;
use vstd::string::StrSliceExecFns;
use vstd::string::StringSliceAdditionalSpecFns;

use base64::Engine;
use sha2::Digest;

verus! {

/// How many random octets seed the PKCE verifier.
pub const VERIFIER_OCTETS: usize = 64;

/// Relies on rand's `random_range` over `0..=255`: one random octet; no
/// two calls are related.
#[verifier::external_body]
fn random_byte() -> u8 {
    rand::random_range(0u8..=255u8)
}

/// The SHA-256 digest of a byte sequence, as sha2 computes it: a function
/// of the input alone.
pub uninterp spec fn sha256_of(input: Seq<u8>) -> Seq<u8>;

/// Relies on sha2's `Sha256::digest`: the 32-byte SHA-256 digest of the
/// input bytes, a function of the input alone.
#[verifier::external_body]
fn sha256_str(s: &str) -> (r: Vec<u8>)
    ensures
        r@ == sha256_of(s.spec_bytes()),
        r@.len() == 32,
{
    sha2::Sha256::digest(s.as_bytes()).to_vec()
}

/// The URL-safe, unpadded base64 rendering of a byte sequence, as base64
/// encodes it: a function of the input alone.
pub uninterp spec fn b64url_of(input: Seq<u8>) -> Seq<char>;

/// Relies on base64's `URL_SAFE_NO_PAD` engine `encode`: the URL-safe
/// unpadded base64 text of the input bytes, a function of the input
/// alone.  Its `encoded_len` gives the unpadded output length as four
/// characters per complete three-byte chunk, plus two or three for a
/// trailing one or two bytes — which is `(4n + 2) / 3` rounded down.
#[verifier::external_body]
fn b64url_no_pad(bytes: &Vec<u8>) -> (r: String)
    ensures
        r@ == b64url_of(bytes@),
        r@.len() == (4 * bytes@.len() + 2) / 3,
{
    base64::engine::general_purpose::URL_SAFE_NO_PAD.encode(bytes)
}

/// Draw a fresh random verifier: the base64 text of 64 random octets,
/// which is always 86 characters long.
fn generate_code_verifier() -> (r: String)
    ensures
        exists|b: Seq<u8>| b.len() == VERIFIER_OCTETS && r@ == b64url_of(b),
        r@.len() == 86,
{
    let mut bytes: Vec<u8> = Vec::new();
    let mut i: usize = 0;
    while i < VERIFIER_OCTETS
        invariant
            bytes@.len() == i,
            i <= VERIFIER_OCTETS,
        decreases VERIFIER_OCTETS - i,
    {
        bytes.push(random_byte());
        i = i + 1;
    }
    let r = b64url_no_pad(&bytes);
    proof {
        assert(bytes@.len() == VERIFIER_OCTETS && r@ == b64url_of(bytes@));
    }
    r
}

/// The challenge derived from a verifier: base64 of the verifier text's
/// 32-byte SHA-256 digest, which is always 43 characters long.
fn generate_code_challenge(verifier: &str) -> (r: String)
    ensures
        r@ == b64url_of(sha256_of(verifier.spec_bytes())),
        r@.len() == 43,
{
    let hash = sha256_str(verifier);
    b64url_no_pad(&hash)
}

/// A PKCE pair: the secret verifier and the challenge published in the
/// authorization URL.
pub struct PkceChallenge {
    pub verifier: String,
    pub challenge: String,
}

impl PkceChallenge {
    /// Draw a fresh PKCE pair.  The verifier is the 86-character base64
    /// text of 64 random octets; the challenge is exactly the 43-character
    /// base64 text of the SHA-256 digest of the verifier.
    pub fn new() -> (r: Self)
        ensures
            exists|b: Seq<u8>| b.len() == VERIFIER_OCTETS && r.verifier@ == b64url_of(b),
            r.verifier@.len() == 86,
            r.challenge@ == b64url_of(sha256_of(vstd::utf8::encode_utf8(r.verifier@))),
            r.challenge@.len() == 43,
    {
        let verifier = generate_code_verifier();
        let challenge = generate_code_challenge(verifier.as_str());
        PkceChallenge { verifier, challenge }
    }
}

/// What one authorization redirect carries: the code to exchange and the
/// opaque state echo.
pub struct AuthResult {
    pub code: String,
    pub state: String,
}

/// The position of the first occurrence of a character, or the sequence
/// length when the character does not occur.
pub open spec fn find_pos(s: Seq<char>, c: char) -> nat
    decreases s.len(),
{
    if s.len() == 0 {
        0
    } else if s[0] == c {
        0
    } else {
        (1 + find_pos(s.drop_first(), c)) as nat
    }
}

/// `find_pos` is exactly the first index holding the character (or the
/// length when there is none).
proof fn lemma_find_pos_at(s: Seq<char>, c: char, i: int)
    requires
        0 <= i <= s.len(),
        forall|j: int| 0 <= j < i ==> s[j] != c,
        i == s.len() || s[i] == c,
    ensures
        find_pos(s, c) == i,
    decreases i,
{
    if i == 0 {
    } else {
        assert(s[0] != c);
        assert forall|j: int| 0 <= j < i - 1 implies s.drop_first()[j] != c by {
            assert(s.drop_first()[j] == s[j + 1]);
        }
        if i < s.len() {
            assert(s.drop_first()[i - 1] == s[i]);
        }
        lemma_find_pos_at(s.drop_first(), c, i - 1);
    }
}

/// The delimiters recognized inside the request line.
pub open spec fn spec_is_ws(c: char) -> bool {
    c == ' ' || c == '\t'
}

/// The length of the leading run of request-line whitespace.
pub open spec fn ws_len(s: Seq<char>) -> nat
    decreases s.len(),
{
    if s.len() == 0 {
        0
    } else if spec_is_ws(s[0]) {
        (1 + ws_len(s.drop_first())) as nat
    } else {
        0
    }
}

/// The length of the leading run of non-whitespace (one token).
pub open spec fn tok_len(s: Seq<char>) -> nat
    decreases s.len(),
{
    if s.len() == 0 {
        0
    } else if !spec_is_ws(s[0]) {
        (1 + tok_len(s.drop_first())) as nat
    } else {
        0
    }
}

/// `ws_len` is exactly the first non-whitespace index (or the length).
proof fn lemma_ws_len_at(s: Seq<char>, i: int)
    requires
        0 <= i <= s.len(),
        forall|j: int| 0 <= j < i ==> spec_is_ws(s[j]),
        i == s.len() || !spec_is_ws(s[i]),
    ensures
        ws_len(s) == i,
    decreases i,
{
    if i == 0 {
    } else {
        assert forall|j: int| 0 <= j < i - 1 implies spec_is_ws(s.drop_first()[j]) by {
            assert(s.drop_first()[j] == s[j + 1]);
        }
        if i < s.len() {
            assert(s.drop_first()[i - 1] == s[i]);
        }
        lemma_ws_len_at(s.drop_first(), i - 1);
    }
}

/// `tok_len` is exactly the first whitespace index (or the length).
proof fn lemma_tok_len_at(s: Seq<char>, i: int)
    requires
        0 <= i <= s.len(),
        forall|j: int| 0 <= j < i ==> !spec_is_ws(s[j]),
        i == s.len() || spec_is_ws(s[i]),
    ensures
        tok_len(s) == i,
    decreases i,
{
    if i == 0 {
    } else {
        assert forall|j: int| 0 <= j < i - 1 implies !spec_is_ws(s.drop_first()[j]) by {
            assert(s.drop_first()[j] == s[j + 1]);
        }
        if i < s.len() {
            assert(s.drop_first()[i - 1] == s[i]);
        }
        lemma_tok_len_at(s.drop_first(), i - 1);
    }
}

/// Find the first occurrence of a character, or the character count when
/// it does not occur.
fn find_char(s: &str, c: char) -> (r: usize)
    ensures
        r == find_pos(s@, c),
        r <= s@.len(),
        r < s@.len() ==> s@[r as int] == c,
        forall|j: int| 0 <= j < r ==> s@[j] != c,
{
    let n = s.unicode_len();
    let mut i: usize = 0;
    while i < n
        invariant
            n == s@.len(),
            i <= n,
            forall|j: int| 0 <= j < i ==> s@[j] != c,
        decreases n - i,
    {
        if s.get_char(i) == c {
            proof {
                lemma_find_pos_at(s@, c, i as int);
            }
            return i;
        }
        i = i + 1;
    }
    proof {
        lemma_find_pos_at(s@, c, n as int);
    }
    n
}

/// Whether this character delimits request-line tokens.
fn is_ws(c: char) -> (b: bool)
    ensures
        b == spec_is_ws(c),
{
    c == ' ' || c == '\t'
}

/// Count the leading whitespace characters.
fn ws_span(s: &str) -> (r: usize)
    ensures
        r == ws_len(s@),
        r <= s@.len(),
{
    let n = s.unicode_len();
    let mut i: usize = 0;
    while i < n
        invariant
            n == s@.len(),
            i <= n,
            forall|j: int| 0 <= j < i ==> spec_is_ws(s@[j]),
        decreases n - i,
    {
        if !is_ws(s.get_char(i)) {
            proof {
                lemma_ws_len_at(s@, i as int);
            }
            return i;
        }
        i = i + 1;
    }
    proof {
        lemma_ws_len_at(s@, n as int);
    }
    n
}

/// Count the characters of the leading token.
fn tok_span(s: &str) -> (r: usize)
    ensures
        r == tok_len(s@),
        r <= s@.len(),
{
    let n = s.unicode_len();
    let mut i: usize = 0;
    while i < n
        invariant
            n == s@.len(),
            i <= n,
            forall|j: int| 0 <= j < i ==> !spec_is_ws(s@[j]),
        decreases n - i,
    {
        if is_ws(s.get_char(i)) {
            proof {
                lemma_tok_len_at(s@, i as int);
            }
            return i;
        }
        i = i + 1;
    }
    proof {
        lemma_tok_len_at(s@, n as int);
    }
    n
}

/// Character-wise string equality.
fn str_eq_chars(a: &str, b: &str) -> (r: bool)
    ensures
        r == (a@ == b@),
{
    let n = a.unicode_len();
    if n != b.unicode_len() {
        return false;
    }
    let mut i: usize = 0;
    while i < n
        invariant
            n == a@.len(),
            n == b@.len(),
            i <= n,
            forall|j: int| 0 <= j < i ==> a@[j] == b@[j],
        decreases n - i,
    {
        if a.get_char(i) != b.get_char(i) {
            return false;
        }
        i = i + 1;
    }
    proof {
        assert(a@ =~= b@);
    }
    true
}

/// The value a `key=value` segment binds, when the segment has an equals
/// sign and its key matches; segments without an equals sign bind
/// nothing.
pub open spec fn seg_value(seg: Seq<char>, key: Seq<char>) -> Option<Seq<char>> {
    let j = find_pos(seg, '=');
    if j >= seg.len() {
        None
    } else if seg.take(j as int) == key {
        Some(seg.skip(j as int + 1))
    } else {
        None
    }
}

/// The value bound to a key in an ampersand-separated query: the last
/// matching segment wins, as a map built front to back would have it.
pub open spec fn lookup_param(q: Seq<char>, key: Seq<char>) -> Option<Seq<char>>
    decreases q.len(),
{
    let i = find_pos(q, '&');
    if i >= q.len() {
        seg_value(q, key)
    } else {
        let rest = lookup_param(q.skip(i as int + 1), key);
        if rest is Some {
            rest
        } else {
            seg_value(q.take(i as int), key)
        }
    }
}

/// Extract one segment's binding for a key.
fn seg_value_str(seg: &str, key: &str) -> (r: Option<String>)
    ensures
        match seg_value(seg@, key@) {
            Some(v) => r matches Some(s) && s@ == v,
            None => r is None,
        },
{
    let n = seg.unicode_len();
    let j = find_char(seg, '=');
    if j >= n {
        None
    } else {
        let k = seg.substring_char(0, j);
        proof {
            assert(k@ =~= seg@.take(j as int));
        }
        if str_eq_chars(k, key) {
            let v = seg.substring_char(j + 1, n).to_owned();
            proof {
                assert(v@ =~= seg@.skip(j as int + 1));
            }
            Some(v)
        } else {
            None
        }
    }
}

/// Look a key up in an ampersand-separated query string.
fn lookup_param_str(q: &str, key: &str) -> (r: Option<String>)
    ensures
        match lookup_param(q@, key@) {
            Some(v) => r matches Some(s) && s@ == v,
            None => r is None,
        },
    decreases q@.len(),
{
    let n = q.unicode_len();
    let i = find_char(q, '&');
    if i >= n {
        seg_value_str(q, key)
    } else {
        let tail = q.substring_char(i + 1, n);
        proof {
            assert(tail@ =~= q@.skip(i as int + 1));
        }
        let rest = lookup_param_str(tail, key);
        match rest {
            Some(v) => Some(v),
            None => {
                let head = q.substring_char(0, i);
                proof {
                    assert(head@ =~= q@.take(i as int));
                }
                seg_value_str(head, key)
            },
        }
    }
}

/// The first line of the request, one trailing carriage return stripped.
pub open spec fn first_line(req: Seq<char>) -> Seq<char> {
    let i = find_pos(req, '\n');
    let l = if i >= req.len() {
        req
    } else {
        req.take(i as int)
    };
    if l.len() > 0 && l.last() == '\r' {
        l.drop_last()
    } else {
        l
    }
}

/// The second whitespace-separated token of a line (the request target);
/// empty when the line has no second token.
pub open spec fn second_token(line: Seq<char>) -> Seq<char> {
    let r1 = line.skip(ws_len(line) as int);
    let r2 = r1.skip(tok_len(r1) as int);
    let r3 = r2.skip(ws_len(r2) as int);
    r3.take(tok_len(r3) as int)
}

/// The query part of a request target: what stands between the first
/// question mark and the next (or the end); empty without a question
/// mark.
pub open spec fn query_of_target(t: Seq<char>) -> Seq<char> {
    let i = find_pos(t, '?');
    if i >= t.len() {
        Seq::empty()
    } else {
        let rest = t.skip(i as int + 1);
        rest.take(find_pos(rest, '?') as int)
    }
}

/// The query string carried by one redirect request.
pub open spec fn redirect_query(req: Seq<char>) -> Seq<char> {
    query_of_target(second_token(first_line(req)))
}

/// Parse the one redirect request the local listener receives: pull the
/// query out of the request line and look the authorization code and the
/// state echo up.  Absent code means the redirect is rejected; an absent
/// state echo defaults to empty.
pub fn parse_redirect_request(req: &str) -> (r: Option<AuthResult>)
    ensures
        r is None <==> lookup_param(redirect_query(req@), "code"@) is None,
        r matches Some(a) ==> {
            &&& lookup_param(redirect_query(req@), "code"@) == Some(a.code@)
            &&& a.state@ == match lookup_param(redirect_query(req@), "state"@) {
                Some(s) => s,
                None => Seq::<char>::empty(),
            }
        },
{
    let n = req.unicode_len();
    let i_nl = find_char(req, '\n');
    let line0 = if i_nl >= n {
        req
    } else {
        req.substring_char(0, i_nl)
    };
    let l0 = line0.unicode_len();
    let line = if l0 > 0 && line0.get_char(l0 - 1) == '\r' {
        line0.substring_char(0, l0 - 1)
    } else {
        line0
    };
    proof {
        assert(line@ =~= first_line(req@));
    }
    let llen = line.unicode_len();
    let a = ws_span(line);
    let r1 = line.substring_char(a, llen);
    proof {
        assert(r1@ =~= line@.skip(ws_len(line@) as int));
    }
    let r1len = r1.unicode_len();
    let b = tok_span(r1);
    let r2 = r1.substring_char(b, r1len);
    proof {
        assert(r2@ =~= r1@.skip(tok_len(r1@) as int));
    }
    let r2len = r2.unicode_len();
    let c2 = ws_span(r2);
    let r3 = r2.substring_char(c2, r2len);
    proof {
        assert(r3@ =~= r2@.skip(ws_len(r2@) as int));
    }
    let d = tok_span(r3);
    let target = r3.substring_char(0, d);
    proof {
        assert(target@ =~= second_token(first_line(req@)));
    }
    let tlen = target.unicode_len();
    let iq = find_char(target, '?');
    let query: String = if iq >= tlen {
        String::new()
    } else {
        let rest = target.substring_char(iq + 1, tlen);
        proof {
            assert(rest@ =~= target@.skip(iq as int + 1));
        }
        let jq = find_char(rest, '?');
        rest.substring_char(0, jq).to_owned()
    };
    proof {
        assert(query@ =~= redirect_query(req@));
    }
    match lookup_param_str(query.as_str(), "code") {
        None => None,
        Some(code) => {
            let state = match lookup_param_str(query.as_str(), "state") {
                Some(s) => s,
                None => String::new(),
            };
            Some(AuthResult { code, state })
        },
    }
}

} // verus!
