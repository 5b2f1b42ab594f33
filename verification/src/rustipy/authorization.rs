use vstd::prelude::*;
use vstd::utf8::encode_utf8;
use base64::engine::general_purpose::STANDARD;
use base64::Engine;
use crate::rustipy::config::AuthConfig;
use crate::utility::{generate_random_string, is_alphanumeric_ascii};

verus! {

/// The SHA-256 hash of some bytes.
pub uninterp spec fn sha256_of(data: Seq<u8>) -> Seq<u8>;

/// The character of the standard base64 alphabet (`A-Z`, `a-z`, `0-9`,
/// `+`, `/`) for a value below 64.
pub open spec fn base64_char(v: int) -> char {
    if v < 26 {
        (65 + v) as char
    } else if v < 52 {
        (71 + v) as char
    } else if v < 62 {
        (v - 4) as char
    } else if v == 62 {
        '+'
    } else {
        '/'
    }
}

/// The standard base64 encoding with padding (RFC 4648, section 4): each
/// group of three bytes becomes four characters of six bits each; a last
/// group of one or two bytes is filled with zero bits and `=` signs.
pub open spec fn base64_standard(data: Seq<u8>) -> Seq<char>
    decreases data.len(),
{
    if data.len() == 0 {
        Seq::empty()
    } else if data.len() == 1 {
        let b0 = data[0] as int;
        seq![base64_char(b0 / 4), base64_char((b0 % 4) * 16), '=', '=']
    } else if data.len() == 2 {
        let b0 = data[0] as int;
        let b1 = data[1] as int;
        seq![base64_char(b0 / 4), base64_char((b0 % 4) * 16 + b1 / 16), base64_char((b1 % 16) * 4), '=']
    } else {
        let b0 = data[0] as int;
        let b1 = data[1] as int;
        let b2 = data[2] as int;
        seq![
            base64_char(b0 / 4),
            base64_char((b0 % 4) * 16 + b1 / 16),
            base64_char((b1 % 16) * 4 + b2 / 64),
            base64_char(b2 % 64),
        ] + base64_standard(data.subrange(3, data.len() as int))
    }
}

/// Base64 gives four characters for every three bytes begun, and an input
/// one byte past a multiple of three ends in two `=` signs.
pub proof fn lemma_base64_shape(data: Seq<u8>)
    ensures
        base64_standard(data).len() == 4 * ((data.len() + 2) / 3),
        data.len() % 3 == 1 ==> {
            let e = base64_standard(data);
            e[e.len() - 2] == '=' && e[e.len() - 1] == '='
        },
    decreases data.len(),
{
    if data.len() >= 3 {
        let rest = data.subrange(3, data.len() as int);
        lemma_base64_shape(rest);
        let e = base64_standard(data);
        let r = base64_standard(rest);
        assert(e.len() == 4 + r.len());
        if data.len() % 3 == 1 {
            assert(e[e.len() - 2] == r[r.len() - 2]);
            assert(e[e.len() - 1] == r[r.len() - 1]);
        }
    }
}

/// The lower-case hexadecimal digit for a value below sixteen.
pub open spec fn hex_digit(d: int) -> char {
    if d < 10 {
        (48 + d) as char
    } else {
        (87 + d) as char
    }
}

/// Bytes written as lower-case hexadecimal, two digits a byte.
pub open spec fn hex_lower(data: Seq<u8>) -> Seq<char>
    decreases data.len(),
{
    if data.len() == 0 {
        Seq::empty()
    } else {
        seq![hex_digit((data[0] / 16) as int), hex_digit((data[0] % 16) as int)] + hex_lower(data.drop_first())
    }
}

/// Hex digits are ASCII, two for each byte.
pub proof fn lemma_hex_lower_ascii(data: Seq<u8>)
    ensures
        vstd::utf8::is_ascii_chars(hex_lower(data)),
        hex_lower(data).len() == 2 * data.len(),
    decreases data.len(),
{
    if data.len() > 0 {
        lemma_hex_lower_ascii(data.drop_first());
        let h = hex_lower(data);
        let first = seq![hex_digit((data[0] / 16) as int), hex_digit((data[0] % 16) as int)];
        let rest = hex_lower(data.drop_first());
        assert(h == first + rest);
        assert forall|i: int| 0 <= i < h.len() implies '\0' <= #[trigger] h[i] <= '\u{7f}' by {
            if i < 2 {
                assert(h[i] == first[i]);
            } else {
                assert(h[i] == rest[i - 2]);
            }
        }
    }
}

/// The SHA-256 digest of a string's UTF-8 bytes, in lower-case hex
/// (the `sha256` crate's `digest`, which hashes with `sha2::Sha256` and
/// writes the 32 bytes with `hex::encode`).
#[verifier::external_body]
fn sha256_hex(input: &str) -> (digest: String)
    ensures
        digest@ == hex_lower(sha256_of(encode_utf8(input@))),
        digest@.len() == 64,
{
    sha256::digest(input)
}

/// Standard base64 with padding (base64's `STANDARD.encode`): four
/// characters for every three bytes begun, as `base64_standard` spells
/// out. It fails on inputs whose encoding would not fit in memory, which
/// `requires` leaves out.
#[verifier::external_body]
fn base64_encode(data: &[u8]) -> (encoded: String)
    requires
        data@.len() <= usize::MAX / 2,
    ensures
        encoded@ == base64_standard(data@),
{
    STANDARD.encode(data)
}

/// The PKCE code challenge for a verifier: the base64 of the verifier's
/// lower-case hex SHA-256 digest.
pub open spec fn challenge_of(verifier: Seq<char>) -> Seq<char> {
    base64_standard(encode_utf8(hex_lower(sha256_of(encode_utf8(verifier)))))
}

/// A challenge of 64 digest characters: 88 characters, the last two `=`.
pub open spec fn full_challenge(c: Seq<char>) -> bool {
    c.len() == 88 && c[86] == '=' && c[87] == '='
}

/// Computes the code challenge for a verifier.
pub fn code_challenge(verifier: &str) -> (challenge: String)
    ensures
        challenge@ == challenge_of(verifier@),
        challenge@ == base64_standard(encode_utf8(hex_lower(sha256_of(encode_utf8(verifier@))))),
        full_challenge(challenge@),
{
    let digest = sha256_hex(verifier);
    let bytes = digest.as_str().as_bytes();
    proof {
        lemma_hex_lower_ascii(sha256_of(encode_utf8(verifier@)));
        vstd::utf8::is_ascii_chars_encode_utf8(digest@);
        lemma_base64_shape(bytes@);
    }
    base64_encode(bytes)
}

/// The parameters of an authorization request with PKCE.
#[derive(Debug)]
pub struct AuthorizationBuilder {
    pub client_id: String,
    pub response_type: String,
    pub scope: String,
    pub code_challenge_method: String,
    pub code_challenge: String,
    pub redirect_uri: String,
}

impl AuthorizationBuilder {
    /// A request for an authorization code with an S256 challenge, all
    /// else empty.
    pub fn default() -> (b: AuthorizationBuilder)
        ensures
            b.client_id@ == Seq::<char>::empty(),
            b.response_type@ == "code"@,
            b.scope@ == Seq::<char>::empty(),
            b.code_challenge_method@ == "S256"@,
            b.code_challenge@ == Seq::<char>::empty(),
            b.redirect_uri@ == Seq::<char>::empty(),
    {
        AuthorizationBuilder {
            client_id: String::new(),
            response_type: String::from_str("code"),
            scope: String::new(),
            code_challenge_method: String::from_str("S256"),
            code_challenge: String::new(),
            redirect_uri: String::new(),
        }
    }

    /// Takes the client id and redirect URI from the registration.
    pub fn set_config_values(&mut self, ac: AuthConfig) -> (r: &mut Self)
        ensures
            r.client_id@ == ac.client_id@,
            r.redirect_uri@ == ac.redirect_uri@,
            r.response_type == old(self).response_type,
            r.scope == old(self).scope,
            r.code_challenge_method == old(self).code_challenge_method,
            r.code_challenge == old(self).code_challenge,
            *final(self) == *final(r),
    {
        self.client_id = ac.client_id;
        self.redirect_uri = ac.redirect_uri;
        self
    }

    /// Replaces the requested scope.
    pub fn set_auth_scope(&mut self, in_scope: String) -> (r: &mut Self)
        ensures
            r.scope@ == in_scope@,
            r.client_id == old(self).client_id,
            r.redirect_uri == old(self).redirect_uri,
            r.response_type == old(self).response_type,
            r.code_challenge_method == old(self).code_challenge_method,
            r.code_challenge == old(self).code_challenge,
            *final(self) == *final(r),
    {
        self.scope = in_scope;
        self
    }

    /// Replaces the code challenge.
    pub fn set_code_challenge(&mut self, cc: String) -> (r: &mut Self)
        ensures
            r.code_challenge@ == cc@,
            r.client_id == old(self).client_id,
            r.redirect_uri == old(self).redirect_uri,
            r.response_type == old(self).response_type,
            r.scope == old(self).scope,
            r.code_challenge_method == old(self).code_challenge_method,
            *final(self) == *final(r),
    {
        self.code_challenge = cc;
        self
    }
}

/// The scope the authorization request asks for.
pub open spec fn requested_scope() -> Seq<char> {
    "user_read_private user_read_email"@
}

/// The code challenge sent when no verifier could be generated.
pub open spec fn challenge_failure_text() -> Seq<char> {
    "Failed to generate the code challenge"@
}

/// The authorization request for a registration, with the challenge of
/// `verifier`, or the failure text in its place where there is none.
pub open spec fn prepared_request(ac: AuthConfig, verifier: Option<Seq<char>>, b: AuthorizationBuilder) -> bool {
    &&& b.client_id@ == ac.client_id@
    &&& b.redirect_uri@ == ac.redirect_uri@
    &&& b.response_type@ == "code"@
    &&& b.code_challenge_method@ == "S256"@
    &&& b.scope@ == requested_scope()
    &&& b.code_challenge@ == match verifier {
        Some(v) => challenge_of(v),
        None => challenge_failure_text(),
    }
}

/// Prepares the authorization request for a registration, given the code
/// verifier that was generated for it, if any.
pub fn prepare_for_auth_with(auth_config: AuthConfig, verifier: Option<String>) -> (r: Option<AuthorizationBuilder>)
    ensures
        r matches Some(b) && prepared_request(auth_config, match verifier {
            Some(v) => Some(v@),
            None => None,
        }, b),
        r matches Some(b) && (verifier is Some ==> full_challenge(b.code_challenge@)),
{
    let challenge = match verifier {
        Some(v) => code_challenge(v.as_str()),
        None => String::from_str("Failed to generate the code challenge"),
    };
    let mut b = AuthorizationBuilder::default();
    b.set_config_values(auth_config);
    b.set_auth_scope(String::from_str("user_read_private user_read_email"));
    b.set_code_challenge(challenge);
    Some(b)
}

/// The length of the generated code verifier.
pub const VERIFIER_LEN: u64 = 64;

/// Prepares the authorization request for a registration with a freshly
/// generated verifier of `VERIFIER_LEN` letters and digits.
pub fn prepare_for_auth(auth_config: AuthConfig) -> (r: Option<AuthorizationBuilder>)
    ensures
        r matches Some(b) && exists|v: Seq<char>| #[trigger] prepared_request(auth_config, Some(v), b)
            && v.len() == VERIFIER_LEN
            && forall|i: int| 0 <= i < v.len() ==> is_alphanumeric_ascii(#[trigger] v[i]),
        r matches Some(b) && full_challenge(b.code_challenge@),
{
    let verifier = generate_random_string(VERIFIER_LEN);
    let ghost v = verifier->0@;
    let r = prepare_for_auth_with(auth_config, verifier);
    assert(prepared_request(auth_config, Some(v), r->0));
    r
}

/// Distinct values below sixteen have distinct hex digits.
proof fn lemma_hex_digit_injective(a: int, b: int)
    requires
        0 <= a < 16,
        0 <= b < 16,
        hex_digit(a) == hex_digit(b),
    ensures
        a == b,
{
    assert(hex_digit(a) as u32 == hex_digit(b) as u32);
}

/// Hex writing loses nothing: equal hex text comes from equal bytes.
pub proof fn lemma_hex_lower_injective(x: Seq<u8>, y: Seq<u8>)
    requires
        hex_lower(x) == hex_lower(y),
    ensures
        x == y,
    decreases x.len(),
{
    lemma_hex_lower_ascii(x);
    lemma_hex_lower_ascii(y);
    if x.len() > 0 {
        let hx = hex_lower(x);
        let hy = hex_lower(y);
        assert(hx[0] == hex_digit((x[0] / 16) as int));
        assert(hy[0] == hex_digit((y[0] / 16) as int));
        assert(hx[1] == hex_digit((x[0] % 16) as int));
        assert(hy[1] == hex_digit((y[0] % 16) as int));
        lemma_hex_digit_injective((x[0] / 16) as int, (y[0] / 16) as int);
        lemma_hex_digit_injective((x[0] % 16) as int, (y[0] % 16) as int);
        assert(x[0] == y[0]);
        assert(hex_lower(x.drop_first()) =~= hx.subrange(2, hx.len() as int));
        assert(hex_lower(y.drop_first()) =~= hy.subrange(2, hy.len() as int));
        lemma_hex_lower_injective(x.drop_first(), y.drop_first());
        assert(x =~= seq![x[0]] + x.drop_first());
        assert(y =~= seq![y[0]] + y.drop_first());
    }
}

/// Distinct values below 64 have distinct base64 characters, none of
/// which is the padding `=`.
proof fn lemma_base64_char_injective(a: int, b: int)
    requires
        0 <= a < 64,
        0 <= b < 64,
    ensures
        base64_char(a) != '=',
        base64_char(a) == base64_char(b) ==> a == b,
{
    assert(base64_char(a) as u32 != '=' as u32);
    if base64_char(a) == base64_char(b) {
        assert(base64_char(a) as u32 == base64_char(b) as u32);
    }
}

/// The six-bit values of a group of three bytes determine the bytes.
proof fn lemma_group_of_three(b0: int, b1: int, b2: int, e0: int, e1: int, e2: int)
    requires
        0 <= b0 < 256, 0 <= b1 < 256, 0 <= b2 < 256,
        0 <= e0 < 256, 0 <= e1 < 256, 0 <= e2 < 256,
        b0 / 4 == e0 / 4,
        (b0 % 4) * 16 + b1 / 16 == (e0 % 4) * 16 + e1 / 16,
        (b1 % 16) * 4 + b2 / 64 == (e1 % 16) * 4 + e2 / 64,
        b2 % 64 == e2 % 64,
    ensures
        b0 == e0 && b1 == e1 && b2 == e2,
{
    assert(b0 % 4 == e0 % 4 && b1 / 16 == e1 / 16);
    assert(b1 % 16 == e1 % 16 && b2 / 64 == e2 / 64);
}

/// The six-bit values of a last group of two bytes determine the bytes.
proof fn lemma_group_of_two(b0: int, b1: int, e0: int, e1: int)
    requires
        0 <= b0 < 256, 0 <= b1 < 256,
        0 <= e0 < 256, 0 <= e1 < 256,
        b0 / 4 == e0 / 4,
        (b0 % 4) * 16 + b1 / 16 == (e0 % 4) * 16 + e1 / 16,
        (b1 % 16) * 4 == (e1 % 16) * 4,
    ensures
        b0 == e0 && b1 == e1,
{
    assert(b0 % 4 == e0 % 4 && b1 / 16 == e1 / 16);
}

/// What the first four characters of an encoding show: how many bytes
/// begin it (padding marks a last group of one or two), and the rest.
proof fn lemma_base64_head(x: Seq<u8>)
    requires
        x.len() > 0,
    ensures
        base64_standard(x).len() >= 4,
        x.len() == 1 <==> base64_standard(x)[2] == '=',
        x.len() <= 2 <==> base64_standard(x)[3] == '=',
        x.len() >= 3 ==> base64_standard(x).subrange(4, base64_standard(x).len() as int)
            == base64_standard(x.subrange(3, x.len() as int)),
{
    lemma_base64_shape(x);
    let e = base64_standard(x);
    let b0 = x[0] as int;
    if x.len() == 1 {
        lemma_base64_char_injective(b0 / 4, 0);
    } else if x.len() == 2 {
        let b1 = x[1] as int;
        lemma_base64_char_injective((b1 % 16) * 4, 0);
    } else {
        let b1 = x[1] as int;
        let b2 = x[2] as int;
        lemma_base64_char_injective((b1 % 16) * 4 + b2 / 64, 0);
        lemma_base64_char_injective(b2 % 64, 0);
        let r = base64_standard(x.subrange(3, x.len() as int));
        assert(e.subrange(4, e.len() as int) =~= r);
    }
}

/// Base64 loses nothing: equal encodings come from equal bytes.
pub proof fn lemma_base64_injective(x: Seq<u8>, y: Seq<u8>)
    requires
        base64_standard(x) == base64_standard(y),
    ensures
        x == y,
    decreases x.len(),
{
    let e = base64_standard(x);
    lemma_base64_shape(x);
    lemma_base64_shape(y);
    if x.len() == 0 || y.len() == 0 {
        assert(x.len() == 0 && y.len() == 0);
        assert(x =~= y);
        return;
    }
    lemma_base64_head(x);
    lemma_base64_head(y);
    let b0 = x[0] as int;
    let d0 = y[0] as int;
    lemma_base64_char_injective(b0 / 4, d0 / 4);
    if x.len() == 1 {
        assert(y.len() == 1);
        lemma_base64_char_injective((b0 % 4) * 16, (d0 % 4) * 16);
        assert(x =~= y);
    } else if x.len() == 2 {
        assert(y.len() == 2);
        let b1 = x[1] as int;
        let d1 = y[1] as int;
        lemma_base64_char_injective((b0 % 4) * 16 + b1 / 16, (d0 % 4) * 16 + d1 / 16);
        lemma_base64_char_injective((b1 % 16) * 4, (d1 % 16) * 4);
        lemma_group_of_two(b0, b1, d0, d1);
        assert(x =~= y);
    } else {
        assert(y.len() >= 3);
        let b1 = x[1] as int;
        let d1 = y[1] as int;
        let b2 = x[2] as int;
        let d2 = y[2] as int;
        let ey = base64_standard(y);
        assert(e[0] == base64_char(b0 / 4) && ey[0] == base64_char(d0 / 4));
        assert(e[1] == base64_char((b0 % 4) * 16 + b1 / 16) && ey[1] == base64_char((d0 % 4) * 16 + d1 / 16));
        assert(e[2] == base64_char((b1 % 16) * 4 + b2 / 64) && ey[2] == base64_char((d1 % 16) * 4 + d2 / 64));
        assert(e[3] == base64_char(b2 % 64) && ey[3] == base64_char(d2 % 64));
        lemma_base64_char_injective(b0 / 4, d0 / 4);
        lemma_base64_char_injective((b0 % 4) * 16 + b1 / 16, (d0 % 4) * 16 + d1 / 16);
        lemma_base64_char_injective((b1 % 16) * 4 + b2 / 64, (d1 % 16) * 4 + d2 / 64);
        lemma_base64_char_injective(b2 % 64, d2 % 64);
        lemma_group_of_three(b0, b1, b2, d0, d1, d2);
        let xr = x.subrange(3, x.len() as int);
        let yr = y.subrange(3, y.len() as int);
        lemma_base64_injective(xr, yr);
        assert(x =~= seq![x[0], x[1], x[2]] + xr);
        assert(y =~= seq![y[0], y[1], y[2]] + yr);
    }
}

/// The challenge tells digests apart: verifiers whose SHA-256 digests
/// differ get different challenges. It is the whole verifier that is
/// hashed, so a challenge changes with any change of the verifier that
/// changes its digest.
pub proof fn law_challenge_separates_digests(v1: Seq<char>, v2: Seq<char>)
    requires
        sha256_of(encode_utf8(v1)) != sha256_of(encode_utf8(v2)),
    ensures
        challenge_of(v1) != challenge_of(v2),
{
    let h1 = hex_lower(sha256_of(encode_utf8(v1)));
    let h2 = hex_lower(sha256_of(encode_utf8(v2)));
    if challenge_of(v1) == challenge_of(v2) {
        lemma_base64_injective(encode_utf8(h1), encode_utf8(h2));
        vstd::utf8::encode_utf8_decode_utf8(h1);
        vstd::utf8::encode_utf8_decode_utf8(h2);
        lemma_hex_lower_injective(sha256_of(encode_utf8(v1)), sha256_of(encode_utf8(v2)));
    }
}

/// The challenge of a verifier is the standard base64 of the UTF-8 bytes
/// of the lower-case hex SHA-256 digest of the verifier's UTF-8 bytes, for
/// verifiers of every length.
pub proof fn law_challenge_is_encoded_digest(v: Seq<char>)
    ensures
        challenge_of(v) == base64_standard(encode_utf8(hex_lower(sha256_of(encode_utf8(v))))),
{
}

} // verus!
