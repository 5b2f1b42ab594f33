use vstd::prelude::*;
use vstd::utf8::{decode_utf8, encode_utf8, valid_utf8};
use crate::text::{
    chars_of, find_from, find_from_exec, find_or_end, is_space, lemma_find_first, lemma_find_from_bounds,
    lemma_find_is_match, lemma_find_none,
    law_ascii_white_space, lemma_second_word_of_line, matches_at, second_word, second_word_bounds,
};

verus! {

/// The text that std's `FromUtf8Error` displays for bytes that are not
/// UTF-8 (it names how far decoding got and what stopped it).
pub uninterp spec fn utf8_error_message(bytes: Seq<u8>) -> Seq<char>;

/// Decodes bytes as UTF-8 (std's `String::from_utf8`): succeeds exactly on
/// valid UTF-8, and then holds the characters those bytes encode; else it
/// gives the decoding error, converted to its displayed text.
#[verifier::external_body]
fn string_from_utf8(bytes: Vec<u8>) -> (res: Result<String, String>)
    ensures
        res is Ok <==> valid_utf8(bytes@),
        res matches Ok(s) ==> s@ == decode_utf8(bytes@),
        res matches Err(m) ==> m@ == utf8_error_message(bytes@),
{
    String::from_utf8(bytes).map_err(|e| e.to_string())
}

/// The query key that carries the authorization code in a redirect.
pub open spec fn code_key() -> Seq<char> {
    seq!['c', 'o', 'd', 'e', '=']
}

/// The separator between query parameters.
pub open spec fn param_separator() -> Seq<char> {
    seq!['&']
}

/// The authorization code carried by a redirect target: the text after the
/// first `code=`, up to the next `&` or the next `code=`, whichever comes
/// first (or the end). None when `code=` does not occur.
pub open spec fn auth_code_of(target: Seq<char>) -> Option<Seq<char>> {
    match find_from(target, code_key(), 0) {
        None => None,
        Some(k) => {
            let start = k + 5;
            let stop = find_or_end(target, code_key(), start);
            let amp = find_or_end(target, param_separator(), start);
            Some(target.subrange(start, if amp < stop { amp } else { stop }))
        },
    }
}

/// Takes the authorization code out of the target of the redirect request
/// (such as `/riff?code=XYZ&state=1`).
pub fn authorization_code(target: &str) -> (code: Option<String>)
    ensures
        match code {
            Some(c) => auth_code_of(target@) == Some(c@),
            None => auth_code_of(target@) is None,
        },
{
    let chars = chars_of(target);
    let key: Vec<char> = vec!['c', 'o', 'd', 'e', '='];
    let sep: Vec<char> = vec!['&'];
    assert(key@ == code_key());
    assert(sep@ == param_separator());
    match find_from_exec(&chars, &key, 0) {
        None => None,
        Some(k) => {
            proof {
                lemma_find_from_bounds(chars@, key@, 0, k as int);
            }
            let start = k + 5;
            let stop = match find_from_exec(&chars, &key, start) {
                Some(e) => {
                    proof {
                        lemma_find_from_bounds(chars@, key@, start as int, e as int);
                    }
                    e
                },
                None => chars.len(),
            };
            let amp = match find_from_exec(&chars, &sep, start) {
                Some(e) => {
                    proof {
                        lemma_find_from_bounds(chars@, sep@, start as int, e as int);
                    }
                    e
                },
                None => chars.len(),
            };
            let end = if amp < stop { amp } else { stop };
            let piece = target.substring_char(start, end);
            Some(String::from_str(piece))
        },
    }
}

/// What the redirect listener does with one request it read.
#[derive(Debug)]
pub enum ConnectionReply {
    /// The request line had a target: answer with the success page and
    /// hand the target on.
    Accepted(String),
    /// The bytes were not UTF-8: answer with a 400 carrying this message.
    Rejected(String),
    /// The request had no target: send nothing.
    Ignored,
}

/// The prefix of the message sent back for a request that is not UTF-8.
pub open spec fn invalid_utf8_prefix() -> Seq<char> {
    "Invalid UTF-8 sequence: "@
}

/// Decides the reply to a request read into `buffer`: its target is the
/// second white-space separated word of the decoded text.
pub fn handle_connection(buffer: &[u8]) -> (reply: ConnectionReply)
    ensures
        match reply {
            ConnectionReply::Accepted(t) => valid_utf8(buffer@)
                && second_word(decode_utf8(buffer@)) == Some(t@),
            ConnectionReply::Ignored => valid_utf8(buffer@)
                && second_word(decode_utf8(buffer@)) is None,
            ConnectionReply::Rejected(m) => !valid_utf8(buffer@)
                && m@ == invalid_utf8_prefix() + utf8_error_message(buffer@),
        },
{
    let bytes = vstd::slice::slice_to_vec(buffer);
    match string_from_utf8(bytes) {
        Ok(request) => {
            let chars = chars_of(request.as_str());
            match second_word_bounds(&chars) {
                Some((a, b)) => {
                    let word = request.as_str().substring_char(a, b);
                    ConnectionReply::Accepted(String::from_str(word))
                },
                None => ConnectionReply::Ignored,
            }
        },
        Err(detail) => {
            let mut msg = String::from_str("Invalid UTF-8 sequence: ");
            msg.append(detail.as_str());
            assert(msg@ == invalid_utf8_prefix() + detail@);
            ConnectionReply::Rejected(msg)
        },
    }
}

/// The response sent for an accepted redirect: a 200 status line, an
/// empty header block and the page.
pub fn success_response(contents: &str) -> (response: String)
    ensures
        response@ == "HTTP/1.1 200 OK\r\n\r\n"@ + contents@,
{
    let mut response = String::from_str("HTTP/1.1 200 OK\r\n\r\n");
    response.append(contents);
    response
}

/// The response sent for a rejected request: a 400 status line, an empty
/// header block and a body naming the error.
pub fn error_response(error_message: &str) -> (response: String)
    ensures
        response@ == "HTTP/1.1 400 Bad Request\r\n\r\n400 - Bad Request - "@ + error_message@,
{
    let mut response = String::from_str("HTTP/1.1 400 Bad Request\r\n\r\n400 - Bad Request - ");
    response.append(error_message);
    response
}

/// What reading the token cache gave.
#[derive(Debug, Clone, Copy, PartialEq, Eq)]
pub enum CacheRead {
    /// A token that has not expired.
    Fresh,
    /// A token that has expired.
    Expired,
    /// The cache held no token.
    Empty,
    /// The cache could not be read.
    Unreadable,
}

/// How to get an access token from there.
#[derive(Debug, Clone, Copy, PartialEq, Eq)]
pub enum TokenPlan {
    /// Use the cached token as it is.
    UseCached,
    /// Install the cached token, then refresh it.
    RefreshCached,
    /// Ask the user to authorize again and request a new token.
    Authorize,
}

/// Chooses how to obtain an access token from what the token cache gave.
pub fn plan_access_token(read: &CacheRead) -> (plan: TokenPlan)
    ensures
        match read {
            CacheRead::Fresh => plan is UseCached,
            CacheRead::Expired => plan is RefreshCached,
            CacheRead::Empty | CacheRead::Unreadable => plan is Authorize,
        },
{
    match read {
        CacheRead::Fresh => TokenPlan::UseCached,
        CacheRead::Expired => TokenPlan::RefreshCached,
        CacheRead::Empty => TokenPlan::Authorize,
        CacheRead::Unreadable => TokenPlan::Authorize,
    }
}

/// `code=` cannot begin inside a text that ends right where a `code=`
/// begins: no proper suffix of `code=` is one of its prefixes.
proof fn lemma_no_straddle(s: Seq<char>, p: int, i: int)
    requires
        matches_at(s, code_key(), p),
        p - 5 < i < p,
    ensures
        !matches_at(s, code_key(), i),
{
    if matches_at(s, code_key(), i) {
        let d = p - i;
        assert(s[i + d] == code_key()[d]);
        assert(s[p + 0] == code_key()[0]);
    }
}

/// The code a redirect carries comes back out: for a target made of a
/// prefix in which `code=` does not occur, `code=`, a code without `&`
/// or `code=` in it, and nothing more or a further parameter after `&`,
/// the code read from the target is that code.
pub proof fn law_authorization_code_round_trip(prefix: Seq<char>, code: Seq<char>, rest: Seq<char>)
    requires
        forall|j: int| !#[trigger] matches_at(prefix, code_key(), j),
        forall|j: int| !#[trigger] matches_at(code, code_key(), j),
        forall|j: int| 0 <= j < code.len() ==> #[trigger] code[j] != '&',
        rest.len() == 0 || rest[0] == '&',
    ensures
        auth_code_of(prefix + code_key() + code + rest) == Some(code),
{
    let key = code_key();
    let s = prefix + key + code + rest;
    let p = prefix.len() as int;
    let start = p + 5;
    let end = start + code.len();
    // `code=` first occurs right after the prefix.
    assert(matches_at(s, key, p)) by {
        assert forall|j: int| 0 <= j < key.len() implies #[trigger] s[p + j] == key[j] by {}
    }
    assert forall|j: int| 0 <= j < p implies !#[trigger] matches_at(s, key, j) by {
        if j + 5 <= p {
            if matches_at(s, key, j) {
                assert forall|t: int| 0 <= t < key.len() implies #[trigger] prefix[j + t] == key[t] by {
                    assert(s[j + t] == prefix[j + t]);
                }
                assert(matches_at(prefix, key, j));
            }
        } else {
            lemma_no_straddle(s, p, j);
        }
    }
    lemma_find_first(s, key, 0, p);
    // After it, the code runs up to the end or to the `&` that follows.
    assert forall|j: int| start <= j < end implies #[trigger] s[j] == code[j - start] && s[j] != '&' by {}
    if rest.len() == 0 {
        assert forall|j: int| start <= j <= s.len() implies !#[trigger] matches_at(s, key, j) by {
            if matches_at(s, key, j) {
                assert forall|t: int| 0 <= t < key.len() implies #[trigger] code[j - start + t] == key[t] by {
                    assert(s[j + t] == code[j - start + t]);
                }
                assert(matches_at(code, key, j - start));
            }
        }
        lemma_find_none(s, key, start);
        assert forall|j: int| start <= j <= s.len() implies !#[trigger] matches_at(s, param_separator(), j) by {
            if matches_at(s, param_separator(), j) {
                assert(s[j + 0] == '&');
            }
        }
        lemma_find_none(s, param_separator(), start);
    } else {
        assert(s[end] == '&');
        assert forall|j: int| start <= j < end implies !#[trigger] matches_at(s, param_separator(), j) by {
            if matches_at(s, param_separator(), j) {
                assert(s[j + 0] == '&');
            }
        }
        assert(matches_at(s, param_separator(), end)) by {
            assert forall|t: int| 0 <= t < param_separator().len() implies #[trigger] s[end + t] == param_separator()[t] by {}
        }
        lemma_find_first(s, param_separator(), start, end);
        assert forall|j: int| start <= j <= end implies !#[trigger] matches_at(s, key, j) by {
            if matches_at(s, key, j) {
                if j + 5 <= end {
                    assert forall|t: int| 0 <= t < key.len() implies #[trigger] code[j - start + t] == key[t] by {
                        assert(s[j + t] == code[j - start + t]);
                    }
                    assert(matches_at(code, key, j - start));
                } else {
                    let t = end - j;
                    assert(s[j + t] == key[t]);
                }
            }
        }
        match find_from(s, key, start) {
            Some(k) => {
                lemma_find_from_bounds(s, key, start, k);
                if k <= end {
                    assert(matches_at(s, key, k)) by {
                        lemma_find_is_match(s, key, start, k);
                    }
                }
            },
            None => {},
        }
    }
    assert(s.subrange(start, end) =~= code);
}

/// The listener reads the target out of a request: the UTF-8 bytes of a
/// method, a space, a target and a rest that begins with white space (or
/// is empty) decode, and their target is the second word, as
/// `handle_connection` hands it on.
pub proof fn law_request_target(method: Seq<char>, target: Seq<char>, rest: Seq<char>)
    requires
        method.len() > 0,
        target.len() > 0,
        forall|j: int| 0 <= j < method.len() ==> !is_space(#[trigger] method[j]),
        forall|j: int| 0 <= j < target.len() ==> !is_space(#[trigger] target[j]),
        rest.len() == 0 || is_space(rest[0]),
    ensures
        valid_utf8(encode_utf8(method + seq![' '] + target + rest)),
        second_word(decode_utf8(encode_utf8(method + seq![' '] + target + rest))) == Some(target),
{
    let line = method + seq![' '] + target + rest;
    vstd::utf8::encode_utf8_valid_utf8(line);
    vstd::utf8::encode_utf8_decode_utf8(line);
    lemma_second_word_of_line(method, target, rest);
}

/// A request line in printable ASCII hands on its whole target: for a
/// method and a target made of printable ASCII characters other than the
/// space (`!` to `~`, so `-`, `_`, `?`, `=`, `&` included), followed by a
/// space, a carriage return, a line feed or nothing, the decoded second
/// word is the target, every character of it.
pub proof fn law_printable_target_kept_whole(method: Seq<char>, target: Seq<char>, rest: Seq<char>)
    requires
        method.len() > 0,
        target.len() > 0,
        forall|j: int| 0 <= j < method.len() ==> 0x21 <= (#[trigger] method[j] as u32) <= 0x7e,
        forall|j: int| 0 <= j < target.len() ==> 0x21 <= (#[trigger] target[j] as u32) <= 0x7e,
        rest.len() == 0 || rest[0] == ' ' || rest[0] == '\r' || rest[0] == '\n',
    ensures
        valid_utf8(encode_utf8(method + seq![' '] + target + rest)),
        second_word(decode_utf8(encode_utf8(method + seq![' '] + target + rest))) == Some(target),
{
    assert forall|j: int| 0 <= j < method.len() implies !is_space(#[trigger] method[j]) by {
        law_ascii_white_space(method[j]);
    }
    assert forall|j: int| 0 <= j < target.len() implies !is_space(#[trigger] target[j]) by {
        law_ascii_white_space(target[j]);
    }
    if rest.len() > 0 {
        law_ascii_white_space(rest[0]);
    }
    law_request_target(method, target, rest);
}

} // verus!
