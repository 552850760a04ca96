//! HTTP Basic authentication of the swarm's API: one user name and password.

use vstd::prelude::*;
use vstd::utf8::{decode_utf8, encode_utf8, valid_utf8};
use crate::text::{chars_of, has_prefix, str_eq, substring};

verus! {

/// The one user allowed to call the API.
pub struct AuthConfig {
    pub username: String,
    pub password: String,
}

/// The bytes standard base64 (with padding) decodes `s` to, if it is valid.
pub uninterp spec fn base64_decoded(s: Seq<char>) -> Option<Seq<u8>>;

/// Decodes `s` as standard base64, as `base64`'s `STANDARD` engine does. What
/// it accepts and gives is named by `base64_decoded`.
#[verifier::external_body]
fn base64_decode(s: &str) -> (r: Option<Vec<u8>>)
    ensures
        match (r, base64_decoded(s@)) {
            (Some(v), Some(b)) => v@ == b,
            (None, None) => true,
            _ => false,
        },
{
    base64::Engine::decode(&base64::engine::general_purpose::STANDARD, s).ok()
}

/// The text `bytes` encode, where they are valid UTF-8, as
/// `String::from_utf8` reads them.
#[verifier::external_body]
fn utf8_string(bytes: Vec<u8>) -> (r: Option<String>)
    ensures
        r is Some <==> valid_utf8(bytes@),
        r matches Some(s) ==> s@ == decode_utf8(bytes@),
{
    String::from_utf8(bytes).ok()
}

/// The position of the first `:` in `s` at or after `i`, if any.
pub open spec fn colon_from(s: Seq<char>, i: int) -> Option<int>
    decreases s.len() - i,
{
    if i < 0 || i >= s.len() {
        None
    } else if s[i] == ':' {
        Some(i)
    } else {
        colon_from(s, i + 1)
    }
}

/// The user name and password a `Basic` authorization header carries: after
/// `Basic `, base64 of UTF-8 text holding the name, a `:` and the password.
pub open spec fn basic_credentials(header: Seq<char>) -> Option<(Seq<char>, Seq<char>)> {
    if header.len() >= 6 && header.take(6) == "Basic "@ {
        match base64_decoded(header.skip(6)) {
            Some(bytes) => if valid_utf8(bytes) {
                let text = decode_utf8(bytes);
                match colon_from(text, 0) {
                    Some(i) => Some((text.take(i), text.skip(i + 1))),
                    None => None,
                }
            } else {
                None
            },
            None => None,
        }
    } else {
        None
    }
}

/// The user name and password of a `Basic` authorization header, if it is
/// one.
#[verifier::loop_isolation(false)]
pub fn parse_basic(header: &str) -> (r: Option<(String, String)>)
    ensures
        match (r, basic_credentials(header@)) {
            (Some((u, p)), Some((u2, p2))) => u@ == u2 && p@ == p2,
            (None, None) => true,
            _ => false,
        },
{
    let hv = chars_of(header);
    proof {
        reveal_strlit("Basic ");
    }
    if !has_prefix(&hv, "Basic ") {
        return None;
    }
    let encoded = substring(&hv, 6, hv.len());
    assert(encoded@ =~= header@.skip(6));
    let bytes = match base64_decode(encoded.as_str()) {
        Some(b) => b,
        None => return None,
    };
    let text = match utf8_string(bytes) {
        Some(t) => t,
        None => return None,
    };
    let tv = chars_of(text.as_str());
    let mut i: usize = 0;
    while i < tv.len()
        invariant
            i <= tv@.len(),
            tv@ == text@,
            colon_from(text@, 0) == colon_from(text@, i as int),
        decreases tv@.len() - i,
    {
        if tv[i] == ':' {
            let user = substring(&tv, 0, i);
            let pass = substring(&tv, i + 1, tv.len());
            assert(user@ =~= text@.take(i as int));
            assert(pass@ =~= text@.skip(i + 1));
            return Some((user, pass));
        }
        i = i + 1;
    }
    None
}

impl AuthConfig {
    /// Whether a request with authorization header `header` comes from the
    /// configured user: its `Basic` credentials must be exactly the user
    /// name and password.
    pub fn allows(&self, header: Option<&str>) -> (b: bool)
        ensures
            b == (header matches Some(h) && basic_credentials(h@) == Some((self.username@, self.password@))),
    {
        match header {
            None => false,
            Some(h) => match parse_basic(h) {
                None => false,
                Some((u, p)) => str_eq(u.as_str(), self.username.as_str()) && str_eq(p.as_str(), self.password.as_str()),
            },
        }
    }
}

/// The first `:` from `i` on in text whose characters from `i` up to `j` are
/// not `:` and whose character at `j` is, is at `j`.
proof fn lemma_colon_from(s: Seq<char>, i: int, j: int)
    requires
        0 <= i <= j < s.len(),
        s[j] == ':',
        forall|k: int| i <= k < j ==> #[trigger] s[k] != ':',
    ensures
        colon_from(s, i) == Some(j),
    decreases j - i,
{
    if i < j {
        lemma_colon_from(s, i + 1, j);
    }
}

/// A `Basic` header whose base64 part decodes to the UTF-8 text of a user
/// name without `:`, a `:` and a password carries that user name and that
/// password, whatever the password holds.
pub proof fn law_basic_header_carries_user_and_password(encoded: Seq<char>, user: Seq<char>, password: Seq<char>)
    requires
        forall|k: int| 0 <= k < user.len() ==> #[trigger] user[k] != ':',
        base64_decoded(encoded) == Some(encode_utf8(user + seq![':'] + password)),
    ensures
        basic_credentials("Basic "@ + encoded) == Some((user, password)),
{
    broadcast use vstd::utf8::group_utf8_lib;
    reveal_strlit("Basic ");
    let h = "Basic "@ + encoded;
    assert(h.take(6) =~= "Basic "@);
    assert(h.skip(6) =~= encoded);
    let text = user + seq![':'] + password;
    assert(decode_utf8(encode_utf8(text)) == text);
    assert forall|k: int| 0 <= k < user.len() implies #[trigger] text[k] != ':' by {
        assert(text[k] == user[k]);
    }
    lemma_colon_from(text, 0, user.len() as int);
    assert(text.take(user.len() as int) =~= user);
    assert(text.skip(user.len() as int + 1) =~= password);
}

} // verus!
