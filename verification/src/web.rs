//! Small decisions of the HTTP layer: reading a cookie out of a `Cookie`
//! header, and checking the widget's access token.

use vstd::prelude::*;

use crate::admin::{is_admin_in, is_root_in, AdminService};
use crate::text::{index_of, split_on, split_str, trim, trim_str};

verus! {

/// The name and value of one `name=value` piece of a cookie header: the
/// piece is trimmed and cut at its first `=`.
pub open spec fn cookie_pair(part: Seq<char>) -> Option<(Seq<char>, Seq<char>)> {
    let t = trim(part);
    match index_of(t, '=') {
        Some(i) => Some((t.take(i), t.skip(i + 1))),
        None => None,
    }
}

/// The value of the first piece named `name`.
pub open spec fn first_cookie(parts: Seq<Seq<char>>, name: Seq<char>) -> Option<Seq<char>>
    decreases parts.len(),
{
    if parts.len() == 0 {
        None
    } else {
        match cookie_pair(parts[0]) {
            Some(p) => if p.0 == name {
                Some(p.1)
            } else {
                first_cookie(parts.skip(1), name)
            },
            None => first_cookie(parts.skip(1), name),
        }
    }
}

/// The cookie `name` of a `Cookie` header: the value of the first piece
/// with that name, unless that value is empty.
pub open spec fn cookie_value_of(raw: Seq<char>, name: Seq<char>) -> Option<Seq<char>> {
    match first_cookie(split_on(raw, ';'), name) {
        Some(v) => if v.len() > 0 {
            Some(v)
        } else {
            None
        },
        None => None,
    }
}

fn split_pair(part: &str) -> (r: Option<(String, String)>)
    ensures
        match r {
            Some(p) => cookie_pair(part@) == Some((p.0@, p.1@)),
            None => cookie_pair(part@) is None,
        },
{
    let t = trim_str(part);
    let chars = crate::text::chars_of(t.as_str());
    match crate::text::find_char(&chars, '=') {
        Some(i) => {
            assert(i < chars.len());
            let mut key: Vec<char> = Vec::new();
            let mut k: usize = 0;
            while k < i
                invariant
                    k <= i,
                    i < chars@.len(),
                    key@ == chars@.take(k as int),
                decreases i - k,
            {
                key.push(chars[k]);
                proof {
                    assert(chars@.take(k + 1) == chars@.take(k as int).push(chars@[k as int]));
                }
                k += 1;
            }
            let mut value: Vec<char> = Vec::new();
            let mut j: usize = i + 1;
            while j < chars.len()
                invariant
                    i + 1 <= j <= chars@.len(),
                    value@ == chars@.subrange(i + 1, j as int),
                decreases chars@.len() - j,
            {
                value.push(chars[j]);
                proof {
                    assert(chars@.subrange(i + 1, j + 1) == chars@.subrange(i + 1, j as int).push(
                        chars@[j as int],
                    ));
                }
                j += 1;
            }
            proof {
                assert(chars@.subrange(i + 1, chars@.len() as int) == chars@.skip(i + 1));
            }
            Some((crate::text::string_of(&key), crate::text::string_of(&value)))
        },
        None => None,
    }
}

/// The cookie `name` of a raw `Cookie` header, as the session middleware
/// reads it: the first piece named `name` decides, and an empty value
/// counts as absent.
pub fn cookie_value(raw: &str, name: &str) -> (r: Option<String>)
    ensures
        match r {
            Some(v) => cookie_value_of(raw@, name@) == Some(v@),
            None => cookie_value_of(raw@, name@) is None,
        },
{
    let parts = split_str(raw, ';');
    let ghost ps = split_on(raw@, ';');
    assert(ps.skip(0) == ps);
    let mut i: usize = 0;
    while i < parts.len()
        invariant
            i <= parts@.len(),
            crate::text::views_of(parts@) == ps,
            ps == split_on(raw@, ';'),
            first_cookie(ps, name@) == first_cookie(ps.skip(i as int), name@),
        decreases parts@.len() - i,
    {
        proof {
            assert(ps.skip(i as int).skip(1) == ps.skip(i + 1));
            assert(ps.skip(i as int)[0] == ps[i as int]);
            assert(parts@[i as int]@ == ps[i as int]);
        }
        match split_pair(parts[i].as_str()) {
            Some((key, value)) => {
                assert(cookie_pair(ps[i as int]) == Some((key@, value@)));
                if crate::text::eq_str(&key, name) {
                    assert(first_cookie(ps, name@) == Some(value@));
                    if value.as_str().is_empty() {
                        return None;
                    }
                    return Some(value);
                }
            },
            None => {},
        }
        i += 1;
    }
    proof {
        assert(ps.skip(i as int).len() == 0);
    }
    None
}

/// The role a route asks of the signed-in user.
#[derive(Debug, Clone, Copy, PartialEq, Eq, Structural)]
pub enum Role {
    Admin,
    Root,
}

/// The answer of an access check: `None` lets the request through, a
/// status refuses it.
pub open spec fn access_outcome(
    admins: AdminService,
    preflight: bool,
    twitch_user_id: Option<Seq<char>>,
    role: Role,
) -> Option<u16> {
    if preflight {
        None
    } else {
        match twitch_user_id {
            None => Some(401u16),
            Some(id) => {
                let allowed = match role {
                    Role::Admin => is_admin_in(admins.admins(), id),
                    Role::Root => is_root_in(admins.admins(), id),
                };
                if allowed {
                    None
                } else {
                    Some(403u16)
                }
            },
        }
    }
}

/// The access check of the admin and root routes: a CORS preflight
/// passes, a request without a session is unauthorised (401), and one
/// whose user lacks the role is forbidden (403).
pub fn check_access(
    admins: &AdminService,
    preflight: bool,
    twitch_user_id: Option<&str>,
    role: Role,
) -> (r: Option<u16>)
    ensures
        r == access_outcome(
            *admins,
            preflight,
            match twitch_user_id {
                Some(id) => Some(id@),
                None => None,
            },
            role,
        ),
{
    if preflight {
        return None;
    }
    let id = match twitch_user_id {
        Some(id) => id,
        None => {
            return Some(401);
        },
    };
    let allowed = match role {
        Role::Admin => admins.is_admin(id),
        Role::Root => admins.is_root(id),
    };
    match allowed {
        Ok(true) => None,
        Ok(false) => Some(403),
        Err(_) => Some(500),
    }
}

/// Compares two byte strings through `subtle`'s `ConstantTimeEq` for
/// slices; the result is whether they are equal (different lengths are
/// unequal, as the source checks first).
#[verifier::external_body]
fn ct_eq_bytes(a: &[u8], b: &[u8]) -> (r: bool)
    ensures
        r == (a@ == b@),
{
    subtle::ConstantTimeEq::ct_eq(a, b).into()
}

/// Whether the token a widget presents is the access key, compared in
/// constant time over their bytes.
pub fn widget_token_matches(token: &str, access_key: &str) -> (r: bool)
    ensures
        r == (token@ == access_key@),
{
    let r = ct_eq_bytes(token.as_bytes(), access_key.as_bytes());
    proof {
        vstd::utf8::encode_utf8_decode_utf8(token@);
        vstd::utf8::encode_utf8_decode_utf8(access_key@);
    }
    r
}

} // verus!
