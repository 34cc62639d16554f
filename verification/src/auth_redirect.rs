//! Redirect targets after sign-in: which targets are safe, and how they are put in a query.
use vstd::prelude::*;
use vstd::string::{StringExecFns, StringSliceAdditionalSpecFns};

use crate::text::{contains_str, contains_text, has_prefix, occurs_at, push_char, starts_with};

verus! {

broadcast use vstd::string::group_string_axioms;

/// A byte that a query value keeps as it is: ASCII letters, digits and `-`, `.`, `_`, `~`.
pub open spec fn spec_is_unreserved(byte: u8) -> bool {
    (65 <= byte <= 90) || (97 <= byte <= 122) || (48 <= byte <= 57) || byte == 45 || byte == 46
        || byte == 95 || byte == 126
}

/// Upper-case hexadecimal digit for `d` (`0 <= d < 16`).
pub open spec fn hex_digit(d: int) -> char {
    if d < 10 {
        (48 + d) as char
    } else {
        (55 + d) as char
    }
}

/// How one byte of a query value is written: a space becomes `+`, `/` and unreserved bytes stay,
/// every other byte becomes `%` and two upper-case hex digits.
pub open spec fn encode_byte(byte: u8) -> Seq<char> {
    if byte == 32 {
        seq!['+']
    } else if byte == 47 {
        seq!['/']
    } else if spec_is_unreserved(byte) {
        seq![byte as char]
    } else {
        seq!['%', hex_digit(byte as int / 16), hex_digit(byte as int % 16)]
    }
}

/// The encoding of a whole byte sequence, byte after byte.
pub open spec fn encode_bytes(bytes: Seq<u8>) -> Seq<char>
    decreases bytes.len(),
{
    if bytes.len() == 0 {
        Seq::empty()
    } else {
        encode_bytes(bytes.drop_last()) + encode_byte(bytes.last())
    }
}

/// The value of an upper-case hexadecimal digit.
pub open spec fn hex_value(c: char) -> int {
    if (c as u32) <= 57 {
        c as u32 - 48
    } else {
        c as u32 - 55
    }
}

/// The bytes a query value stands for, read from the front: `+` is a space, `%` and two hex
/// digits are the byte they spell, any other character is its own code.
pub open spec fn decode_query(s: Seq<char>) -> Seq<u8>
    decreases s.len(),
{
    if s.len() == 0 {
        Seq::empty()
    } else if s[0] == '+' {
        seq![32u8] + decode_query(s.skip(1))
    } else if s[0] == '%' && s.len() >= 3 {
        seq![(hex_value(s[1]) * 16 + hex_value(s[2])) as u8] + decode_query(s.skip(3))
    } else {
        seq![(s[0] as u32) as u8] + decode_query(s.skip(1))
    }
}

proof fn lemma_encode_prepend(x: u8, rest: Seq<u8>)
    ensures
        encode_bytes(seq![x] + rest) == encode_byte(x) + encode_bytes(rest),
    decreases rest.len(),
{
    if rest.len() == 0 {
        assert(seq![x] + rest =~= seq![x]);
        assert(seq![x].drop_last() =~= Seq::<u8>::empty());
        assert(encode_byte(x) + encode_bytes(rest) =~= encode_byte(x));
        assert(encode_bytes(seq![x]) =~= encode_bytes(Seq::<u8>::empty()) + encode_byte(x));
    } else {
        let r = rest.drop_last();
        lemma_encode_prepend(x, r);
        assert((seq![x] + rest).drop_last() =~= seq![x] + r);
        assert((seq![x] + rest).last() == rest.last());
        assert(encode_byte(x) + encode_bytes(rest) =~= encode_byte(x) + encode_bytes(r)
            + encode_byte(rest.last()));
    }
}

proof fn lemma_hex_digit_value(d: int)
    requires
        0 <= d < 16,
    ensures
        hex_value(hex_digit(d)) == d,
        hex_digit(d) != '+',
{
    if d < 10 {
        assert(((48 + d) as char) as u32 == 48 + d);
    } else {
        assert(((55 + d) as char) as u32 == 55 + d);
    }
}

proof fn lemma_decode_step(x: u8, t: Seq<char>)
    ensures
        decode_query(encode_byte(x) + t) == seq![x] + decode_query(t),
{
    let e = encode_byte(x) + t;
    if x == 32 {
        assert(e[0] == '+');
        assert(e.skip(1) =~= t);
    } else if x == 47 {
        assert(e[0] == '/');
        assert(('/' as u32) as u8 == 47u8);
        assert(e.skip(1) =~= t);
    } else if spec_is_unreserved(x) {
        assert(e[0] == x as char);
        assert((x as char) as u32 == x as u32);
        assert(e.skip(1) =~= t);
    } else {
        lemma_hex_digit_value(x as int / 16);
        lemma_hex_digit_value(x as int % 16);
        assert(e[0] == '%');
        assert(e[1] == hex_digit(x as int / 16));
        assert(e[2] == hex_digit(x as int % 16));
        assert(e.skip(3) =~= t);
        assert((x as int / 16) * 16 + x as int % 16 == x as int);
    }
}

/// Decoding what [`encode_query_value`] writes gives back exactly the bytes of the value.
pub proof fn lemma_query_value_round_trip(bytes: Seq<u8>)
    ensures
        decode_query(encode_bytes(bytes)) == bytes,
    decreases bytes.len(),
{
    if bytes.len() > 0 {
        let rest = bytes.skip(1);
        assert(bytes =~= seq![bytes[0]] + rest);
        lemma_encode_prepend(bytes[0], rest);
        lemma_decode_step(bytes[0], encode_bytes(rest));
        lemma_query_value_round_trip(rest);
    }
}

/// A redirect target that stays on this site: it starts with `/`, not with `//`, and holds no `://`.
pub open spec fn spec_is_safe_redirect(value: Seq<char>) -> bool {
    has_prefix(value, seq!['/']) && !has_prefix(value, seq!['/', '/']) && !contains_text(
        value,
        seq![':', '/', '/'],
    )
}

fn is_unreserved(byte: u8) -> (r: bool)
    ensures
        r == spec_is_unreserved(byte),
{
    (65 <= byte && byte <= 90) || (97 <= byte && byte <= 122) || (48 <= byte && byte <= 57)
        || byte == 45 || byte == 46 || byte == 95 || byte == 126
}

fn hex_char(d: u8) -> (c: char)
    requires
        d < 16,
    ensures
        c == hex_digit(d as int),
{
    if d < 10 {
        (d + 48u8) as char
    } else {
        (d + 55u8) as char
    }
}

/// Writes `value` for a query string: the UTF-8 bytes of `value`, each as [`encode_byte`] says.
pub fn encode_query_value(value: &str) -> (r: String)
    ensures
        r@ == encode_bytes(value.spec_bytes()),
{
    let bytes = value.as_bytes();
    let mut encoded = String::new();
    let mut i: usize = 0;
    while i < bytes.len()
        invariant
            i <= bytes.len(),
            bytes@ == value.spec_bytes(),
            encoded@ == encode_bytes(bytes@.take(i as int)),
        decreases bytes.len() - i,
    {
        let byte = bytes[i];
        let ghost before = encoded@;
        if byte == 32 {
            push_char(&mut encoded, '+');
        } else if byte == 47 {
            push_char(&mut encoded, '/');
        } else if is_unreserved(byte) {
            push_char(&mut encoded, byte as char);
        } else {
            push_char(&mut encoded, '%');
            push_char(&mut encoded, hex_char(byte / 16));
            push_char(&mut encoded, hex_char(byte % 16));
        }
        assert(encoded@ == before + encode_byte(byte));
        assert(bytes@.take(i + 1).drop_last() == bytes@.take(i as int));
        i = i + 1;
    }
    assert(bytes@.take(bytes.len() as int) == bytes@);
    encoded
}

/// The login page URL that returns to `target` afterwards.
pub fn login_redirect_url(target: &str) -> (r: String)
    ensures
        r@ == "/login?redirect_to="@ + encode_bytes(target.spec_bytes()),
{
    let encoded = encode_query_value(target);
    let mut r = "/login?redirect_to=".to_string();
    r.append(encoded.as_str());
    r
}

/// Whether `value` is a redirect target that stays on this site.
pub fn is_safe_redirect(value: &str) -> (r: bool)
    ensures
        r == spec_is_safe_redirect(value@),
{
    proof {
        reveal_strlit("/");
        reveal_strlit("//");
        reveal_strlit("://");
        assert("/"@ =~= seq!['/']);
        assert("//"@ =~= seq!['/', '/']);
        assert("://"@ =~= seq![':', '/', '/']);
    }
    starts_with(value, "/") && !starts_with(value, "//") && !contains_str(value, "://")
}

/// Keeps `redirect_to` only when it is a safe redirect target.
pub fn sanitize_redirect_target(redirect_to: Option<&str>) -> (r: Option<&str>)
    ensures
        r == (match redirect_to {
            Some(v) => if spec_is_safe_redirect(v@) {
                Some(v)
            } else {
                None
            },
            None => None,
        }),
{
    match redirect_to {
        Some(value) => if is_safe_redirect(value) {
            Some(value)
        } else {
            None
        },
        None => None,
    }
}

/// Where to go after sign-in: `redirect_to` when it is safe, else the site root.
pub fn resolve_redirect_target(redirect_to: Option<&str>) -> (r: String)
    ensures
        r@ == (match redirect_to {
            Some(v) => if spec_is_safe_redirect(v@) {
                v@
            } else {
                seq!['/']
            },
            None => seq!['/'],
        }),
{
    proof {
        reveal_strlit("/");
        assert("/"@ =~= seq!['/']);
    }
    match redirect_to {
        Some(value) => if is_safe_redirect(value) {
            value.to_string()
        } else {
            "/".to_string()
        },
        None => "/".to_string(),
    }
}

/// The GitHub sign-in link, carrying `redirect_to` when it is safe.
pub fn github_auth_href(redirect_to: Option<&str>) -> (r: String)
    ensures
        r@ == (match redirect_to {
            Some(v) => if spec_is_safe_redirect(v@) {
                "/auth/github?redirect_to="@ + encode_bytes(v.spec_bytes())
            } else {
                "/auth/github"@
            },
            None => "/auth/github"@,
        }),
{
    match sanitize_redirect_target(redirect_to) {
        Some(value) => {
            let encoded = encode_query_value(value);
            let mut r = "/auth/github?redirect_to=".to_string();
            r.append(encoded.as_str());
            r
        },
        None => "/auth/github".to_string(),
    }
}

/// Where the login page sends a visitor who is already signed in: the safe `redirect_to`, else
/// the root; a visitor who is not signed in stays.
pub fn login_redirect_target(authenticated: bool, redirect_to: Option<&str>) -> (r: Option<String>)
    ensures
        !authenticated ==> r is None,
        authenticated ==> r is Some && r->0@ == (match redirect_to {
            Some(v) => if spec_is_safe_redirect(v@) {
                v@
            } else {
                seq!['/']
            },
            None => seq!['/'],
        }),
{
    if !authenticated {
        return None;
    }
    Some(resolve_redirect_target(redirect_to))
}

/// Every answer of [`resolve_redirect_target`] is itself a safe redirect target.
pub proof fn lemma_resolved_target_is_safe(redirect_to: Option<Seq<char>>)
    ensures
        spec_is_safe_redirect(
            match redirect_to {
                Some(v) => if spec_is_safe_redirect(v) {
                    v
                } else {
                    seq!['/']
                },
                None => seq!['/'],
            },
        ),
{
    let root = seq!['/'];
    assert(root.take(1) =~= root);
    assert(!contains_text(root, seq![':', '/', '/']));
}

/// Where the header's sign-in link leads from the page at `route`: back to that page after
/// signing in when it is a safe target other than the home page, else the plain sign-in page.
pub fn header_login_href(route: &str) -> (r: String)
    ensures
        r@ == (if spec_is_safe_redirect(route@) && route@ != seq!['/'] {
            "/login?redirect_to="@ + encode_bytes(route.spec_bytes())
        } else {
            "/login"@
        }),
{
    match sanitize_redirect_target(Some(route)) {
        Some(target) => {
            if target.unicode_len() == 1 && target.get_char(0) == '/' {
                proof {
                    assert(target@ =~= seq!['/']);
                }
                "/login".to_string()
            } else {
                proof {
                    if target@ == seq!['/'] {
                        assert(target@.len() == 1);
                    }
                }
                login_redirect_url(target)
            }
        },
        None => "/login".to_string(),
    }
}

/// A redirect target is safe exactly when it starts with `/`, its second character (if any) is
/// not `/`, and `:` followed by `//` occurs nowhere in it; nothing else is asked of it.
pub proof fn lemma_safe_redirect_exactly(v: Seq<char>)
    ensures
        spec_is_safe_redirect(v) <==> {
            &&& v.len() >= 1
            &&& v[0] == '/'
            &&& !(v.len() >= 2 && v[1] == '/')
            &&& !(exists|i: int|
                0 <= i && i + 2 < v.len() && v[i] == ':' && v[i + 1] == '/' && #[trigger] v[i + 2]
                    == '/')
        },
{
    let pat = seq![':', '/', '/'];
    if v.len() >= 1 {
        assert(has_prefix(v, seq!['/']) <==> v[0] == '/') by {
            if v[0] == '/' {
                assert(v.take(1) =~= seq!['/']);
            }
            if has_prefix(v, seq!['/']) {
                assert(v.take(1)[0] == v[0]);
            }
        }
    }
    if v.len() >= 2 {
        assert(has_prefix(v, seq!['/', '/']) <==> (v[0] == '/' && v[1] == '/')) by {
            if v[0] == '/' && v[1] == '/' {
                assert(v.take(2) =~= seq!['/', '/']);
            }
            if has_prefix(v, seq!['/', '/']) {
                assert(v.take(2)[0] == v[0] && v.take(2)[1] == v[1]);
            }
        }
    }
    assert(contains_text(v, pat) <==> exists|i: int|
        0 <= i && i + 2 < v.len() && v[i] == ':' && v[i + 1] == '/' && #[trigger] v[i + 2]
            == '/') by {
        if contains_text(v, pat) {
            let i = choose|i: int| occurs_at(v, pat, i);
            assert(v.subrange(i, i + 3)[0] == v[i]);
            assert(v.subrange(i, i + 3)[1] == v[i + 1]);
            assert(v.subrange(i, i + 3)[2] == v[i + 2]);
        }
        if exists|i: int|
            0 <= i && i + 2 < v.len() && v[i] == ':' && v[i + 1] == '/' && #[trigger] v[i + 2]
                == '/' {
            let i = choose|i: int|
                0 <= i && i + 2 < v.len() && v[i] == ':' && v[i + 1] == '/' && #[trigger] v[i + 2]
                    == '/';
            assert(v.subrange(i, i + 3) =~= pat);
            assert(occurs_at(v, pat, i));
        }
    }
}

} // verus!
