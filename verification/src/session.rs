//! Extraction of the legacy backend's session cookie from the
//! `Set-Cookie` headers of a login response.
//!
//! Splitting one cookie-header string into a name and a value is the
//! cookie crate's job; picking the session cookie out of the header
//! list is this module's, and is verified against the parse's named
//! result.
use vstd::prelude::*;
use vstd::string::StringExecFns;

verus! {

/// What `cookie::Cookie::parse` makes of one cookie-header string: the
/// cookie's name and value, or nothing where the string does not parse
/// as a cookie. The parse is a pure function of the string, so its
/// outcome carries a name that contracts can share.
pub uninterp spec fn parsed_cookie(s: Seq<char>) -> Option<(Seq<char>, Seq<char>)>;

/// Relies on `cookie::Cookie::parse` to split one cookie-header string
/// into its name and value (read back out through `Cookie::name` and
/// `Cookie::value`), with no percent-decoding.
#[verifier::external_body]
fn parse_cookie(header: &str) -> (r: Option<(String, String)>)
    ensures
        r matches Some(p) ==> parsed_cookie(header@) == Some((p.0@, p.1@)),
        r is None ==> parsed_cookie(header@) is None,
{
    match cookie::Cookie::parse(header) {
        Ok(c) => Some((c.name().to_string(), c.value().to_string())),
        Err(_) => None,
    }
}

/// The name under which the legacy backend issues its session cookie.
pub open spec fn spec_session_cookie_name() -> Seq<char> {
    "_social_session"@
}

/// The session value carried by a list of `Set-Cookie` header values:
/// the value of the first header that parses as a cookie named
/// `_social_session`. Headers that do not parse as cookies carry no
/// session.
pub open spec fn spec_find_session(headers: Seq<Seq<char>>) -> Option<Seq<char>>
    decreases headers.len(),
{
    if headers.len() == 0 {
        None
    } else {
        match parsed_cookie(headers[0]) {
            Some(p) => if p.0 == spec_session_cookie_name() {
                Some(p.1)
            } else {
                spec_find_session(headers.drop_first())
            },
            None => spec_find_session(headers.drop_first()),
        }
    }
}

/// Picks the session value out of the `Set-Cookie` header values of a
/// login response, exactly as [`spec_find_session`] states.
pub fn find_session(headers: &Vec<String>) -> (r: Option<String>)
    ensures
        match r {
            Some(v) => spec_find_session(headers@.map_values(|h: String| h@)) == Some(v@),
            None => spec_find_session(headers@.map_values(|h: String| h@)) is None,
        },
{
    let ghost hs = headers@.map_values(|h: String| h@);
    proof {
        assert(hs.skip(0) =~= hs);
    }
    let mut i: usize = 0;
    while i < headers.len()
        invariant
            0 <= i <= headers.len(),
            hs == headers@.map_values(|h: String| h@),
            hs.len() == headers.len(),
            spec_find_session(hs) == spec_find_session(hs.skip(i as int)),
        decreases headers.len() - i,
    {
        proof {
            assert(hs.skip(i as int).len() > 0);
            assert(hs.skip(i as int)[0] == hs[i as int]);
            assert(hs.skip(i as int).drop_first() =~= hs.skip(i as int + 1));
        }
        match parse_cookie(headers[i].as_str()) {
            Some(p) => {
                if is_session_cookie_name(&p.0) {
                    return Some(p.1);
                }
            },
            None => {},
        }
        i = i + 1;
    }
    proof {
        assert(hs.skip(i as int) =~= Seq::<Seq<char>>::empty());
    }
    None
}

/// Compares a cookie name against the fixed session-cookie name.
fn is_session_cookie_name(name: &String) -> (r: bool)
    ensures
        r == (name@ == spec_session_cookie_name()),
{
    let expected = String::from_str("_social_session");
    *name == expected
}

} // verus!
