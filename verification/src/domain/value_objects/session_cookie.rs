//! The cookie that carries a Kratos session.
use vstd::prelude::*;
use crate::text::{contains, seq_contains, starts_with};

verus! {

/// A cookie that carries a session: its text mentions `session` or it is one of
/// Ory's own cookies.
pub open spec fn is_session_cookie(c: Seq<char>) -> bool {
    seq_contains(c, "session"@) || "ory_"@.is_prefix_of(c)
}

/// The first session cookie among `cookies`.
pub open spec fn first_session_cookie(cookies: Seq<Seq<char>>) -> Option<Seq<char>>
    decreases cookies.len(),
{
    if cookies.len() == 0 {
        None
    } else if is_session_cookie(cookies[0]) {
        Some(cookies[0])
    } else {
        first_session_cookie(cookies.drop_first())
    }
}

/// A cookie that carries a session.
#[derive(Debug)]
pub struct SessionCookie {
    value: String,
}

impl View for SessionCookie {
    type V = Seq<char>;

    closed spec fn view(&self) -> Seq<char> {
        self.value@
    }
}

impl SessionCookie {
    /// The first of `cookies` that carries a session.
    pub fn find_in(cookies: Vec<String>) -> (r: Option<SessionCookie>)
        ensures
            r matches Some(c) ==> first_session_cookie(cookies.deep_view()) == Some(c@),
            r is None ==> first_session_cookie(cookies.deep_view()) is None,
    {
        let ghost all = cookies.deep_view();
        let rest = cookies;
        let mut i: usize = 0;
        let n = rest.len();
        proof {
            assert(all.skip(0) =~= all);
        }
        while i < n
            invariant
                n == all.len(),
                rest.deep_view() == all,
                all == cookies.deep_view(),
                i <= n,
                first_session_cookie(all) == first_session_cookie(all.skip(i as int)),
            decreases n - i,
        {
            assert(all.skip(i as int).drop_first() =~= all.skip(i + 1));
            assert(all.skip(i as int)[0] == rest@[i as int]@);
            if contains(rest[i].as_str(), "session") || starts_with(rest[i].as_str(), "ory_") {
                let value = rest[i].clone();
                return Some(SessionCookie { value });
            }
            i = i + 1;
        }
        None
    }

    pub fn as_str(&self) -> (r: &str)
        ensures
            r@ == self@,
    {
        self.value.as_str()
    }

    /// The cookie's text.
    pub fn into_string(self) -> (r: String)
        ensures
            r@ == self@,
    {
        self.value
    }
}

} // verus!
