//! What a handler answers when it does not render a page, and what it does
//! to the visitor's session.

use vstd::prelude::*;

verus! {

/// An answer that is not a rendered page.
#[derive(Debug)]
pub enum Reply {
    /// `302 Found`, with the given `Location`.
    Redirect(String),
    /// `400 Bad Request`, with the given text as body.
    BadRequest(String),
    /// `422 Unprocessable Entity`, with the given text as body.
    Unprocessable(String),
    /// `404 Not Found`, with the site's not-found page as body.
    NotFound,
}

impl Reply {
    /// A redirect to `location`.
    pub open spec fn is_redirect_to(self, location: Seq<char>) -> bool {
        self matches Reply::Redirect(l) && l@ == location
    }

    /// A `400` whose body is `text`.
    pub open spec fn is_bad_request(self, text: Seq<char>) -> bool {
        self matches Reply::BadRequest(b) && b@ == text
    }

    /// A `422` whose body is `text`.
    pub open spec fn is_unprocessable(self, text: Seq<char>) -> bool {
        self matches Reply::Unprocessable(b) && b@ == text
    }
}

/// What the reply predicates say: the reply is of that kind and carries
/// exactly that text, character for character.
pub proof fn lemma_reply_kinds(r: Reply, text: Seq<char>)
    ensures
        r.is_redirect_to(text) <==> (r matches Reply::Redirect(l) && l@ == text),
        r.is_bad_request(text) <==> (r matches Reply::BadRequest(b) && b@ == text),
        r.is_unprocessable(text) <==> (r matches Reply::Unprocessable(b) && b@ == text),
        r.is_redirect_to(text) ==> !r.is_bad_request(text) && !r.is_unprocessable(text),
        r.is_bad_request(text) ==> !r.is_unprocessable(text),
{
}

/// A change to the signed-in identity kept in the visitor's cookie.
#[derive(Debug)]
pub enum SessionChange {
    /// Leave the session as it is.
    Keep,
    /// Sign the visitor in under this user name.
    Remember(String),
    /// Sign the visitor out.
    Forget,
}

/// A handler's full answer: the session change, then the reply.
#[derive(Debug)]
pub struct Answer {
    pub session: SessionChange,
    pub reply: Reply,
}

/// The database refused or failed a call; its details are only logged.
#[derive(Debug)]
pub struct DatabaseError;

/// The path of a court's page: `/court/` followed by `id`.
pub open spec fn court_path(id: Seq<char>) -> Seq<char> {
    seq!['/', 'c', 'o', 'u', 'r', 't', '/'] + id
}

/// Builds `/court/{id}`, the page of the court whose id is written `id`.
pub fn court_location(id: &str) -> (loc: String)
    ensures
        loc@ == court_path(id@),
        loc@.len() == 7 + id@.len(),
        loc@.subrange(0, 7) == seq!['/', 'c', 'o', 'u', 'r', 't', '/'],
        loc@.subrange(7, loc@.len() as int) == id@,
{
    let mut loc = String::from_str("/court/");
    proof {
        reveal_strlit("/court/");
    }
    loc.append(id);
    proof {
        lemma_court_path_parts(id@);
    }
    loc
}

/// A court's path is `/court/` followed by the id text, unchanged: the id
/// can be read back from the path, and different ids give different paths.
pub proof fn lemma_court_path_parts(id: Seq<char>)
    ensures
        court_path(id).len() == 7 + id.len(),
        court_path(id).subrange(0, 7) == seq!['/', 'c', 'o', 'u', 'r', 't', '/'],
        court_path(id).subrange(7, court_path(id).len() as int) == id,
{
    assert(court_path(id).subrange(0, 7) =~= seq!['/', 'c', 'o', 'u', 'r', 't', '/']);
    assert(court_path(id).subrange(7, court_path(id).len() as int) =~= id);
}

/// Different ids lead to different court pages.
pub proof fn lemma_court_path_injective(a: Seq<char>, b: Seq<char>)
    ensures
        (court_path(a) == court_path(b)) <==> (a == b),
{
    lemma_court_path_parts(a);
    lemma_court_path_parts(b);
}

/// A `400` with the given body.
pub fn bad_request(text: &str) -> (r: Reply)
    ensures
        r.is_bad_request(text@),
        r matches Reply::BadRequest(b) && b@ == text@,
{
    Reply::BadRequest(String::from_str(text))
}

/// A redirect to the given location.
pub fn redirect(location: &str) -> (r: Reply)
    ensures
        r.is_redirect_to(location@),
        r matches Reply::Redirect(l) && l@ == location@,
{
    Reply::Redirect(String::from_str(location))
}

} // verus!
