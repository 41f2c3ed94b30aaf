use vstd::prelude::*;
use vstd::string::StringExecFns;

verus! {

/// What a response looks like to a client: status code, `Location` header
/// (empty when absent) and body.
pub type ResponseView = (u16, Seq<char>, Seq<char>);

/// An HTTP-level response as the core computes and stores it.
pub struct Response {
    pub status: u16,
    pub location: String,
    pub body: String,
}

impl View for Response {
    type V = ResponseView;

    open spec fn view(&self) -> ResponseView {
        (self.status, self.location@, self.body@)
    }
}

/// Path of the newsletter form, where every publish outcome redirects.
pub open spec fn newsletters_path() -> Seq<char> {
    "/admin/newsletters"@
}

impl Response {
    /// A response with the given status, no `Location` and an empty body.
    pub fn with_status(status: u16) -> (r: Response)
        ensures
            r@ == (status, Seq::<char>::empty(), Seq::<char>::empty()),
    {
        let r = Response { status, location: String::new(), body: String::new() };
        proof {
            assert(r.location@ =~= Seq::<char>::empty());
        }
        r
    }

    /// A `303 See Other` to `location`, carrying `notice` as its body.
    pub fn see_other(location: &str, notice: &str) -> (r: Response)
        ensures
            r@ == (303u16, location@, notice@),
    {
        Response { status: 303, location: String::from_str(location), body: String::from_str(notice) }
    }

    /// An independent copy with the same status, header and body.
    pub fn duplicate(&self) -> (r: Response)
        ensures
            r@ == self@,
    {
        Response { status: self.status, location: self.location.clone(), body: self.body.clone() }
    }
}

} // verus!
