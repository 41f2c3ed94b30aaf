use crate::response::{newsletters_path, Response};
use vstd::prelude::*;
use vstd::string::StringExecFns;

verus! {

/// The two renderings of an issue's body.
pub struct Content {
    pub html: String,
    pub text: String,
}

impl Content {
    /// Keeps `content` as the text body and wraps it in a paragraph for HTML.
    pub fn parse(content: &str) -> (c: Content)
        ensures
            c.text@ == content@,
            c.html@ == "<p>"@ + content@ + "</p>"@,
    {
        let html = String::from_str("<p>");
        let html = html.concat(content);
        let html = html.concat("</p>");
        Content { text: String::from_str(content), html }
    }
}

/// The fields posted by the publish form.
pub struct NewsletterFormData {
    pub title: String,
    pub text_content: String,
    pub html_content: String,
    pub idempotency_key: String,
}

/// A validated issue, ready to be stored.
pub struct Newsletter {
    pub title: String,
    pub content: Content,
}

/// The form is acceptable: title and both bodies are non-empty.
pub open spec fn is_valid_form(form: NewsletterFormData) -> bool {
    form.title@.len() > 0 && form.text_content@.len() > 0 && form.html_content@.len() > 0
}

/// The message given when a required field is empty.
pub open spec fn empty_fields_message() -> Seq<char> {
    "Fields cannot be empty"@
}

/// Why a publish request was not accepted.
pub enum PublishError {
    UnexpectedError(String),
    ValidationError(String),
}

impl PublishError {
    /// The response a client sees for this error.
    pub open spec fn response_spec(&self) -> (u16, Seq<char>, Seq<char>) {
        match self {
            PublishError::UnexpectedError(_) => (500u16, Seq::empty(), Seq::empty()),
            PublishError::ValidationError(m) => (303u16, newsletters_path(), m@),
        }
    }

    /// Internal failures become a bare 500; validation failures redirect back
    /// to the form with the message as notice.
    pub fn error_response(&self) -> (r: Response)
        ensures
            r@ == self.response_spec(),
    {
        match self {
            PublishError::UnexpectedError(_) => Response::with_status(500),
            PublishError::ValidationError(m) => Response::see_other("/admin/newsletters", m.as_str()),
        }
    }
}

impl From<String> for PublishError {
    fn from(e: String) -> (r: Self) {
        PublishError::UnexpectedError(e)
    }
}

impl vstd::std_specs::convert::FromSpecImpl<String> for PublishError {
    open spec fn obeys_from_spec() -> bool {
        true
    }

    open spec fn from_spec(e: String) -> Self {
        PublishError::UnexpectedError(e)
    }
}

impl Newsletter {
    /// Validates the posted fields; title and both bodies are kept verbatim.
    pub fn try_from(value: NewsletterFormData) -> (r: Result<Newsletter, PublishError>)
        ensures
            r is Ok <==> is_valid_form(value),
            r matches Ok(n) ==> n.title@ == value.title@ && n.content.text@ == value.text_content@
                && n.content.html@ == value.html_content@,
            !is_valid_form(value) ==> (r matches Err(PublishError::ValidationError(m))
                && m@ == empty_fields_message()),
    {
        if value.title.as_str().is_empty() || value.text_content.as_str().is_empty()
            || value.html_content.as_str().is_empty() {
            return Err(PublishError::ValidationError(String::from_str("Fields cannot be empty")));
        }
        Ok(Newsletter {
            title: value.title,
            content: Content { html: value.html_content, text: value.text_content },
        })
    }
}

} // verus!
