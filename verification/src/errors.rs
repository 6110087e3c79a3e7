//! The registry of error pages, and how one entry becomes a response.

use crate::assets::{asset, get_static, STYLESHEET_NAME, TEMPLATE_NAME};
use crate::template::{
    lemma_substitute_shows_value, occurs_in, render, template_replace, tokens, TemplateVars, Token,
};
use crate::text::{decimal, decimal_string, text_of};
use vstd::prelude::*;
use vstd::string::*;

verus! {

/// The `Content-Type` of a page rendered from the template.
pub const TEXT_HTML: &'static str = "text/html";

/// The `Content-Type` of a page built without the template.
pub const TEXT_PLAIN: &'static str = "text/plain";

/// What comes before the status code in the path of a page.
pub const PATH_PREFIX: &'static str = "/.well-known/http-";

/// An entry of the registry: a status code with its title and message.
pub struct ErrorEntry {
    pub code: u16,
    pub title: Seq<char>,
    pub message: Seq<char>,
}

/// A response: status, `Content-Type` where it has one, and body.
pub struct ResponseView {
    pub status: u16,
    pub content_type: Option<Seq<char>>,
    pub body: Seq<char>,
}

/// Whether `code` is an HTTP status code: 100 to 599.
pub open spec fn is_status(code: u16) -> bool {
    100 <= code <= 599
}

/// The registry, in its order.
pub open spec fn registry() -> Seq<ErrorEntry> {
    seq![
        ErrorEntry {
            code: 400,
            title: "Bad Request"@,
            message: "The request could not be completed due to invalid input. Check the request parameters and try again."@,
        },
        ErrorEntry {
            code: 401,
            title: "Unauthorized"@,
            message: "You have not provided a valid Authorization header with your request. Check your access token and try again."@,
        },
        ErrorEntry {
            code: 403,
            title: "Forbidden"@,
            message: "You do not have permission to access the requested service. Check your account permissions and try again."@,
        },
        ErrorEntry {
            code: 404,
            title: "Not Found"@,
            message: "The requested service could not be found. Check the URL and try again."@,
        },
        ErrorEntry {
            code: 405,
            title: "Method Not Allowed"@,
            message: "The requested service does not support the provided HTTP method. Check the documentation and try again."@,
        },
        ErrorEntry {
            code: 409,
            title: "Conflict"@,
            message: "The request could not be completed due to a conflict with the current state of the resource. Check the resource state and try again."@,
        },
        ErrorEntry {
            code: 429,
            title: "Too Many Requests"@,
            message: "You have exceeded the rate limit for this service. Check the rate limit and try again later."@,
        },
        ErrorEntry {
            code: 500,
            title: "Internal Server Error"@,
            message: "An unexpected error occurred while processing your request. Please try again later."@,
        },
        ErrorEntry {
            code: 501,
            title: "Not Implemented"@,
            message: "The requested service is not implemented. Check the documentation and try again later."@,
        },
        ErrorEntry {
            code: 502,
            title: "Bad Gateway"@,
            message: "The server received an invalid response from an upstream server. Please try again later."@,
        },
        ErrorEntry {
            code: 503,
            title: "Service Unavailable"@,
            message: "The requested service is temporarily unavailable. Please try again later."@,
        },
        ErrorEntry {
            code: 504,
            title: "Gateway Timeout"@,
            message: "The server did not receive a timely response from an upstream server. Please try again later."@,
        },
        ErrorEntry {
            code: 505,
            title: "HTTP Version Not Supported"@,
            message: "The server does not support the HTTP protocol version used in the request. Please try again with a different version."@,
        },
    ]
}

/// The path under which the page for `code` is served.
pub open spec fn well_known_path(code: u16) -> Seq<char> {
    PATH_PREFIX@ + decimal(code as nat)
}

/// The variables that the template of a page may name.
pub open spec fn page_vars(entry: ErrorEntry, stylesheet: Seq<char>) -> Map<Seq<char>, Seq<char>> {
    Map::<Seq<char>, Seq<char>>::empty().insert("code"@, decimal(entry.code as nat)).insert(
        "title"@,
        entry.title,
    ).insert("message"@, entry.message).insert("stylesheet"@, stylesheet)
}

/// The body of a page built without the template: code and title on one
/// line, the message on the next.
pub open spec fn plain_body(entry: ErrorEntry) -> Seq<char> {
    decimal(entry.code as nat) + " "@ + entry.title + "\n"@ + entry.message
}

/// The response for `entry`: the template rendered as HTML where there is a
/// template, plain text where there is none.
pub open spec fn page(
    entry: ErrorEntry,
    template: Option<Seq<char>>,
    stylesheet: Seq<char>,
) -> ResponseView {
    match template {
        Some(t) => ResponseView {
            status: entry.code,
            content_type: Some(TEXT_HTML@),
            body: render(t, page_vars(entry, stylesheet)),
        },
        None => ResponseView {
            status: entry.code,
            content_type: Some(TEXT_PLAIN@),
            body: plain_body(entry),
        },
    }
}

/// The stylesheet that the built-in pages use: the asset, or nothing.
pub open spec fn built_in_stylesheet() -> Seq<char> {
    match asset(STYLESHEET_NAME@) {
        Some(css) => css,
        None => Seq::empty(),
    }
}

/// The codes of the registry are all different, and all are HTTP error codes.
pub proof fn lemma_registry_codes()
    ensures
        registry().len() == 13,
        forall|i: int| 0 <= i < registry().len() ==> 400 <= (#[trigger] registry()[i]).code <= 599,
        forall|i: int, j: int|
            0 <= i < j < registry().len() ==> (#[trigger] registry()[i]).code != (
            #[trigger] registry()[j]).code,
{
}

/// A page shows its entry. Built without the template, its body holds the
/// title and the message; rendered from a template, it holds each of the two
/// that the template names in a placeholder.
pub proof fn lemma_page_shows_entry(
    entry: ErrorEntry,
    template: Option<Seq<char>>,
    stylesheet: Seq<char>,
)
    ensures
        page(entry, template, stylesheet).status == entry.code,
        template is None ==> occurs_in(entry.title, page(entry, template, stylesheet).body)
            && occurs_in(entry.message, page(entry, template, stylesheet).body),
        template matches Some(t) && tokens(t).contains(Token::Var("title"@)) ==> occurs_in(
            entry.title,
            page(entry, template, stylesheet).body,
        ),
        template matches Some(t) && tokens(t).contains(Token::Var("message"@)) ==> occurs_in(
            entry.message,
            page(entry, template, stylesheet).body,
        ),
{
    let body = page(entry, template, stylesheet).body;
    match template {
        Some(t) => {
            let vars = page_vars(entry, stylesheet);
            reveal_strlit("title");
            reveal_strlit("message");
            reveal_strlit("stylesheet");
            assert("title"@.len() != "message"@.len());
            if tokens(t).contains(Token::Var("title"@)) {
                lemma_substitute_shows_value(tokens(t), vars, "title"@);
            }
            if tokens(t).contains(Token::Var("message"@)) {
                lemma_substitute_shows_value(tokens(t), vars, "message"@);
            }
        },
        None => {
            let code = decimal(entry.code as nat);
            let i = (code.len() + " "@.len()) as int;
            let j = i + entry.title.len() + "\n"@.len();
            assert(body.subrange(i, i + entry.title.len()) =~= entry.title);
            assert(body.subrange(j, j + entry.message.len()) =~= entry.message);
        },
    }
}

/// A response, ready to be sent.
#[derive(Debug)]
pub struct RenderedResponse {
    status: u16,
    content_type: Option<&'static str>,
    body: String,
}

impl View for RenderedResponse {
    type V = ResponseView;

    closed spec fn view(&self) -> ResponseView {
        ResponseView {
            status: self.status,
            content_type: text_of(self.content_type),
            body: self.body@,
        }
    }
}

impl Clone for RenderedResponse {
    fn clone(&self) -> (copy: Self)
        ensures
            copy@ == self@,
    {
        proof {
            use_type_invariant(self);
        }
        RenderedResponse {
            status: self.status,
            content_type: self.content_type,
            body: self.body.clone(),
        }
    }
}

impl RenderedResponse {
    #[verifier::type_invariant]
    spec fn well_formed(&self) -> bool {
        is_status(self.status)
    }

    /// A response with a status and nothing else: no `Content-Type`, no body.
    pub fn empty(status: u16) -> (response: Self)
        requires
            is_status(status),
        ensures
            response@ == (ResponseView {
                status,
                content_type: None,
                body: Seq::empty(),
            }),
    {
        RenderedResponse { status, content_type: None, body: String::new() }
    }

    /// The status code.
    pub fn status(&self) -> (status: u16)
        ensures
            status == self@.status,
            is_status(status),
    {
        proof {
            use_type_invariant(self);
        }
        self.status
    }

    /// The value of the `Content-Type` header, if the response has one.
    pub fn content_type(&self) -> (value: Option<&'static str>)
        ensures
            text_of(value) == self@.content_type,
    {
        self.content_type
    }

    /// The body.
    pub fn body(&self) -> (body: &str)
        ensures
            body@ == self@.body,
    {
        self.body.as_str()
    }

    /// The body, taken out of the response.
    pub fn into_body(self) -> (body: String)
        ensures
            body@ == self@.body,
    {
        self.body
    }
}

/// An entry of the registry.
#[derive(Clone, Copy, Debug)]
pub struct ErrorType {
    code: u16,
    title: &'static str,
    message: &'static str,
}

impl View for ErrorType {
    type V = ErrorEntry;

    closed spec fn view(&self) -> ErrorEntry {
        ErrorEntry { code: self.code, title: self.title@, message: self.message@ }
    }
}

impl ErrorType {
    #[verifier::type_invariant]
    spec fn well_formed(&self) -> bool {
        is_status(self.code)
    }

    /// The entry for the status `code`.
    pub fn new(code: u16, title: &'static str, message: &'static str) -> (entry: Self)
        requires
            is_status(code),
        ensures
            entry@ == (ErrorEntry { code, title: title@, message: message@ }),
    {
        Self { code, title, message }
    }

    /// The status code.
    pub fn code(&self) -> (code: u16)
        ensures
            code == self@.code,
            is_status(code),
    {
        proof {
            use_type_invariant(self);
        }
        self.code
    }

    /// The title, a few words.
    pub fn title(&self) -> (title: &'static str)
        ensures
            title@ == self@.title,
    {
        self.title
    }

    /// The message, a sentence or two.
    pub fn message(&self) -> (message: &'static str)
        ensures
            message@ == self@.message,
    {
        self.message
    }

    /// The path under which the page of this entry is served.
    pub fn path(&self) -> (path: String)
        ensures
            path@ == well_known_path(self@.code),
    {
        let mut path = String::from_str(PATH_PREFIX);
        let code = decimal_string(self.code);
        path.append(code.as_str());
        path
    }

    /// The response for this entry, from the given assets: the template
    /// rendered as HTML, or plain text where there is no template.
    pub fn build_response(&self, template: Option<&str>, stylesheet: &str) -> (response:
        RenderedResponse)
        ensures
            response@ == page(self@, text_of(template), stylesheet@),
    {
        proof {
            use_type_invariant(self);
        }
        match template {
            Some(template) => {
                let code = decimal_string(self.code);
                let mut vars = TemplateVars::new();
                vars.insert("code", code.as_str());
                vars.insert("title", self.title);
                vars.insert("message", self.message);
                vars.insert("stylesheet", stylesheet);
                let body = template_replace(template, vars);
                RenderedResponse { status: self.code, content_type: Some(TEXT_HTML), body }
            },
            None => {
                let mut body = decimal_string(self.code);
                body.append(" ");
                body.append(self.title);
                body.append("\n");
                body.append(self.message);
                RenderedResponse { status: self.code, content_type: Some(TEXT_PLAIN), body }
            },
        }
    }

    /// The response for this entry, from the built-in assets.
    pub fn into_response(self) -> (response: RenderedResponse)
        ensures
            response@ == page(self@, asset(TEMPLATE_NAME@), built_in_stylesheet()),
    {
        let stylesheet = match get_static(STYLESHEET_NAME) {
            Some(css) => css,
            None => String::new(),
        };
        match get_static(TEMPLATE_NAME) {
            Some(template) => self.build_response(Some(template.as_str()), stylesheet.as_str()),
            None => self.build_response(None, stylesheet.as_str()),
        }
    }
}

/// The entries of a list, as values of the model.
pub open spec fn entries_of(list: Seq<ErrorType>) -> Seq<ErrorEntry> {
    list.map_values(|entry: ErrorType| entry@)
}

/// The registry.
pub fn errors() -> (list: Vec<ErrorType>)
    ensures
        entries_of(list@) == registry(),
{
    let list = vec![
        ErrorType::new(
            400,
            "Bad Request",
            "The request could not be completed due to invalid input. Check the request parameters and try again.",
        ),
        ErrorType::new(
            401,
            "Unauthorized",
            "You have not provided a valid Authorization header with your request. Check your access token and try again.",
        ),
        ErrorType::new(
            403,
            "Forbidden",
            "You do not have permission to access the requested service. Check your account permissions and try again.",
        ),
        ErrorType::new(
            404,
            "Not Found",
            "The requested service could not be found. Check the URL and try again.",
        ),
        ErrorType::new(
            405,
            "Method Not Allowed",
            "The requested service does not support the provided HTTP method. Check the documentation and try again.",
        ),
        ErrorType::new(
            409,
            "Conflict",
            "The request could not be completed due to a conflict with the current state of the resource. Check the resource state and try again.",
        ),
        ErrorType::new(
            429,
            "Too Many Requests",
            "You have exceeded the rate limit for this service. Check the rate limit and try again later.",
        ),
        ErrorType::new(
            500,
            "Internal Server Error",
            "An unexpected error occurred while processing your request. Please try again later.",
        ),
        ErrorType::new(
            501,
            "Not Implemented",
            "The requested service is not implemented. Check the documentation and try again later.",
        ),
        ErrorType::new(
            502,
            "Bad Gateway",
            "The server received an invalid response from an upstream server. Please try again later.",
        ),
        ErrorType::new(
            503,
            "Service Unavailable",
            "The requested service is temporarily unavailable. Please try again later.",
        ),
        ErrorType::new(
            504,
            "Gateway Timeout",
            "The server did not receive a timely response from an upstream server. Please try again later.",
        ),
        ErrorType::new(
            505,
            "HTTP Version Not Supported",
            "The server does not support the HTTP protocol version used in the request. Please try again with a different version.",
        ),
    ];
    list
}

} // verus!
