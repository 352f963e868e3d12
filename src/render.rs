use vstd::prelude::*;

verus! {

/// How the status line of a response is coloured.
#[derive(Debug, Clone, Copy, PartialEq, Eq)]
pub enum Tone {
    /// A client (4xx) or server (5xx) error.
    Warning,
    /// Anything else; the line then also shows the protocol version.
    Success,
}

/// A client error (400..=499) or a server error (500..=599).
pub open spec fn is_error_status(code: u16) -> bool {
    400 <= code < 600
}

/// The tone of the status line for a response with status `code`.
pub fn status_tone(code: u16) -> (r: Tone)
    ensures
        r == (if is_error_status(code) { Tone::Warning } else { Tone::Success }),
{
    if 400 <= code && code < 500 {
        Tone::Warning
    } else if 500 <= code && code < 600 {
        Tone::Warning
    } else {
        Tone::Success
    }
}

/// How a response body is shown.
#[derive(Debug, Clone, Copy, PartialEq, Eq)]
pub enum Highlight {
    Json,
    Html,
    /// The raw text, without syntax highlighting.
    Plain,
}

/// A parsed `Content-Type`: its lower-case `type/subtype` and whether
/// parameters (such as a charset) follow it.
#[derive(Debug, Clone, PartialEq, Eq)]
pub struct MediaType {
    pub essence: String,
    pub has_params: bool,
}

pub open spec fn media_view(m: Option<MediaType>) -> Option<(Seq<char>, bool)> {
    match m {
        Some(t) => Some((t.essence@, t.has_params)),
        None => None,
    }
}

/// What a `Content-Type` value parses to as a media type, if it parses.
pub uninterp spec fn media_type_of(s: Seq<char>) -> Option<(Seq<char>, bool)>;

/// Relies on `mime`'s `FromStr for Mime`, with `Mime::essence_str` (the
/// lower-cased `type/subtype`) and `Mime::params` (whether any parameter
/// follows). An unparseable value gives `None`.
#[verifier::external_body]
fn parse_media_type(s: &str) -> (r: Option<MediaType>)
    ensures
        media_view(r) == media_type_of(s@),
{
    s.parse::<mime::Mime>().ok().map(|m| MediaType {
        essence: m.essence_str().to_string(),
        has_params: m.params().next().is_some(),
    })
}

/// The highlighting for a media type: exactly `application/json` or exactly
/// `text/html`, with no parameters, are highlighted; all else is plain.
pub open spec fn highlight_spec(m: Option<(Seq<char>, bool)>) -> Highlight {
    match m {
        Some(t) => if !t.1 && t.0 == "application/json"@ {
            Highlight::Json
        } else if !t.1 && t.0 == "text/html"@ {
            Highlight::Html
        } else {
            Highlight::Plain
        },
        None => Highlight::Plain,
    }
}

/// The highlighting for a parsed media type (`None`: none or unparseable).
pub fn highlight_for(m: &Option<MediaType>) -> (r: Highlight)
    ensures
        r == highlight_spec(media_view(*m)),
{
    match m {
        Some(t) => {
            if t.has_params {
                Highlight::Plain
            } else if t.essence == "application/json".to_owned() {
                Highlight::Json
            } else if t.essence == "text/html".to_owned() {
                Highlight::Html
            } else {
                Highlight::Plain
            }
        },
        None => Highlight::Plain,
    }
}

/// The highlighting for a response whose `Content-Type` header is
/// `content_type` (`None` where the header is absent or is not text).
/// A value that does not parse as a media type is shown plain.
pub fn body_highlight(content_type: Option<&str>) -> (r: Highlight)
    ensures
        content_type is None ==> r == Highlight::Plain,
        content_type matches Some(c) ==> r == highlight_spec(media_type_of(c@)),
{
    match content_type {
        Some(c) => {
            let m = parse_media_type(c);
            highlight_for(&m)
        },
        None => Highlight::Plain,
    }
}

impl Highlight {
    /// The file extension under which the highlighter finds the syntax.
    pub fn syntax_extension(&self) -> (r: Option<&'static str>)
        ensures
            *self == Highlight::Json ==> (r matches Some(e) && e@ == "json"@),
            *self == Highlight::Html ==> (r matches Some(e) && e@ == "html"@),
            *self == Highlight::Plain ==> r is None,
    {
        match self {
            Highlight::Json => Some("json"),
            Highlight::Html => Some("html"),
            Highlight::Plain => None,
        }
    }
}

} // verus!
