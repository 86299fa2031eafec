//! The source resolver: inline text, or an external resource whose URL is
//! resolved against the document's base URL and whose bytes are decoded.

use vstd::prelude::*;
use encoding::Encoding;

verus! {

/// How one activation attempt ended.
#[derive(PartialEq, Eq, Structural, Clone, Copy, Debug)]
pub enum ActivationOutcome {
    Activated,
    AlreadyActivated,
    NotExecutableType,
    NoContent,
    DetachedFromDocument,
    FetchFailed,
    Aborted,
}

/// Source text ready for execution, with the URL it is attributed to.
#[derive(Debug, PartialEq, Eq)]
pub struct ResolvedSource {
    pub text: String,
    pub origin_url: String,
}

/// What the caller must do next for one activation attempt.
#[derive(Debug, PartialEq, Eq)]
pub enum Action {
    /// Nothing is executed; the attempt ends with this outcome.
    Stop(ActivationOutcome),
    /// Fetch this absolute URL, then hand the response to `finish_fetch`.
    Fetch(String),
    /// Execute this source; the attempt ends as `Activated`.
    Execute(ResolvedSource),
}

/// The mathematical counterpart of an `Action`.
pub ghost enum ActionView {
    Stop(ActivationOutcome),
    Fetch(Seq<char>),
    Execute(Seq<char>, Seq<char>),
}

impl View for Action {
    type V = ActionView;

    open spec fn view(&self) -> ActionView {
        match self {
            Action::Stop(o) => ActionView::Stop(*o),
            Action::Fetch(u) => ActionView::Fetch(u@),
            Action::Execute(s) => ActionView::Execute(s.text@, s.origin_url@),
        }
    }
}

/// What the fetch collaborator handed back.
#[derive(Debug, PartialEq, Eq)]
pub enum FetchResponse {
    /// The payload, and the final URL after any redirects.
    Loaded { final_url: String, bytes: Vec<u8> },
    /// A network or protocol failure.
    Failed,
}

/// The absolute URL that `input` denotes against `base`, if both parse.
pub uninterp spec fn url_joined(base: Seq<char>, input: Seq<char>) -> Option<Seq<char>>;

/// The text that UTF-8 decoding with replacement characters makes of `bytes`.
pub uninterp spec fn utf8_decoded(bytes: Seq<u8>) -> Seq<char>;

/// Relies on `url::Url::parse` for the base and `url::Url::join` for the
/// reference: the serialized URL, or `None` where either fails. The result
/// depends on the two strings alone.
#[verifier::external_body]
fn join_url(base: &str, input: &str) -> (r: Option<String>)
    ensures
        match r {
            Some(u) => url_joined(base@, input@) == Some(u@),
            None => url_joined(base@, input@) is None,
        },
{
    match url::Url::parse(base) {
        Ok(b) => b.join(input).ok().map(String::from),
        Err(_) => None,
    }
}

/// Relies on `encoding::all::UTF_8` decoding with `DecoderTrap::Replace`,
/// which substitutes U+FFFD for malformed sequences and so never fails.
#[verifier::external_body]
fn decode_utf8(bytes: &Vec<u8>) -> (r: String)
    ensures
        r@ == utf8_decoded(bytes@),
        bytes@.len() == 0 ==> r@.len() == 0,
{
    match encoding::all::UTF_8.decode(bytes.as_slice(), encoding::DecoderTrap::Replace) {
        Ok(s) => s,
        Err(_) => String::new(),
    }
}

/// Where the source comes from for a given `src` attribute, inline text and
/// base URL. An external reference takes precedence over inline text; an
/// empty reference means there is nothing to run.
pub open spec fn resolve_spec(src: Option<Seq<char>>, text: Seq<char>, base_url: Seq<char>) -> ActionView {
    match src {
        Some(s) => if s.len() == 0 {
            ActionView::Stop(ActivationOutcome::NoContent)
        } else {
            match url_joined(base_url, s) {
                Some(u) => ActionView::Fetch(u),
                None => ActionView::Stop(ActivationOutcome::FetchFailed),
            }
        },
        None => ActionView::Execute(text, base_url),
    }
}

/// What follows a fetch: the decoded payload attributed to the final URL,
/// or a failure.
pub open spec fn fetched_spec(response: FetchResponse) -> ActionView {
    match response {
        FetchResponse::Loaded { final_url, bytes } => ActionView::Execute(utf8_decoded(bytes@), final_url@),
        FetchResponse::Failed => ActionView::Stop(ActivationOutcome::FetchFailed),
    }
}

/// Resolves the source: a `Fetch` of the referenced URL, the inline text
/// with the base URL as origin, or the reason nothing can run.
pub fn resolve(src: Option<&str>, text: &str, base_url: &str) -> (r: Action)
    ensures
        r@ == resolve_spec(
            match src { Some(s) => Some(s@), None => None },
            text@,
            base_url@,
        ),
{
    match src {
        Some(s) => {
            if s.unicode_len() == 0 {
                Action::Stop(ActivationOutcome::NoContent)
            } else {
                match join_url(base_url, s) {
                    Some(u) => Action::Fetch(u),
                    None => Action::Stop(ActivationOutcome::FetchFailed),
                }
            }
        },
        None => Action::Execute(ResolvedSource { text: text.to_owned(), origin_url: base_url.to_owned() }),
    }
}

/// Completes resolution once the fetch collaborator has answered.
pub fn finish_fetch(response: FetchResponse) -> (r: Action)
    ensures
        r@ == fetched_spec(response),
{
    match response {
        FetchResponse::Loaded { final_url, bytes } => {
            let text = decode_utf8(&bytes);
            Action::Execute(ResolvedSource { text, origin_url: final_url })
        },
        FetchResponse::Failed => Action::Stop(ActivationOutcome::FetchFailed),
    }
}

} // verus!
