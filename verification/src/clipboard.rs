//! What the global shortcut does with the text in the clipboard: a text that
//! looks like a link is opened in the browser, with `http://` put in front
//! where it names no scheme.

use vstd::prelude::*;
use vstd::string::StringExecFns;
use crate::pattern::{accepts, compile, compiles, is_match, pattern_accepts};
use crate::text::starts_with;

verus! {

/// The regular expression that a link-like text holds a match of: a
/// domain-qualified name with an optional path.
pub open spec fn url_pattern() -> Seq<char> {
    r"[-a-zA-Z0-9@:%._\+~#=]{1,256}\.[a-zA-Z0-9()]{1,6}\b([-a-zA-Z0-9()@:%_\+.~#?&//=]*)"@
}

/// Whether a text looks like a link.
pub open spec fn url_like(text: Seq<char>) -> bool {
    pattern_accepts(url_pattern(), text)
}

/// Whether a text begins with `http://` or `https://`.
pub open spec fn has_scheme(text: Seq<char>) -> bool {
    "http://"@.is_prefix_of(text) || "https://"@.is_prefix_of(text)
}

/// The text as an address with a scheme.
pub open spec fn with_scheme(text: Seq<char>) -> Seq<char> {
    if has_scheme(text) {
        text
    } else {
        "http://"@ + text
    }
}

/// The address to open for a text, given whether it looks like a link.
pub open spec fn target_for(text: Seq<char>, looks_like_url: bool) -> Option<Seq<char>> {
    if looks_like_url {
        Some(with_scheme(text))
    } else {
        None
    }
}

/// The text to judge when the clipboard was read: what it held, or the
/// empty text where reading it failed.
pub open spec fn clipboard_text(read: Option<&str>) -> Seq<char> {
    match read {
        Some(text) => text@,
        None => Seq::empty(),
    }
}

/// The link pattern did not compile.
#[derive(Debug)]
pub struct PatternRejected;

/// Tells link-like texts from others.
pub struct UrlDetector {
    compiled: regex::Regex,
}

/// The link pattern as text.
pub fn pattern_text() -> (r: &'static str)
    ensures
        r@ == url_pattern(),
{
    r"[-a-zA-Z0-9@:%._\+~#=]{1,256}\.[a-zA-Z0-9()]{1,6}\b([-a-zA-Z0-9()@:%_\+.~#?&//=]*)"
}

/// Puts `http://` in front of a text that names no scheme.
pub fn add_scheme(text: &str) -> (r: String)
    ensures
        r@ == with_scheme(text@),
{
    if starts_with(text, "http://") || starts_with(text, "https://") {
        String::from_str(text)
    } else {
        String::from_str("http://").concat(text)
    }
}

/// The address to open for a clipboard text, given whether it looks like a
/// link; `None` where nothing is to be opened.
pub fn link_target(text: &str, looks_like_url: bool) -> (r: Option<String>)
    ensures
        r matches Some(url) ==> target_for(text@, looks_like_url) == Some(url@),
        r is None ==> target_for(text@, looks_like_url) is None,
{
    if looks_like_url {
        Some(add_scheme(text))
    } else {
        None
    }
}

impl UrlDetector {
    #[verifier::type_invariant]
    spec fn compiled_from_url_pattern(&self) -> bool {
        forall|text: Seq<char>| #[trigger]
            accepts(self.compiled, text) == pattern_accepts(url_pattern(), text)
    }

    /// Whether this detector finds the text link-like.
    pub closed spec fn finds(&self, text: Seq<char>) -> bool {
        accepts(self.compiled, text)
    }

    /// Compiles the link pattern. The result is a detector that finds
    /// exactly the link-like texts, or `PatternRejected` where, and only
    /// where, `regex` does not compile the pattern.
    pub fn new() -> (r: Result<UrlDetector, PatternRejected>)
        ensures
            r is Ok <==> compiles(url_pattern()),
            r matches Ok(detector) ==> forall|text: Seq<char>|
                #[trigger] detector.finds(text) == url_like(text),
    {
        match compile(pattern_text()) {
            Ok(compiled) => Ok(UrlDetector { compiled }),
            Err(_) => Err(PatternRejected),
        }
    }

    /// Whether the text looks like a link.
    pub fn is_url_like(&self, text: &str) -> (r: bool)
        ensures
            r == url_like(text@),
            r == self.finds(text@),
    {
        proof {
            use_type_invariant(self);
        }
        is_match(&self.compiled, text)
    }

    /// What to open when the shortcut is pressed: the clipboard text as an
    /// address where it looks like a link, else nothing. A clipboard that
    /// could not be read counts as empty.
    pub fn browser_target(&self, clipboard: Option<&str>) -> (r: Option<String>)
        ensures
            r matches Some(url) ==> target_for(
                clipboard_text(clipboard),
                url_like(clipboard_text(clipboard)),
            ) == Some(url@),
            r is None ==> !url_like(clipboard_text(clipboard)),
    {
        let text = match clipboard {
            Some(text) => text,
            None => "",
        };
        proof {
            reveal_strlit("");
            assert(""@ =~= Seq::<char>::empty());
        }
        link_target(text, self.is_url_like(text))
    }
}

} // verus!
