//! Where the body of a request comes from.
use vstd::prelude::*;

use crate::text::owned;

verus! {

/// Where to read the body of a request.
pub enum BodySource {
    /// The body is the content of this file.
    File(String),
    /// The body is this text.
    Inline(String),
}

/// Chooses the body of a request: the file when one is given, else the
/// inline text, else an empty body.
pub fn body_source(body_file: Option<&str>, body_text: Option<&str>) -> (r: BodySource)
    ensures
        match (body_file, body_text) {
            (Some(path), _) => r matches BodySource::File(p) && p@ == path@,
            (None, Some(text)) => r matches BodySource::Inline(t) && t@ == text@,
            (None, None) => r matches BodySource::Inline(t) && t@ == Seq::<char>::empty(),
        },
{
    match (body_file, body_text) {
        (Some(path), _) => BodySource::File(owned(path)),
        (_, Some(text)) => BodySource::Inline(owned(text)),
        (None, None) => BodySource::Inline(String::new()),
    }
}

} // verus!
