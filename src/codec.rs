//! The text encoder: turns Unicode text into the bytes of the printer's code page.
use vstd::prelude::*;
use vstd::utf8::encode_utf8;

use encoding::label::encoding_from_whatwg_label;
use encoding::types::EncoderTrap;

verus! {

/// What the encoder does with a character its codec cannot represent.
#[derive(Clone, Copy, Debug, PartialEq, Eq, Structural)]
pub enum EncodingErrorPolicy {
    /// Fail the whole text.
    Strict,
    /// Substitute `?`.
    Replace,
    /// Leave the character out.
    Ignore,
    /// Substitute an XML character reference such as `&#1234;`.
    NcrEscape,
}

/// The label of the default codec.
pub open spec fn utf8_label() -> Seq<char> {
    seq!['u', 't', 'f', '-', '8']
}

/// The bytes that the codec with the WHATWG label `label` gives for `text` under `policy`;
/// `None` when the codec refuses the text or no codec has that label.
pub uninterp spec fn encoded(label: Seq<char>, policy: EncodingErrorPolicy, text: Seq<char>) -> Option<Seq<u8>>;

/// Relies on encoding's `encoding_from_whatwg_label` to find the codec and on its
/// `Encoding::encode` to encode; the UTF-8 codec writes the text's own UTF-8 bytes and
/// reports no error, whatever the policy.
#[verifier::external_body]
pub(crate) fn encode_text(label: &str, policy: EncodingErrorPolicy, text: &str) -> (r: Result<Vec<u8>, String>)
    ensures
        r is Ok ==> encoded(label@, policy, text@) == Some(r->Ok_0@),
        r is Err ==> encoded(label@, policy, text@) is None,
        label@ == utf8_label() ==> r is Ok && r->Ok_0@ == encode_utf8(text@),
{
    let trap = match policy {
        EncodingErrorPolicy::Strict => EncoderTrap::Strict,
        EncodingErrorPolicy::Replace => EncoderTrap::Replace,
        EncodingErrorPolicy::Ignore => EncoderTrap::Ignore,
        EncodingErrorPolicy::NcrEscape => EncoderTrap::NcrEscape,
    };
    match encoding_from_whatwg_label(label) {
        Some(codec) => codec.encode(text, trap).map_err(|cause| cause.into_owned()),
        None => Err(format!("no codec is labelled {}", label)),
    }
}

} // verus!
