//! The errors a printer operation can report.
use vstd::prelude::*;

verus! {

#[verifier::external_type_specification]
#[verifier::external_body]
pub struct ExIoError(std::io::Error);

/// The token-valued argument that a command did not recognise.
#[derive(Clone, Copy, Debug, PartialEq, Eq, Structural)]
pub enum Parameter {
    Control,
    Alignment,
    Font,
    Style,
    BarcodeKind,
    TextPosition,
    BarcodeFont,
    BitImageDensity,
    RasterMode,
    QrLevel,
}

#[derive(Debug)]
pub enum Error {
    /// The text cannot be represented in the printer's codec; holds the codec's reason.
    Encoding(String),
    /// A token is none of the values its parameter accepts; holds the token as given.
    InvalidParameter(Parameter, String),
    /// The sink refused a write or a flush.
    Io(std::io::Error),
}

/// `r` is the rejection of `token` as a value of `param`.
pub open spec fn is_rejection<T>(r: Result<T, Error>, param: Parameter, token: Seq<char>) -> bool {
    &&& r matches Err(Error::InvalidParameter(p, t))
    &&& r->Err_0->InvalidParameter_0 == param
    &&& r->Err_0->InvalidParameter_1@ == token
}

/// The error that rejects `token` as a value of `param`.
pub fn invalid(param: Parameter, token: &str) -> (e: Error)
    ensures
        e == Error::InvalidParameter(param, e->InvalidParameter_1),
        e->InvalidParameter_1@ == token@,
{
    Error::InvalidParameter(param, token.to_owned())
}

} // verus!
