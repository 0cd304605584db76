use vstd::prelude::*;
use crate::template::MacroType;

verus! {

#[verifier::external_type_specification]
#[verifier::external_body]
pub struct ExErrorKind(std::io::ErrorKind);

/// Relies on std's `ErrorKind: Clone + Copy`, both derived: a clone is the same kind.
pub assume_specification[ <std::io::ErrorKind as core::clone::Clone>::clone ](
    k: &std::io::ErrorKind,
) -> (r: std::io::ErrorKind)
    ensures
        r == *k,
;

/// Why an expansion request brought no expanded code.
#[derive(Clone, Debug)]
pub enum Error {
    /// A dialog was dismissed before it gave an answer.
    DialogClosed,
    /// The toolchain ran but expanded nothing; it holds what it printed on standard error.
    CargoFailed(Vec<u8>),
    /// Writing the sources or launching the toolchain failed with this error kind.
    IOFailed(std::io::ErrorKind),
}

/// What the toolchain printed for a test target that it expanded.
#[derive(Clone, Debug)]
pub struct Expansion {
    pub expanded: Vec<u8>,
    pub diagnostics: Vec<u8>,
}

/// The sources of one kind as they stood when an expansion was asked for.
pub struct ExpansionRequest {
    pub kind: MacroType,
    pub src_code: Vec<u8>,
    pub test_code: Vec<u8>,
}

/// Sorts a finished toolchain run by what it printed. Output on standard output is
/// expanded code, whatever standard error holds beside it; with none, the run failed
/// and standard error explains why.
pub fn classify(stdout: Vec<u8>, stderr: Vec<u8>) -> (r: Result<Expansion, Error>)
    ensures
        stdout@.len() > 0 ==> (r matches Ok(e) && e.expanded@ == stdout@ && e.diagnostics@
            == stderr@),
        stdout@.len() == 0 ==> (r matches Err(Error::CargoFailed(d)) && d@ == stderr@),
{
    if stdout.len() > 0 {
        Ok(Expansion { expanded: stdout, diagnostics: stderr })
    } else {
        Err(Error::CargoFailed(stderr))
    }
}

} // verus!
