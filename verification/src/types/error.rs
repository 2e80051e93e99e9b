//! Errors of the host side.
use crate::text::{push_char, str_to_string, with_detail};
use vstd::prelude::*;
use vstd::string::StringExecFns;

verus! {

/// The standard library's I/O error, carried opaquely inside [`HostError`].
#[verifier::external_type_specification]
#[verifier::external_body]
pub struct ExIoError(std::io::Error);

/// Everything that can go wrong while fetching, resolving and replaying a transaction.
#[derive(Debug)]
pub enum HostError {
    /// The RPC client could not be created.
    RpcClientCreation(String),
    /// The transaction could not be fetched.
    TransactionFetch(String),
    /// The transaction could not be turned into a mock transaction.
    MockTransactionConversion(String),
    /// The verifier context could not be created.
    VerifierContextCreation(String),
    /// The verifier resource could not be created.
    VerifierResource(String),
    /// An out point could not be resolved.
    VerifierOutpointError(String),
    /// No cell dependency holds the program of a script.
    ProgramElfNotFound,
    /// A script could not be handled.
    ScriptError(String),
    /// The proof context could not be encoded.
    TransactionProofContextConversion(String),
    /// Cells could not be resolved.
    CellResolutionError(String),
    /// Resolved data failed validation.
    VerificationError(String),
    /// Header dependencies could not be resolved.
    HeaderResolutionError(String),
    /// The zkVM run failed.
    Sp1Execution(String),
    /// The guest output could not be decoded.
    GuestOutputDeserialization,
    /// The execution report could not be written.
    ReportWrite(String),
    /// An I/O error.
    Io(std::io::Error),
}


/// The message of an error, for its variants other than `Io`: a fixed
/// text, followed by the error's detail where it carries one.
pub open spec fn spec_message(e: HostError) -> Seq<char> {
    match e {
        HostError::RpcClientCreation(s) => "RPC client creation failed: "@ + s@,
        HostError::TransactionFetch(s) => "Failed to fetch transaction: "@ + s@,
        HostError::MockTransactionConversion(s) => "Failed to convert transaction to mock: "@ + s@,
        HostError::VerifierContextCreation(s) => "Failed to create verifier context: "@ + s@,
        HostError::VerifierResource(s) => "Failed to create verifier resource: "@ + s@,
        HostError::VerifierOutpointError(s) => "OutPoint error: "@ + s@,
        HostError::ScriptError(s) => "Script error: "@ + s@,
        HostError::TransactionProofContextConversion(s) => "Failed to convert to TransactionProofContext: "@ + s@,
        HostError::CellResolutionError(s) => "Failed to resolve cells: "@ + s@,
        HostError::VerificationError(s) => "VerificationError: "@ + s@,
        HostError::HeaderResolutionError(s) => "HeaderResolutionError: "@ + s@,
        HostError::Sp1Execution(s) => "SP1 execution failed: "@ + s@,
        HostError::ReportWrite(s) => "Failed to write execution report: "@ + s@,
        HostError::ProgramElfNotFound => "Failed to get program ELF for script"@,
        HostError::GuestOutputDeserialization => "Failed to deserialize guest output"@,
        HostError::Io(_) => Seq::empty(),
    }
}

/// Formats `e` with its `Debug` implementation.  The text depends on the
/// error's kind and, for operating-system errors, on the system's own
/// message, so nothing is promised of it.
#[verifier::external_body]
fn io_error_debug(e: &std::io::Error) -> String {
    format!("{:?}", e)
}

impl HostError {
    /// The error's message: [`spec_message`] for every variant but `Io`,
    /// and for `Io` the `Debug` form of the I/O error inside `Io(` and `)`.
    pub fn message(&self) -> (r: String)
        ensures
            match self {
                HostError::Io(_) => {
                    &&& r@.len() >= 4
                    &&& r@.subrange(0, 3) == seq!['I', 'o', '(']
                    &&& r@.last() == ')'
                },
                _ => r@ == spec_message(*self),
            },
    {
        match self {
            HostError::RpcClientCreation(s) => with_detail("RPC client creation failed: ", s),
            HostError::TransactionFetch(s) => with_detail("Failed to fetch transaction: ", s),
            HostError::MockTransactionConversion(s) => with_detail("Failed to convert transaction to mock: ", s),
            HostError::VerifierContextCreation(s) => with_detail("Failed to create verifier context: ", s),
            HostError::VerifierResource(s) => with_detail("Failed to create verifier resource: ", s),
            HostError::VerifierOutpointError(s) => with_detail("OutPoint error: ", s),
            HostError::ScriptError(s) => with_detail("Script error: ", s),
            HostError::TransactionProofContextConversion(s) => with_detail("Failed to convert to TransactionProofContext: ", s),
            HostError::CellResolutionError(s) => with_detail("Failed to resolve cells: ", s),
            HostError::VerificationError(s) => with_detail("VerificationError: ", s),
            HostError::HeaderResolutionError(s) => with_detail("HeaderResolutionError: ", s),
            HostError::Sp1Execution(s) => with_detail("SP1 execution failed: ", s),
            HostError::ReportWrite(s) => with_detail("Failed to write execution report: ", s),
            HostError::ProgramElfNotFound => str_to_string("Failed to get program ELF for script"),
            HostError::GuestOutputDeserialization => str_to_string("Failed to deserialize guest output"),
            HostError::Io(e) => {
                let mut r = String::new();
                push_char(&mut r, 'I');
                push_char(&mut r, 'o');
                push_char(&mut r, '(');
                let d = io_error_debug(e);
                r.append(d.as_str());
                push_char(&mut r, ')');
                assert(r@.subrange(0, 3) =~= seq!['I', 'o', '(']);
                r
            },
        }
    }
}

} // verus!
