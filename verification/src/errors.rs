//! The error taxonomy of the embedding store. Fatal variants carry
//! human-readable remediation text; recoverable ones are handled by the
//! self-healing controller before they ever surface.

use vstd::prelude::*;

verus! {

/// Everything that can go wrong in the store, from locating a runtime to a
/// failed remote call.
#[derive(Debug, Clone, PartialEq, Eq)]
pub enum StoreError {
    /// No usable language runtime was found on the host; carries install
    /// instructions. Fatal to `start`.
    RuntimeNotFound(String),
    /// The runtime exists but the server tooling is missing; carries install
    /// instructions. Fatal to `start`.
    ServerToolingNotFound(String),
    /// The server did not answer its health endpoint within the bounded
    /// startup wait; carries the captured stderr excerpt (possibly empty).
    StartTimeout(String),
    /// Something else occupies the target port; recoverable via reclamation.
    PortConflict,
    /// An operation ran before the client registry was initialized;
    /// recoverable via lazy auto-initialization.
    ClientNotInitialized,
    /// The server reported its corruption signature; recoverable via the
    /// stop/wipe/restart sequence. Carries the server's error text.
    CorruptionDetected(String),
    /// The self-healing sequence could not restore the operation: carries
    /// the corruption text that triggered it, what failed afterwards, and
    /// the data directory to clear by hand.
    RecoveryFailed { cause: String, detail: String, data_dir: String },
    /// A remote call failed for any other reason; carries the server's error
    /// text verbatim.
    OperationFailed(String),
}

/// The fallback text of a startup timeout whose captured stderr was empty:
/// the likely causes and their remediation.
pub open spec fn spec_timeout_fallback() -> Seq<char> {
    "no stderr was captured; likely causes: the runtime is missing, the server package is not installed (pip3 install chromadb), the port is already in use, or the server is slow to start; restart the application after checking these"@
}

/// The full user-visible message of each variant.
pub open spec fn spec_error_message(e: StoreError) -> Seq<char> {
    match e {
        StoreError::RuntimeNotFound(d) =>
            "no usable runtime was found; install one and restart the application: "@ + d@,
        StoreError::ServerToolingNotFound(d) =>
            "the vector-server tooling was not found; install it and restart the application: "@
                + d@,
        StoreError::StartTimeout(d) => {
            if d@.len() == 0 {
                "the vector server did not answer within the startup wait; "@
                    + spec_timeout_fallback()
            } else {
                "the vector server did not answer within the startup wait; captured stderr: "@
                    + d@
            }
        },
        StoreError::PortConflict => "the target port is occupied by another process"@,
        StoreError::ClientNotInitialized =>
            "the vector-store client is not initialized; restart the application"@,
        StoreError::CorruptionDetected(d) =>
            "the vector server's internal index is corrupted; it will be rebuilt: "@ + d@,
        StoreError::RecoveryFailed { cause, detail, data_dir } =>
            "the vector server's internal index is corrupted ("@ + cause@
                + ") and self-healing did not restore it ("@ + detail@
                + "); restart the application, or clear the data directory manually: "@
                + data_dir@,
        StoreError::OperationFailed(d) => "the vector-store operation failed: "@ + d@,
    }
}

impl StoreError {
    /// The full user-visible message: what failed, the detail the variant
    /// carries, and a remediation step on every fatal path.
    pub fn message(&self) -> (r: String)
        ensures
            r@ == spec_error_message(*self),
    {
        match self {
            StoreError::RuntimeNotFound(d) => String::from_str(
                "no usable runtime was found; install one and restart the application: ",
            ).concat(d.as_str()),
            StoreError::ServerToolingNotFound(d) => String::from_str(
                "the vector-server tooling was not found; install it and restart the application: ",
            ).concat(d.as_str()),
            StoreError::StartTimeout(d) => {
                if d.unicode_len() == 0 {
                    String::from_str(
                        "the vector server did not answer within the startup wait; ",
                    ).concat(
                        "no stderr was captured; likely causes: the runtime is missing, the server package is not installed (pip3 install chromadb), the port is already in use, or the server is slow to start; restart the application after checking these",
                    )
                } else {
                    String::from_str(
                        "the vector server did not answer within the startup wait; captured stderr: ",
                    ).concat(d.as_str())
                }
            },
            StoreError::PortConflict => {
                let r = String::from_str("the target port is occupied by another process");
                r
            },
            StoreError::ClientNotInitialized => {
                let r = String::from_str(
                    "the vector-store client is not initialized; restart the application",
                );
                r
            },
            StoreError::CorruptionDetected(d) => String::from_str(
                "the vector server's internal index is corrupted; it will be rebuilt: ",
            ).concat(d.as_str()),
            StoreError::RecoveryFailed { cause, detail, data_dir } => String::from_str(
                "the vector server's internal index is corrupted (",
            ).concat(cause.as_str()).concat(
                ") and self-healing did not restore it (",
            ).concat(detail.as_str()).concat(
                "); restart the application, or clear the data directory manually: ",
            ).concat(data_dir.as_str()),
            StoreError::OperationFailed(d) => String::from_str(
                "the vector-store operation failed: ",
            ).concat(d.as_str()),
        }
    }
}

} // verus!
