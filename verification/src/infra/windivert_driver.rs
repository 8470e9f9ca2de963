//! The capture driver: whether it is loaded, and what it means when it cannot
//! be.
use vstd::prelude::*;
use vstd::string::StringExecFns;

use crate::text::{
    contains, occurs, owned, parts_of_a_text_occur, push_signed, signed_decimal,
};

verus! {

/// The name of the driver's service.
pub const WINDIVERT_SERVICE_NAME: &'static str = "WinDivert";

/// The file of the driver, next to the program.
pub const DRIVER_FILENAME: &'static str = "WinDivert64.sys";

/// Whether what the service manager says means that the driver is loaded.
pub open spec fn says_loaded(output: Seq<char>) -> bool {
    occurs(output, "STATE"@) && (occurs(output, "4"@) || occurs(output, "RUNNING"@))
}

/// Whether the driver is loaded, by what the service manager says; it is not
/// where nothing could be asked.
pub fn is_driver_loaded(output: Option<&str>) -> (r: bool)
    ensures
        r == (match output {
            Some(o) => says_loaded(o@),
            None => false,
        }),
{
    match output {
        Some(o) => contains(o, "STATE") && (contains(o, "4") || contains(o, "RUNNING")),
        None => false,
    }
}

/// Why the driver could not be started.
#[derive(Debug, Clone, Copy, PartialEq, Eq, Structural)]
pub enum StartError {
    /// The system does not accept the driver's signature.
    BlockedByIntegrity,
    AccessDenied,
    /// A security product blocks the driver.
    BlockedBySecurity,
    /// Another reason, by its number.
    Other(i32),
}

/// What the outcome of starting the driver's service means. A driver that was
/// running is as good as one that was started.
pub open spec fn start_outcome(failure: Option<i32>) -> Result<(), StartError> {
    match failure {
        None => Ok(()),
        Some(code) => if code == 1056 {
            Ok(())
        } else if code == 577 {
            Err(StartError::BlockedByIntegrity)
        } else if code == 5 {
            Err(StartError::AccessDenied)
        } else if code == 1275 {
            Err(StartError::BlockedBySecurity)
        } else {
            Err(StartError::Other(code))
        },
    }
}

/// Reads the outcome of starting the driver's service: the number of the
/// failure, if there was one.
pub fn judge_start(failure: Option<i32>) -> (r: Result<(), StartError>)
    ensures
        r == start_outcome(failure),
{
    match failure {
        None => Ok(()),
        Some(1056) => Ok(()),
        Some(577) => Err(StartError::BlockedByIntegrity),
        Some(5) => Err(StartError::AccessDenied),
        Some(1275) => Err(StartError::BlockedBySecurity),
        Some(other) => Err(StartError::Other(other)),
    }
}

impl StartError {
    /// The error in words, with what to do about it.
    pub open spec fn message_spec(self) -> Seq<char> {
        match self {
            StartError::BlockedByIntegrity =>
                "WinDivert driver blocked by HVCI/Secure Boot (ERROR_INVALID_IMAGE_HASH). Disable Core Isolation (Memory Integrity) in Windows Security, or add WinDivert to the vulnerable driver allowlist."@,
            StartError::AccessDenied =>
                "Access denied. Run as Administrator to install WinDivert driver."@,
            StartError::BlockedBySecurity =>
                "WinDivert driver blocked by antivirus/EDR. Add WinDivert to your security software exclusions."@,
            StartError::Other(code) => "StartService failed with error code: "@
                + signed_decimal(code as int),
        }
    }

    /// The error in words, with what to do about it.
    pub fn message(&self) -> (r: String)
        ensures
            r@ == self.message_spec(),
    {
        match self {
            StartError::BlockedByIntegrity => owned(
                "WinDivert driver blocked by HVCI/Secure Boot (ERROR_INVALID_IMAGE_HASH). Disable Core Isolation (Memory Integrity) in Windows Security, or add WinDivert to the vulnerable driver allowlist.",
            ),
            StartError::AccessDenied => owned(
                "Access denied. Run as Administrator to install WinDivert driver.",
            ),
            StartError::BlockedBySecurity => owned(
                "WinDivert driver blocked by antivirus/EDR. Add WinDivert to your security software exclusions.",
            ),
            StartError::Other(code) => {
                let mut r: String = owned("StartService failed with error code: ");
                push_signed(&mut r, *code as i64);
                r
            },
        }
    }
}

/// What is said where the driver's file is missing.
pub fn missing_driver(path: &str) -> (r: String)
    ensures
        r@ == "WinDivert driver not found at "@ + path@
            + ". Bundle WinDivert64.sys with the application."@,
{
    let mut r: String = owned("WinDivert driver not found at ");
    r.append(path);
    r.append(". Bundle WinDivert64.sys with the application.");
    r
}

/// The driver runs exactly where nothing failed or it was running before; the
/// failures with the numbers 577, 5 and 1275 have their names, and any other is
/// passed on with its number.
pub proof fn failures_to_start_are_told_by_number(code: i32)
    ensures
        start_outcome(None) is Ok,
        start_outcome(Some(code)) is Ok <==> code == 1056,
        start_outcome(Some(code)) == Err::<(), StartError>(StartError::BlockedByIntegrity) <==> code
            == 577,
        start_outcome(Some(code)) == Err::<(), StartError>(StartError::AccessDenied) <==> code == 5,
        start_outcome(Some(code)) == Err::<(), StartError>(StartError::BlockedBySecurity) <==> code
            == 1275,
        code != 1056 && code != 577 && code != 5 && code != 1275 ==> start_outcome(Some(code))
            == Err::<(), StartError>(StartError::Other(code)),
{
}

/// The driver counts as loaded where its state is given as 4 or as running, and
/// not where no state is given.
pub proof fn a_running_state_means_loaded(before: Seq<char>, between: Seq<char>, after: Seq<char>)
    ensures
        says_loaded(before + "STATE"@ + between + "RUNNING"@ + after),
        says_loaded(before + "STATE"@ + between + "4"@ + after),
        !occurs(before, "STATE"@) ==> !says_loaded(before),
        !occurs(before, "4"@) && !occurs(before, "RUNNING"@) ==> !says_loaded(before),
{
    let a = before + "STATE"@ + between + "RUNNING"@ + after;
    parts_of_a_text_occur(before, "STATE"@, between + "RUNNING"@ + after);
    parts_of_a_text_occur(before + "STATE"@ + between, "RUNNING"@, after);
    assert(a =~= before + "STATE"@ + (between + "RUNNING"@ + after));
    assert(a =~= (before + "STATE"@ + between) + "RUNNING"@ + after);
    let b = before + "STATE"@ + between + "4"@ + after;
    parts_of_a_text_occur(before, "STATE"@, between + "4"@ + after);
    parts_of_a_text_occur(before + "STATE"@ + between, "4"@, after);
    assert(b =~= before + "STATE"@ + (between + "4"@ + after));
    assert(b =~= (before + "STATE"@ + between) + "4"@ + after);
}

} // verus!
