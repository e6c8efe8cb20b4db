use vstd::prelude::*;

verus! {

/// anyhow's error type, carried as an opaque value.
#[verifier::external_type_specification]
#[verifier::external_body]
pub struct ExAnyhowError(anyhow::Error);

/// eyre's report type, carried as an opaque value.
#[verifier::external_type_specification]
#[verifier::external_body]
pub struct ExEyreReport(eyre::Report);

/// std's I/O error type, carried as an opaque value.
#[verifier::external_type_specification]
#[verifier::external_body]
pub struct ExIoError(std::io::Error);

/// The message every built-in simulated failure carries.
pub const SIMULATED_FAILURE: &'static str = "simulated failure";

/// An error type that can stand for a simulated failure: it supplies the
/// value returned in place of the real result.
pub trait FallibleError: Sized {
    /// `v` is this type's simulated failure.
    spec fn is_simulated_failure(v: &Self) -> bool;

    fn simulated_failure() -> (r: Self)
        ensures
            Self::is_simulated_failure(&r),
    ;
}

impl FallibleError for &'static str {
    open spec fn is_simulated_failure(v: &Self) -> bool {
        (*v)@ == SIMULATED_FAILURE@
    }

    fn simulated_failure() -> (r: Self) {
        SIMULATED_FAILURE
    }
}

impl FallibleError for String {
    open spec fn is_simulated_failure(v: &Self) -> bool {
        v@ == SIMULATED_FAILURE@
    }

    fn simulated_failure() -> (r: Self) {
        let r = SIMULATED_FAILURE.to_string();
        proof {
            vstd::string::to_string_from_display_ensures_for_str(SIMULATED_FAILURE, r);
        }
        r
    }
}

impl<T: FallibleError> FallibleError for Box<T> {
    open spec fn is_simulated_failure(v: &Self) -> bool {
        T::is_simulated_failure(&**v)
    }

    fn simulated_failure() -> (r: Self) {
        Box::new(T::simulated_failure())
    }
}

impl FallibleError for () {
    open spec fn is_simulated_failure(v: &Self) -> bool {
        true
    }

    fn simulated_failure() -> (r: Self) {
    }
}

impl FallibleError for bool {
    open spec fn is_simulated_failure(v: &Self) -> bool {
        !*v
    }

    fn simulated_failure() -> (r: Self) {
        false
    }
}

impl<T> FallibleError for Option<T> {
    open spec fn is_simulated_failure(v: &Self) -> bool {
        *v is None
    }

    fn simulated_failure() -> (r: Self) {
        None
    }
}

/// Relies on anyhow::Error::msg: builds an error that displays `message`.
#[verifier::external_body]
fn anyhow_error(message: &'static str) -> anyhow::Error {
    anyhow::Error::msg(message)
}

/// Relies on eyre::Report::msg: builds a report that displays `message`.
#[verifier::external_body]
fn eyre_report(message: &'static str) -> eyre::Report {
    eyre::Report::msg(message)
}

/// Relies on std::io::Error::new: an error of kind `Other` carrying `message`.
#[verifier::external_body]
fn io_error(message: &'static str) -> std::io::Error {
    std::io::Error::new(std::io::ErrorKind::Other, message)
}

impl FallibleError for anyhow::Error {
    open spec fn is_simulated_failure(v: &Self) -> bool {
        true
    }

    fn simulated_failure() -> (r: Self) {
        anyhow_error(SIMULATED_FAILURE)
    }
}

impl FallibleError for eyre::Report {
    open spec fn is_simulated_failure(v: &Self) -> bool {
        true
    }

    fn simulated_failure() -> (r: Self) {
        eyre_report(SIMULATED_FAILURE)
    }
}

impl FallibleError for std::io::Error {
    open spec fn is_simulated_failure(v: &Self) -> bool {
        true
    }

    fn simulated_failure() -> (r: Self) {
        io_error(SIMULATED_FAILURE)
    }
}

} // verus!
