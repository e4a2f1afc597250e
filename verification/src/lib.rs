//! Uniform access to kernel tunable parameters exposed as pseudo-files under
//! `/proc` and `/sys`.
//!
//! Each parameter binds a human-readable name to the path of one pseudo-file.
//! The [`KernelParameter`] trait states the shared policy for reading and
//! writing such a file: a path that does not exist degrades to a single
//! diagnostic line and no further action, and a failed read or write is
//! likewise reported on one diagnostic line rather than surfaced as an error.
//! The concrete parameters live in [`catalog`].
//!
//! The functions here never touch the filesystem themselves: a caller probes
//! the path, performs exactly the read or write it is told to, and hands the
//! outcome back. Everything the library decides — which bytes are written,
//! which value is returned, and the exact characters of the diagnostic line
//! for each failure — is stated in the contracts.

use vstd::prelude::*;

pub mod catalog;

verus! {

use vstd::slice::slice_to_vec;
use vstd::string::StringExecFns;

/// The diagnostic line reported when `path` does not exist.
pub open spec fn missing_diagnostic(path: Seq<char>) -> Seq<char> {
    path + " does not exist"@
}

/// The diagnostic line reported when reading `path` failed with `cause`.
pub open spec fn get_failure_diagnostic(path: Seq<char>, cause: Seq<char>) -> Seq<char> {
    path + ": failed to get value: "@ + cause
}

/// The diagnostic line reported when writing `path` failed with `cause`.
pub open spec fn set_failure_diagnostic(path: Seq<char>, cause: Seq<char>) -> Seq<char> {
    path + ": failed to set value: "@ + cause
}

/// Every diagnostic line names the path it reports on: each of the three
/// lines begins with exactly the path's characters.
pub proof fn lemma_diagnostic_names_path(path: Seq<char>, cause: Seq<char>)
    ensures
        missing_diagnostic(path).take(path.len() as int) == path,
        get_failure_diagnostic(path, cause).take(path.len() as int) == path,
        set_failure_diagnostic(path, cause).take(path.len() as int) == path,
{
    assert(missing_diagnostic(path).take(path.len() as int) =~= path);
    assert(get_failure_diagnostic(path, cause).take(path.len() as int) =~= path);
    assert(set_failure_diagnostic(path, cause).take(path.len() as int) =~= path);
}

/// The concatenation of two string slices.
fn concat2(a: &str, b: &str) -> (r: String)
    ensures
        r@ == a@ + b@,
{
    let mut s = a.to_owned();
    s.append(b);
    s
}

/// The concatenation of three string slices.
fn concat3(a: &str, b: &str, c: &str) -> (r: String)
    ensures
        r@ == a@ + b@ + c@,
{
    let mut s = a.to_owned();
    s.append(b);
    s.append(c);
    s
}

/// What a `get` decided: the value handed to the caller, if any, and the
/// diagnostic line to be reported, if any.
pub struct GetResponse {
    pub value: Option<String>,
    pub diagnostic: Option<String>,
}

/// What a `set` decided: either the exact bytes to write to the parameter's
/// path, or the diagnostic line to report instead of writing anything.
pub enum SetAction {
    Write(Vec<u8>),
    Skip(String),
}

/// A kernel tunable parameter backed by one pseudo-file.
///
/// A concrete parameter supplies its diagnostic name and the path of its
/// backing file; the path never changes once the parameter is constructed.
/// The provided methods implement the shared fallible-I/O policy once, for
/// every parameter: a missing path is an expected outcome that yields one
/// diagnostic line and nothing else, and a failed read or write yields one
/// diagnostic line naming the path and the cause. No method here panics,
/// whatever the filesystem reported.
///
/// The caller performs the filesystem probe and the raw I/O: it checks
/// whether the path exists, reads or writes when told to, and passes the
/// outcome in as a plain value.
pub trait KernelParameter {
    /// The characters of the path of the backing pseudo-file.
    spec fn path_spec(&self) -> Seq<char>;

    /// The characters of the parameter's diagnostic name.
    spec fn name_spec() -> Seq<char>;

    /// The parameter's name: a static identifier used for diagnostics, never
    /// to address the file.
    fn name() -> (r: &'static str)
        ensures
            r@ == Self::name_spec(),
    ;

    /// The path of the backing pseudo-file.
    fn get_path(&self) -> (r: &str)
        ensures
            r@ == self.path_spec(),
    ;

    /// Decides the result of reading the parameter, given the outcome of the
    /// caller's probe and read: `None` when the path did not exist (so no read
    /// was attempted), `Some(Ok(content))` for a successful read, and
    /// `Some(Err(cause))` for a failed one.
    ///
    /// A missing path yields no value and exactly one diagnostic line naming
    /// the path. A successful read yields the content untouched and no
    /// diagnostic. A failed read yields no value and exactly one diagnostic
    /// line naming the path and the cause.
    fn get(&self, read: Option<Result<String, String>>) -> (r: GetResponse)
        ensures
            read is None ==> r.value is None && (r.diagnostic matches Some(d) && d@
                == missing_diagnostic(self.path_spec())),
            read matches Some(Ok(content)) ==> r.value == Some(content) && r.diagnostic is None,
            read matches Some(Err(cause)) ==> r.value is None && (r.diagnostic matches Some(d)
                && d@ == get_failure_diagnostic(self.path_spec(), cause@)),
    {
        match read {
            None => GetResponse {
                value: None,
                diagnostic: Some(concat2(self.get_path(), " does not exist")),
            },
            Some(Ok(content)) => GetResponse { value: Some(content), diagnostic: None },
            Some(Err(cause)) => GetResponse {
                value: None,
                diagnostic: Some(
                    concat3(self.get_path(), ": failed to get value: ", cause.as_str()),
                ),
            },
        }
    }

    /// Decides what writing `value` to the parameter does, given whether the
    /// caller's probe found the path: when it exists, exactly the bytes given
    /// are to be written, replacing the file's content; when it does not, the
    /// write is skipped and exactly one diagnostic line naming the path is
    /// reported instead, leaving the filesystem untouched.
    fn set(&self, exists: bool, value: &[u8]) -> (r: SetAction)
        ensures
            exists ==> (r matches SetAction::Write(bytes) && bytes@ == value@),
            !exists ==> (r matches SetAction::Skip(d) && d@ == missing_diagnostic(
                self.path_spec(),
            )),
    {
        if exists {
            SetAction::Write(slice_to_vec(value))
        } else {
            SetAction::Skip(concat2(self.get_path(), " does not exist"))
        }
    }

    /// Decides what a finished write is reported as: a successful write is
    /// silent, and a failed one yields exactly one diagnostic line naming the
    /// path and the cause. The error is never handed back to the caller as
    /// such.
    fn set_outcome(&self, write: Result<(), String>) -> (r: Option<String>)
        ensures
            write is Ok ==> r is None,
            write matches Err(cause) ==> (r matches Some(d) && d@ == set_failure_diagnostic(
                self.path_spec(),
                cause@,
            )),
    {
        match write {
            Ok(()) => None,
            Err(cause) => Some(
                concat3(self.get_path(), ": failed to set value: ", cause.as_str()),
            ),
        }
    }
}

} // verus!
