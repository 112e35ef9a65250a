//! Remote keystores, of which none is supported.

use std::sync::Arc;

use vstd::prelude::*;
use vstd::string::StringExecFns;

verus! {

/// `sc_keystore::LocalKeystore`, the keystore that a remote one would be used
/// as. Nothing is claimed of what it holds.
#[verifier::external_type_specification]
#[verifier::external_body]
pub struct ExLocalKeystore(sc_keystore::LocalKeystore);

/// Why a node does not start.
#[derive(Debug)]
pub enum ServiceError {
    /// A reason in words.
    Other(String),
}

/// Why a configuration with a remote keystore is refused.
pub const REMOTE_KEYSTORES_UNSUPPORTED: &'static str = "Remote Keystores are not supported.";

/// Why no remote keystore can be had.
pub const REMOTE_KEYSTORE_UNSUPPORTED: &'static str = "Remote Keystore not supported.";

/// The words that report that the keystore at `url` was not hooked up.
pub open spec fn hook_up_failure(url: Seq<char>, reason: Seq<char>) -> Seq<char> {
    "Error hooking up remote keystore for "@ + url + ": "@ + reason
}

/// The keystore at `url`. No kind of remote keystore exists yet, so there is
/// none at any address.
pub fn remote_keystore(url: &str) -> (keystore: Result<
    Arc<sc_keystore::LocalKeystore>,
    &'static str,
>)
    ensures
        keystore is Err,
        keystore->Err_0 == REMOTE_KEYSTORE_UNSUPPORTED,
        keystore->Err_0@ == "Remote Keystore not supported."@,
{
    Err(REMOTE_KEYSTORE_UNSUPPORTED)
}

/// Hooks up the keystore at `url`, or says for which address that failed and
/// why.
pub fn hook_up_remote_keystore(url: &str) -> (keystore: Result<
    Arc<sc_keystore::LocalKeystore>,
    ServiceError,
>)
    ensures
        keystore is Err,
        keystore->Err_0->Other_0@ == hook_up_failure(url@, REMOTE_KEYSTORE_UNSUPPORTED@),
{
    match remote_keystore(url) {
        Ok(keystore) => Ok(keystore),
        Err(reason) => Err(
            ServiceError::Other(
                "Error hooking up remote keystore for ".to_owned().concat(url).concat(": ").concat(
                    reason,
                ),
            ),
        ),
    }
}

/// A configuration with a remote keystore is refused before any attempt to hook
/// the keystore up: the reason that is given is never that such an attempt
/// failed.
pub proof fn law_refusal_is_no_failed_hook_up(url: Seq<char>, reason: Seq<char>)
    ensures
        REMOTE_KEYSTORES_UNSUPPORTED@ != hook_up_failure(url, reason),
{
    reveal_strlit("Remote Keystores are not supported.");
    reveal_strlit("Error hooking up remote keystore for ");
    assert(REMOTE_KEYSTORES_UNSUPPORTED@[0] == 'R');
    assert(hook_up_failure(url, reason)[0] == 'E');
}

/// The report of a failure to hook up names the address in full, between fixed
/// words, and ends in the reason. Reports on different addresses differ.
pub proof fn law_hook_up_failure_names_address_and_reason(
    url: Seq<char>,
    other: Seq<char>,
    reason: Seq<char>,
)
    ensures
        hook_up_failure(url, reason).len() == 39 + url.len() + reason.len(),
        hook_up_failure(url, reason).take(37) == "Error hooking up remote keystore for "@,
        hook_up_failure(url, reason).subrange(37, 37 + url.len() as int) == url,
        hook_up_failure(url, reason).subrange(37 + url.len() as int, 39 + url.len() as int) == ": "@,
        hook_up_failure(url, reason).skip(39 + url.len() as int) == reason,
        hook_up_failure(url, reason) == hook_up_failure(other, reason) ==> url == other,
{
    lemma_parts_of_a_hook_up_failure(url, reason);
    lemma_parts_of_a_hook_up_failure(other, reason);
}

proof fn lemma_parts_of_a_hook_up_failure(url: Seq<char>, reason: Seq<char>)
    ensures
        hook_up_failure(url, reason).len() == 39 + url.len() + reason.len(),
        hook_up_failure(url, reason).take(37) == "Error hooking up remote keystore for "@,
        hook_up_failure(url, reason).subrange(37, 37 + url.len() as int) == url,
        hook_up_failure(url, reason).subrange(37 + url.len() as int, 39 + url.len() as int) == ": "@,
        hook_up_failure(url, reason).skip(39 + url.len() as int) == reason,
{
    reveal_strlit("Error hooking up remote keystore for ");
    reveal_strlit(": ");
    assert("Error hooking up remote keystore for "@.len() == 37);
    assert(": "@.len() == 2);
    let report = hook_up_failure(url, reason);
    assert(report.take(37) =~= "Error hooking up remote keystore for "@);
    assert(report.subrange(37, 37 + url.len() as int) =~= url);
    assert(report.subrange(37 + url.len() as int, 39 + url.len() as int) =~= ": "@);
    assert(report.skip(39 + url.len() as int) =~= reason);
}

/// No address has a remote keystore: neither can one be had, nor hooked up, and
/// the report of that names the address.
pub proof fn law_no_remote_keystore_at_any_address(
    url: &str,
    had: Result<Arc<sc_keystore::LocalKeystore>, &'static str>,
    hooked_up: Result<Arc<sc_keystore::LocalKeystore>, ServiceError>,
)
    requires
        call_ensures(remote_keystore, (url,), had),
        call_ensures(hook_up_remote_keystore, (url,), hooked_up),
    ensures
        had matches Err(reason) && reason@ == "Remote Keystore not supported."@,
        hooked_up matches Err(ServiceError::Other(report)) && report@
            == "Error hooking up remote keystore for "@ + url@ + ": "@
            + "Remote Keystore not supported."@,
{
}

} // verus!
