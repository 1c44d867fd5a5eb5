//! The decisions around starting the listener and hearing from it.

use vstd::prelude::*;

verus! {

/// Whether the listener speaks TLS: it does where both a certificate and
/// a key are configured.
pub fn uses_tls(tls_cert_file: &Option<String>, tls_key_file: &Option<String>) -> (r: bool)
    ensures
        r == (tls_cert_file is Some && tls_key_file is Some),
{
    tls_cert_file.is_some() && tls_key_file.is_some()
}

/// What starting the listener comes to, from what waiting for its
/// acknowledgement gave: success where it came, an error that says so where
/// the wait ran out, and the reason itself where the wait failed.
pub fn startup_outcome(received: Result<Option<()>, String>) -> (r: Result<(), String>)
    ensures
        match received {
            Ok(Some(_)) => r is Ok,
            Ok(None) => r matches Err(reason) && reason@
                == "could not receive HTTP server ack after initialization after 5s"@,
            Err(reason) => r == Err::<(), String>(reason),
        },
{
    match received {
        Ok(Some(_)) => Ok(()),
        Ok(None) => Err(
            String::from_str("could not receive HTTP server ack after initialization after 5s"),
        ),
        Err(reason) => Err(reason),
    }
}

/// Whether a message came from the listener, from what a short wait on its
/// channel gave: none where the wait ran out, one where something came, and
/// the reason where the wait failed.
pub fn maybe_handle_message(received: Result<Option<()>, String>) -> (r: Result<bool, String>)
    ensures
        match received {
            Ok(None) => r == Ok::<bool, String>(false),
            Ok(Some(_)) => r == Ok::<bool, String>(true),
            Err(reason) => r == Err::<bool, String>(reason),
        },
{
    match received {
        Ok(None) => Ok(false),
        Ok(_) => Ok(true),
        Err(reason) => Err(reason),
    }
}

} // verus!
