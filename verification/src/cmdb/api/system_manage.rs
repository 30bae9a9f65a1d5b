//! The CMDB's management endpoints towards the master (watchman).
use vstd::prelude::*;
use crate::json::JsonValue;
use crate::mailman::{MailManErr, MailManOk};
use crate::registry::{http_origin, is_register_body, refresh_answer, register_answer};

verus! {

/// The answer to a refresh of the master's registration: what the master
/// answered, under `Master refreshed`, or its error as it came.
pub fn refresh_master(outcome: Result<JsonValue, MailManErr>) -> (r: Result<MailManOk<JsonValue>, MailManErr>)
    ensures
        match outcome {
            Ok(d) => (r matches Ok(ok) && ok.code == 200 && ok.key@ == "Master refreshed"@ && ok.data == Some(d)),
            Err(e) => r == Err::<MailManOk<JsonValue>, MailManErr>(e),
        },
{
    refresh_answer(outcome)
}

/// The body with which the master registers this subsystem, pre-filled from
/// the configuration, under `Register help generated`. The URL is built from
/// the listening address, which may be a wildcard address.
pub fn register_help(register_name: &str, listen_addr: &str, listen_port: u16, subsys_uuid: &str) -> (r: Result<
    MailManOk<JsonValue>,
    MailManErr,
>)
    ensures
        r matches Ok(ok) && ok.code == 200 && ok.key@ == "Register help generated"@ && (ok.data matches Some(
            JsonValue::Object(m),
        ) && is_register_body(m, register_name@, http_origin(listen_addr@, listen_port), subsys_uuid@)),
{
    Ok(register_answer("Register help generated", register_name, listen_addr, listen_port, subsys_uuid))
}

} // verus!
