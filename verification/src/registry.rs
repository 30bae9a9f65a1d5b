//! What a subsystem tells the master about itself: where to reach it, and
//! the body that registers it.
use vstd::prelude::*;
use crate::json::{JsonMap, JsonNumber, JsonValue};
use crate::mailman::{MailManErr, MailManOk};
use crate::text::{concat3, decimal_digits, owned, u64_to_decimal};
use vstd::string::*;

verus! {

/// `http://host:port`.
pub open spec fn http_origin(host: Seq<char>, port: u16) -> Seq<char> {
    "http://"@ + host + ":"@ + decimal_digits(port as nat)
}

pub fn http_origin_text(host: &str, port: u16) -> (r: String)
    ensures
        r@ == http_origin(host@, port),
{
    let digits = u64_to_decimal(port as u64);
    let mut s = concat3("http://", host, ":");
    s.append(digits.as_str());
    s
}

/// The base URL of the master's API: `http://addr:port/api`.
pub open spec fn spec_master_api_url(master_addr: Seq<char>, master_port: u16) -> Seq<char> {
    http_origin(master_addr, master_port) + "/api"@
}

pub fn master_api_url(master_addr: &str, master_port: u16) -> (r: String)
    ensures
        r@ == spec_master_api_url(master_addr@, master_port),
{
    let mut s = http_origin_text(master_addr, master_port);
    s.append("/api");
    s
}

/// Whether an object is the body that registers a subsystem: its name, the
/// URL it listens on, its token, enabled, related to no service.
pub open spec fn is_register_body(m: JsonMap, name: Seq<char>, url: Seq<char>, token: Seq<char>) -> bool {
    &&& m.spec_get("subsys_name"@) matches Some(JsonValue::Str(s)) && s@ == name
    &&& m.spec_get("url"@) matches Some(JsonValue::Str(s)) && s@ == url
    &&& m.spec_get("token"@) matches Some(JsonValue::Str(s)) && s@ == token
    &&& m.spec_get("is_enable"@) == Some(JsonValue::Bool(true))
    &&& m.spec_get("relate_service_id"@) == Some(JsonValue::Number(JsonNumber::PosInt(0)))
}

/// The body that registers a subsystem listening on `listen_addr:listen_port`.
pub fn register_body(register_name: &str, listen_addr: &str, listen_port: u16, subsys_uuid: &str) -> (r: JsonMap)
    ensures
        is_register_body(r, register_name@, http_origin(listen_addr@, listen_port), subsys_uuid@),
        r.has_distinct_keys(),
{
    proof {
        reveal_strlit("subsys_name");
        reveal_strlit("url");
        reveal_strlit("token");
        reveal_strlit("is_enable");
        reveal_strlit("relate_service_id");
        assert("subsys_name"@.len() != "url"@.len() || "subsys_name"@[0] != "url"@[0]);
        assert("subsys_name"@.len() != "token"@.len() || "subsys_name"@[0] != "token"@[0]);
        assert("subsys_name"@.len() != "is_enable"@.len() || "subsys_name"@[0] != "is_enable"@[0]);
        assert("subsys_name"@.len() != "relate_service_id"@.len() || "subsys_name"@[0] != "relate_service_id"@[0]);
        assert("url"@.len() != "token"@.len() || "url"@[0] != "token"@[0]);
        assert("url"@.len() != "is_enable"@.len() || "url"@[0] != "is_enable"@[0]);
        assert("url"@.len() != "relate_service_id"@.len() || "url"@[0] != "relate_service_id"@[0]);
        assert("token"@.len() != "is_enable"@.len() || "token"@[0] != "is_enable"@[0]);
        assert("token"@.len() != "relate_service_id"@.len() || "token"@[0] != "relate_service_id"@[0]);
        assert("is_enable"@.len() != "relate_service_id"@.len() || "is_enable"@[0] != "relate_service_id"@[0]);
    }
    let mut m = JsonMap::new();
    m.insert(owned("subsys_name"), JsonValue::Str(owned(register_name)));
    m.insert(owned("url"), JsonValue::Str(http_origin_text(listen_addr, listen_port)));
    m.insert(owned("token"), JsonValue::Str(owned(subsys_uuid)));
    m.insert(owned("is_enable"), JsonValue::Bool(true));
    m.insert(owned("relate_service_id"), JsonValue::Number(JsonNumber::PosInt(0)));
    m
}

/// The answer to a registration-help request: the registration body under
/// the key given.
pub fn register_answer(
    key: &str,
    register_name: &str,
    listen_addr: &str,
    listen_port: u16,
    subsys_uuid: &str,
) -> (r: MailManOk<JsonValue>)
    ensures
        r.code == 200,
        r.key@ == key@,
        r.data matches Some(JsonValue::Object(m)) && is_register_body(
            m,
            register_name@,
            http_origin(listen_addr@, listen_port),
            subsys_uuid@,
        ),
{
    let body = register_body(register_name, listen_addr, listen_port, subsys_uuid);
    MailManOk::new(200, key, Some(JsonValue::Object(body)))
}

/// The answer to a refresh of the master's registration: what the master
/// answered, under `Master refreshed`, or its error as it came.
pub fn refresh_answer(outcome: Result<JsonValue, MailManErr>) -> (r: Result<MailManOk<JsonValue>, MailManErr>)
    ensures
        match outcome {
            Ok(d) => (r matches Ok(ok) && ok.code == 200 && ok.key@ == "Master refreshed"@ && ok.data == Some(d)),
            Err(e) => r == Err::<MailManOk<JsonValue>, MailManErr>(e),
        },
{
    match outcome {
        Ok(d) => Ok(MailManOk::new(200, "Master refreshed", Some(d))),
        Err(e) => Err(e),
    }
}

} // verus!
