//! The CMDB server configuration: its defaults and how a configuration
//! document sets it.
use vstd::prelude::*;
use crate::ident::{new_uuid_v4, uuid_text, uuid_to_text};
use crate::json::JsonValue;
use crate::mailman::MailManErr;
use crate::text::owned;

verus! {

/// The server configuration.
pub struct AllConfigs {
    pub log_path: String,
    pub log_level: String,
    pub db_str: String,
    pub listen_addr: String,
    pub listen_port: u16,
    pub workers: u16,
    pub allowed_origin_list: Vec<String>,
    pub allowed_methods: Vec<String>,
    pub allowed_headers: Vec<String>,
    pub authenticate_bypass: Vec<String>,
    pub subsys_uuid: String,
    pub master_addr: String,
    pub master_port: u16,
    pub register_name: String,
}

/// The characters of each text of a list.
pub open spec fn texts(v: Seq<String>) -> Seq<Seq<char>> {
    v.map_values(|s: String| s@)
}

/// The methods allowed across origins by default: those the routes use, and
/// `OPTIONS` for preflight requests.
pub open spec fn default_methods() -> Seq<Seq<char>> {
    seq!["GET"@, "POST"@, "PATCH"@, "DELETE"@, "PUT"@, "OPTIONS"@]
}

/// The request headers allowed across origins by default.
pub open spec fn default_headers() -> Seq<Seq<char>> {
    seq!["Content-Type"@, "Authorization"@]
}

/// The origins allowed when the configuration names none.
pub open spec fn fallback_origins() -> Seq<Seq<char>> {
    seq!["http://localhost:8000"@, "http://127.0.0.1:8000"@]
}

/// The paths that bypass authentication when the configuration names none.
pub open spec fn fallback_bypass() -> Seq<Seq<char>> {
    seq!["/api/hey"@, "/api/manage/refresh_master"@]
}

/// The member `key` of the object `section` of a configuration document.
pub open spec fn config_member(config: JsonValue, section: Seq<char>, key: Seq<char>) -> Option<
    JsonValue,
> {
    match config {
        JsonValue::Object(m) => match m.spec_get(section) {
            Some(JsonValue::Object(s)) => s.spec_get(key),
            _ => None,
        },
        _ => None,
    }
}

/// A string setting.
pub open spec fn config_text(config: JsonValue, section: Seq<char>, key: Seq<char>) -> Option<Seq<char>> {
    match config_member(config, section, key) {
        Some(v) => v.spec_as_str(),
        None => None,
    }
}

/// A non-negative integer setting.
pub open spec fn config_u64(config: JsonValue, section: Seq<char>, key: Seq<char>) -> Option<u64> {
    match config_member(config, section, key) {
        Some(v) => v.spec_as_u64(),
        None => None,
    }
}

/// A setting cut to its low 16 bits.
pub open spec fn low_u16(o: Option<u64>) -> Option<u16> {
    match o {
        Some(n) => Some(n as u16),
        None => None,
    }
}

/// The texts among the items of an array, in order; other items are skipped.
pub open spec fn string_items(items: Seq<JsonValue>) -> Seq<Seq<char>>
    decreases items.len(),
{
    if items.len() == 0 {
        Seq::empty()
    } else {
        let rest = string_items(items.drop_last());
        match items.last().spec_as_str() {
            Some(s) => rest.push(s),
            None => rest,
        }
    }
}

/// A list setting: the texts of the array configured, or the fallback where
/// the setting is no array.
pub open spec fn config_list(
    config: JsonValue,
    section: Seq<char>,
    key: Seq<char>,
    fallback: Seq<Seq<char>>,
) -> Seq<Seq<char>> {
    match config_member(config, section, key) {
        Some(JsonValue::Array(items)) => string_items(items@),
        _ => fallback,
    }
}

/// The settings a configuration document must give, in the order they are
/// read, with what is said when one is missing.
pub open spec fn required_settings() -> Seq<(Seq<char>, Seq<char>, bool, Seq<char>)> {
    seq![
        ("server_config"@, "log_path"@, true, "Config path server_config:log_path (string) not found"@),
        ("server_config"@, "log_level"@, true, "Config path server_config:log_level (string) not found"@),
        ("server_config"@, "listen_addr"@, true, "Config path server_config:listen_addr (string) not found"@),
        ("server_config"@, "listen_port"@, false, "Config path server_config:listen_port (u16) not found"@),
        ("server_config"@, "workers"@, false, "Config path server_config:workers (u16) not found"@),
        ("server_config"@, "register_name"@, true, "Config path server_config:register_name (string) not found"@),
        ("server_config"@, "master_addr"@, true, "Config path server_config:master_addr (string) not found"@),
        ("server_config"@, "master_port"@, false, "Config path server_config:master_port (u16) not found"@),
        ("db_config"@, "db_str"@, true, "Config path db_config:db_str (string) not found"@),
    ]
}

/// Whether a document gives a setting: a string, or a non-negative integer.
pub open spec fn gives_setting(config: JsonValue, setting: (Seq<char>, Seq<char>, bool, Seq<char>)) -> bool {
    if setting.2 {
        config_text(config, setting.0, setting.1) is Some
    } else {
        config_u64(config, setting.0, setting.1) is Some
    }
}

/// Whether a document gives every required setting.
pub open spec fn config_complete(config: JsonValue) -> bool {
    forall|i: int| 0 <= i < required_settings().len() ==> gives_setting(config, #[trigger] required_settings()[i])
}

/// What is said of the first required setting a document lacks.
pub open spec fn first_missing(config: JsonValue, settings: Seq<(Seq<char>, Seq<char>, bool, Seq<char>)>) -> Option<
    Seq<char>,
>
    decreases settings.len(),
{
    if settings.len() == 0 {
        None
    } else if !gives_setting(config, settings[0]) {
        Some(settings[0].3)
    } else {
        first_missing(config, settings.drop_first())
    }
}

proof fn lemma_first_missing(config: JsonValue, settings: Seq<(Seq<char>, Seq<char>, bool, Seq<char>)>)
    ensures
        first_missing(config, settings) is None <==> forall|i: int|
            0 <= i < settings.len() ==> gives_setting(config, #[trigger] settings[i]),
    decreases settings.len(),
{
    if settings.len() > 0 {
        let rest = settings.drop_first();
        lemma_first_missing(config, rest);
        if first_missing(config, settings) is None {
            assert forall|i: int| 0 <= i < settings.len() implies gives_setting(
                config,
                #[trigger] settings[i],
            ) by {
                if i > 0 {
                    assert(settings[i] == rest[i - 1]);
                }
            }
        }
        if forall|i: int| 0 <= i < settings.len() ==> gives_setting(config, #[trigger] settings[i]) {
            assert(gives_setting(config, settings[0]));
            assert forall|i: int| 0 <= i < rest.len() implies gives_setting(config, #[trigger] rest[i]) by {
                assert(rest[i] == settings[i + 1]);
            }
        }
    }
}

/// The member `key` of the object `section` of a configuration document.
fn member_of<'a>(config: &'a JsonValue, section: &str, key: &str) -> (r: Option<&'a JsonValue>)
    ensures
        match r {
            Some(v) => config_member(*config, section@, key@) == Some(*v),
            None => config_member(*config, section@, key@) is None,
        },
{
    match config {
        JsonValue::Object(m) => match m.get(section) {
            Some(inner) => match inner {
                JsonValue::Object(s) => s.get(key),
                _ => None,
            },
            None => None,
        },
        _ => None,
    }
}

fn text_of(config: &JsonValue, section: &str, key: &str) -> (r: Option<String>)
    ensures
        crate::json::opt_text(r) == config_text(*config, section@, key@),
{
    match member_of(config, section, key) {
        Some(v) => v.as_string(),
        None => None,
    }
}

fn u64_of(config: &JsonValue, section: &str, key: &str) -> (r: Option<u64>)
    ensures
        r == config_u64(*config, section@, key@),
{
    match member_of(config, section, key) {
        Some(v) => v.as_u64(),
        None => None,
    }
}

/// The texts among the items of an array.
fn strings_in(items: &Vec<JsonValue>) -> (r: Vec<String>)
    ensures
        texts(r@) == string_items(items@),
{
    let n = items.len();
    let mut out: Vec<String> = Vec::new();
    let mut i: usize = 0;
    while i < n
        invariant
            n == items@.len(),
            i <= n,
            texts(out@) == string_items(items@.take(i as int)),
        decreases n - i,
    {
        let ghost before = out@;
        proof {
            assert(items@.take(i + 1).drop_last() =~= items@.take(i as int));
            assert(items@.take(i + 1).last() == items@[i as int]);
        }
        match items[i].as_string() {
            Some(s) => {
                out.push(s);
                assert(texts(out@) =~= texts(before).push(out@.last()@));
            },
            None => {},
        }
        i = i + 1;
    }
    assert(items@.take(n as int) =~= items@);
    out
}

fn list_of(config: &JsonValue, section: &str, key: &str, fallback: Vec<String>) -> (r: Vec<String>)
    ensures
        texts(r@) == config_list(*config, section@, key@, texts(fallback@)),
{
    match member_of(config, section, key) {
        Some(v) => match v {
            JsonValue::Array(items) => strings_in(items),
            _ => fallback,
        },
        None => fallback,
    }
}

fn texts_of(v: Vec<&'static str>) -> (r: Vec<String>)
    ensures
        texts(r@) == v@.map_values(|s: &'static str| s@),
{
    let n = v.len();
    let mut out: Vec<String> = Vec::new();
    let mut i: usize = 0;
    while i < n
        invariant
            n == v@.len(),
            i <= n,
            texts(out@) =~= v@.take(i as int).map_values(|s: &'static str| s@),
        decreases n - i,
    {
        let ghost before = out@;
        out.push(owned(v[i]));
        assert(texts(out@) =~= texts(before).push(v@[i as int]@));
        assert(v@.take(i + 1) =~= v@.take(i as int).push(v@[i as int]));
        i = i + 1;
    }
    assert(v@.take(n as int) =~= v@);
    out
}

impl AllConfigs {
    /// The configuration before any document is read.
    pub fn new() -> (r: AllConfigs)
        ensures
            r.log_path@.len() == 0,
            r.log_level@.len() == 0,
            r.db_str@.len() == 0,
            r.listen_addr@.len() == 0,
            r.listen_port == 9001,
            r.workers == 2,
            r.allowed_origin_list@.len() == 0,
            texts(r.allowed_methods@) == default_methods(),
            texts(r.allowed_headers@) == default_headers(),
            r.authenticate_bypass@.len() == 0,
            r.subsys_uuid@.len() == 0,
            r.master_addr@.len() == 0,
            r.master_port == 8000,
            r.register_name@.len() == 0,
    {
        let methods = texts_of(vec!["GET", "POST", "PATCH", "DELETE", "PUT", "OPTIONS"]);
        let headers = texts_of(vec!["Content-Type", "Authorization"]);
        assert(texts(methods@) =~= default_methods());
        assert(texts(headers@) =~= default_headers());
        AllConfigs {
            log_path: String::new(),
            log_level: String::new(),
            db_str: String::new(),
            listen_addr: String::new(),
            listen_port: 9001,
            workers: 2,
            allowed_origin_list: Vec::new(),
            allowed_methods: methods,
            allowed_headers: headers,
            authenticate_bypass: Vec::new(),
            subsys_uuid: String::new(),
            master_addr: String::new(),
            master_port: 8000,
            register_name: String::new(),
        }
    }

    /// What is said of the first required setting that a configuration
    /// document lacks; `None` when it gives them all.
    pub fn config_problem(config: &JsonValue) -> (r: Option<String>)
        ensures
            crate::json::opt_text(r) == first_missing(*config, required_settings()),
            r is None <==> config_complete(*config),
    {
        proof {
            lemma_first_missing(*config, required_settings());
        }
        let settings: Vec<(&'static str, &'static str, bool, &'static str)> = vec![
            ("server_config", "log_path", true, "Config path server_config:log_path (string) not found"),
            ("server_config", "log_level", true, "Config path server_config:log_level (string) not found"),
            ("server_config", "listen_addr", true, "Config path server_config:listen_addr (string) not found"),
            ("server_config", "listen_port", false, "Config path server_config:listen_port (u16) not found"),
            ("server_config", "workers", false, "Config path server_config:workers (u16) not found"),
            ("server_config", "register_name", true, "Config path server_config:register_name (string) not found"),
            ("server_config", "master_addr", true, "Config path server_config:master_addr (string) not found"),
            ("server_config", "master_port", false, "Config path server_config:master_port (u16) not found"),
            ("db_config", "db_str", true, "Config path db_config:db_str (string) not found"),
        ];
        let ghost spec_settings = settings@.map_values(
            |s: (&'static str, &'static str, bool, &'static str)| (s.0@, s.1@, s.2, s.3@),
        );
        assert(spec_settings =~= required_settings());
        assert(spec_settings.skip(0) =~= spec_settings);
        let n = settings.len();
        let mut i: usize = 0;
        while i < n
            invariant
                n == settings@.len(),
                i <= n,
                spec_settings == settings@.map_values(
                    |s: (&'static str, &'static str, bool, &'static str)| (s.0@, s.1@, s.2, s.3@),
                ),
                spec_settings == required_settings(),
                first_missing(*config, spec_settings) == first_missing(*config, spec_settings.skip(i as int)),
            decreases n - i,
        {
            let (section, key, textual, message) = settings[i];
            let gives = if textual {
                text_of(config, section, key).is_some()
            } else {
                u64_of(config, section, key).is_some()
            };
            let ghost tail = spec_settings.skip(i as int);
            assert(tail[0] == (section@, key@, textual, message@));
            assert(gives == gives_setting(*config, tail[0]));
            if !gives {
                return Some(owned(message));
            }
            assert(tail.drop_first() =~= spec_settings.skip(i + 1));
            i = i + 1;
        }
        assert(spec_settings.skip(n as int).len() == 0);
        None
    }

    /// Sets the configuration from a configuration document. Every list
    /// setting that is no array falls back to its default; a missing `uuid`
    /// falls back to the text of a fresh random version-4 UUID.
    pub fn reload(&mut self, config: &JsonValue) -> (r: Result<u8, MailManErr>)
        requires
            config_complete(*config),
        ensures
            r matches Ok(0u8),
            Some(final(self).log_path@) == config_text(*config, "server_config"@, "log_path"@),
            Some(final(self).log_level@) == config_text(*config, "server_config"@, "log_level"@),
            Some(final(self).listen_addr@) == config_text(*config, "server_config"@, "listen_addr"@),
            Some(final(self).listen_port) == low_u16(config_u64(*config, "server_config"@, "listen_port"@)),
            Some(final(self).workers) == low_u16(config_u64(*config, "server_config"@, "workers"@)),
            texts(final(self).allowed_origin_list@) == config_list(
                *config,
                "server_config"@,
                "allowed_origin_list"@,
                fallback_origins(),
            ),
            texts(final(self).allowed_methods@) == config_list(
                *config,
                "server_config"@,
                "allowed_methods"@,
                default_methods(),
            ),
            texts(final(self).allowed_headers@) == config_list(
                *config,
                "server_config"@,
                "allowed_headers"@,
                default_headers(),
            ),
            match config_text(*config, "server_config"@, "uuid"@) {
                Some(u) => final(self).subsys_uuid@ == u,
                None => {
                    &&& final(self).subsys_uuid@.len() == 36
                    &&& exists|g: u128|
                        (g >> 76u128) & 0xfu128 == 4u128 && final(self).subsys_uuid@ == #[trigger] uuid_text(g)
                },
            },
            Some(final(self).register_name@) == config_text(*config, "server_config"@, "register_name"@),
            Some(final(self).master_addr@) == config_text(*config, "server_config"@, "master_addr"@),
            Some(final(self).master_port) == low_u16(config_u64(*config, "server_config"@, "master_port"@)),
            texts(final(self).authenticate_bypass@) == config_list(
                *config,
                "server_config"@,
                "authenticate_bypass"@,
                fallback_bypass(),
            ),
            Some(final(self).db_str@) == config_text(*config, "db_config"@, "db_str"@),
    {
        assert(gives_setting(*config, required_settings()[0]));
        assert(gives_setting(*config, required_settings()[1]));
        assert(gives_setting(*config, required_settings()[2]));
        assert(gives_setting(*config, required_settings()[3]));
        assert(gives_setting(*config, required_settings()[4]));
        assert(gives_setting(*config, required_settings()[5]));
        assert(gives_setting(*config, required_settings()[6]));
        assert(gives_setting(*config, required_settings()[7]));
        assert(gives_setting(*config, required_settings()[8]));
        self.log_path = text_of(config, "server_config", "log_path").unwrap();
        self.log_level = text_of(config, "server_config", "log_level").unwrap();
        self.listen_addr = text_of(config, "server_config", "listen_addr").unwrap();
        self.listen_port = u64_of(config, "server_config", "listen_port").unwrap() as u16;
        self.workers = u64_of(config, "server_config", "workers").unwrap() as u16;
        let origins = texts_of(vec!["http://localhost:8000", "http://127.0.0.1:8000"]);
        assert(texts(origins@) =~= fallback_origins());
        self.allowed_origin_list = list_of(config, "server_config", "allowed_origin_list", origins);
        let methods = texts_of(vec!["GET", "POST", "PATCH", "DELETE", "PUT", "OPTIONS"]);
        assert(texts(methods@) =~= default_methods());
        self.allowed_methods = list_of(config, "server_config", "allowed_methods", methods);
        let headers = texts_of(vec!["Content-Type", "Authorization"]);
        assert(texts(headers@) =~= default_headers());
        self.allowed_headers = list_of(config, "server_config", "allowed_headers", headers);
        let generated = new_uuid_v4();
        let fresh = uuid_to_text(generated);
        self.subsys_uuid = match text_of(config, "server_config", "uuid") {
            Some(u) => u,
            None => fresh,
        };
        self.register_name = text_of(config, "server_config", "register_name").unwrap();
        self.master_addr = text_of(config, "server_config", "master_addr").unwrap();
        self.master_port = u64_of(config, "server_config", "master_port").unwrap() as u16;
        let bypass = texts_of(vec!["/api/hey", "/api/manage/refresh_master"]);
        assert(texts(bypass@) =~= fallback_bypass());
        self.authenticate_bypass = list_of(config, "server_config", "authenticate_bypass", bypass);
        self.db_str = text_of(config, "db_config", "db_str").unwrap();
        Ok(0)
    }
}

} // verus!
