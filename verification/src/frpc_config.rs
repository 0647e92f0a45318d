//! The `frpc` configuration for a Minecraft tunnel: one TCP proxy from
//! `127.0.0.1:<local port>` to `<remote port>` on the server, with token
//! authentication and an exit when the login fails, written as TOML by the
//! `toml` crate.
use vstd::prelude::*;
use crate::models::{sanitize, SettingsView, TunnelSettings, MINECRAFT_PROXY_NAME};
use crate::text::owned;

verus! {

/// The whole `frpc` configuration.
pub struct FrpcConfig {
    pub server_addr: String,
    pub server_port: u16,
    pub login_fail_exit: bool,
    pub auth: AuthConfig,
    pub transport: TransportConfig,
    pub proxies: Vec<ProxyConfig>,
}

/// How `frpc` authenticates to the server.
pub struct AuthConfig {
    pub method: String,
    pub token: String,
}

/// How `frpc` reaches the server.
pub struct TransportConfig {
    pub protocol: String,
}

/// One forwarded service.
pub struct ProxyConfig {
    pub name: String,
    pub proxy_type: String,
    pub local_ip: String,
    pub local_port: u16,
    pub remote_port: u16,
}

/// The `frpc` configuration for `settings`, taken sanitized: the server's
/// address and port, an exit when the login fails, token authentication with
/// the settings' token, TCP transport, and the single TCP proxy
/// `minecraft-lan` from `127.0.0.1` at the local port to the remote port.
pub fn frpc_config(settings: &TunnelSettings) -> (r: FrpcConfig)
    ensures
        r.server_addr@ == sanitize(settings@).server_addr,
        r.server_port == settings.server_port,
        r.login_fail_exit,
        r.auth.method@ == "token"@,
        r.auth.token@ == sanitize(settings@).token,
        r.transport.protocol@ == "tcp"@,
        r.proxies@.len() == 1,
        r.proxies@[0].name@ == MINECRAFT_PROXY_NAME@,
        r.proxies@[0].proxy_type@ == "tcp"@,
        r.proxies@[0].local_ip@ == "127.0.0.1"@,
        r.proxies@[0].local_port == settings.local_port,
        r.proxies@[0].remote_port == settings.remote_port,
{
    let sanitized = settings.sanitized();
    FrpcConfig {
        server_addr: sanitized.server_addr,
        server_port: sanitized.server_port,
        login_fail_exit: true,
        auth: AuthConfig { method: owned("token"), token: sanitized.token },
        transport: TransportConfig { protocol: owned("tcp") },
        proxies: vec![
            ProxyConfig {
                name: owned(MINECRAFT_PROXY_NAME),
                proxy_type: owned("tcp"),
                local_ip: owned("127.0.0.1"),
                local_port: sanitized.local_port,
                remote_port: sanitized.remote_port,
            },
        ],
    }
}

// ---------------------------------------------------------------------
// The TOML document
// ---------------------------------------------------------------------

#[verifier::external_type_specification]
#[verifier::external_body]
#[verifier::reject_recursive_types(K)]
#[verifier::reject_recursive_types(V)]
pub struct ExTomlMap<K, V>(toml::map::Map<K, V>);

#[verifier::external_type_specification]
#[verifier::external_body]
pub struct ExTomlValue(toml::Value);

/// A TOML value as a mathematical value. `Other` stands for the kinds of
/// value that this library never writes (floats and dates).
pub enum TomlItem {
    Str(Seq<char>),
    Int(int),
    Bool(bool),
    Table(Seq<(Seq<char>, TomlItem)>),
    Array(Seq<TomlItem>),
    Other,
}

/// The entries of a TOML table, in order.
pub uninterp spec fn table_entries(table: toml::Table) -> Seq<(Seq<char>, TomlItem)>;

/// A TOML value as a mathematical value.
pub uninterp spec fn value_item(value: toml::Value) -> TomlItem;

/// The text that `toml::to_string_pretty` writes for a table with `entries`.
pub uninterp spec fn toml_pretty(entries: Seq<(Seq<char>, TomlItem)>) -> Seq<char>;

/// `entries` with `key` set to `item`: in place when the key is there,
/// appended otherwise.
pub open spec fn with_entry(
    entries: Seq<(Seq<char>, TomlItem)>,
    key: Seq<char>,
    item: TomlItem,
) -> Seq<(Seq<char>, TomlItem)> {
    if exists|i: int| 0 <= i < entries.len() && entries[i].0 == key {
        let i = choose|i: int| 0 <= i < entries.len() && entries[i].0 == key;
        entries.update(i, (key, item))
    } else {
        entries.push((key, item))
    }
}

/// A string, an integer or a boolean.
pub open spec fn is_scalar(item: TomlItem) -> bool {
    item is Str || item is Int || item is Bool
}

/// A table of scalars.
pub open spec fn is_flat_table(item: TomlItem) -> bool {
    item matches TomlItem::Table(entries) && forall|i: int| 0 <= i < entries.len() ==> is_scalar(
        #[trigger] entries[i].1,
    )
}

/// A document whose values are scalars, tables of scalars, or arrays of
/// tables of scalars.
pub open spec fn is_plain_document(entries: Seq<(Seq<char>, TomlItem)>) -> bool {
    forall|i: int|
        0 <= i < entries.len() ==> {
            let item = #[trigger] entries[i].1;
            ||| is_scalar(item)
            ||| is_flat_table(item)
            ||| (item matches TomlItem::Array(items) && forall|j: int|
                0 <= j < items.len() ==> is_flat_table(#[trigger] items[j]))
        }
}

/// Calls `toml::map::Map::new`. Trusted: the new table has no entry.
#[verifier::external_body]
fn new_table() -> (t: toml::Table)
    ensures
        table_entries(t) == Seq::<(Seq<char>, TomlItem)>::empty(),
{
    toml::Table::new()
}

/// Calls `toml::map::Map::insert`. Trusted: with the crate's
/// `preserve_order` feature the table keeps its entries in insertion order,
/// so the key's value is replaced in place when the key is there, and the
/// entry is appended otherwise.
#[verifier::external_body]
fn table_insert(table: &mut toml::Table, key: String, value: toml::Value)
    ensures
        table_entries(*final(table)) == with_entry(table_entries(*old(table)), key@, value_item(value)),
{
    let _ = table.insert(key, value);
}

/// Makes `toml::Value::String`. Trusted: the value is that string.
#[verifier::external_body]
fn string_value(s: String) -> (v: toml::Value)
    ensures
        value_item(v) == TomlItem::Str(s@),
{
    toml::Value::String(s)
}

/// Makes `toml::Value::Integer`. Trusted: the value is that integer.
#[verifier::external_body]
fn integer_value(i: i64) -> (v: toml::Value)
    ensures
        value_item(v) == TomlItem::Int(i as int),
{
    toml::Value::Integer(i)
}

/// Makes `toml::Value::Boolean`. Trusted: the value is that boolean.
#[verifier::external_body]
fn boolean_value(b: bool) -> (v: toml::Value)
    ensures
        value_item(v) == TomlItem::Bool(b),
{
    toml::Value::Boolean(b)
}

/// Makes `toml::Value::Table`. Trusted: the value is a table with the
/// table's entries.
#[verifier::external_body]
fn table_value(t: toml::Table) -> (v: toml::Value)
    ensures
        value_item(v) == TomlItem::Table(table_entries(t)),
{
    toml::Value::Table(t)
}

/// Makes `toml::Value::Array`. Trusted: the value is an array of the items,
/// in order.
#[verifier::external_body]
fn array_value(items: Vec<toml::Value>) -> (v: toml::Value)
    ensures
        value_item(v) == TomlItem::Array(items@.map_values(|x: toml::Value| value_item(x))),
{
    toml::Value::Array(items)
}

/// Calls `toml::to_string_pretty` on a table, turning its error into text.
/// Trusted: what it writes depends on the table's entries alone, and is
/// named `toml_pretty`; on a document of strings, integers, booleans,
/// tables of these and arrays of such tables it succeeds, since its errors
/// come only from unsupported types, `None`, keys that are not strings,
/// numbers out of range and custom errors, none of which such a document
/// holds.
#[verifier::external_body]
fn render_pretty(doc: &toml::Table) -> (r: Result<String, String>)
    requires
        is_plain_document(table_entries(*doc)),
    ensures
        r is Ok,
        r matches Ok(s) ==> s@ == toml_pretty(table_entries(*doc)),
{
    toml::to_string_pretty(doc).map_err(|error| error.to_string())
}

/// A proxy as a TOML table: `name`, `type`, `localIP`, `localPort`,
/// `remotePort`.
pub open spec fn proxy_item(p: ProxyConfig) -> TomlItem {
    TomlItem::Table(
        seq![
            ("name"@, TomlItem::Str(p.name@)),
            ("type"@, TomlItem::Str(p.proxy_type@)),
            ("localIP"@, TomlItem::Str(p.local_ip@)),
            ("localPort"@, TomlItem::Int(p.local_port as int)),
            ("remotePort"@, TomlItem::Int(p.remote_port as int)),
        ],
    )
}

/// The configuration as a TOML document: `serverAddr`, `serverPort`,
/// `loginFailExit`, the `auth` table (`method`, `token`), the `transport`
/// table (`protocol`) and the `proxies` array of tables.
pub open spec fn config_document(c: FrpcConfig) -> Seq<(Seq<char>, TomlItem)> {
    seq![
        ("serverAddr"@, TomlItem::Str(c.server_addr@)),
        ("serverPort"@, TomlItem::Int(c.server_port as int)),
        ("loginFailExit"@, TomlItem::Bool(c.login_fail_exit)),
        (
            "auth"@,
            TomlItem::Table(
                seq![("method"@, TomlItem::Str(c.auth.method@)), ("token"@, TomlItem::Str(c.auth.token@))],
            ),
        ),
        ("transport"@, TomlItem::Table(seq![("protocol"@, TomlItem::Str(c.transport.protocol@))])),
        ("proxies"@, TomlItem::Array(c.proxies@.map_values(|p: ProxyConfig| proxy_item(p)))),
    ]
}

/// The document that the settings' configuration is written as.
pub open spec fn settings_document(v: SettingsView) -> Seq<(Seq<char>, TomlItem)> {
    let s = sanitize(v);
    seq![
        ("serverAddr"@, TomlItem::Str(s.server_addr)),
        ("serverPort"@, TomlItem::Int(s.server_port as int)),
        ("loginFailExit"@, TomlItem::Bool(true)),
        ("auth"@, TomlItem::Table(seq![("method"@, TomlItem::Str("token"@)), ("token"@, TomlItem::Str(s.token))])),
        ("transport"@, TomlItem::Table(seq![("protocol"@, TomlItem::Str("tcp"@))])),
        (
            "proxies"@,
            TomlItem::Array(
                seq![
                    TomlItem::Table(
                        seq![
                            ("name"@, TomlItem::Str(MINECRAFT_PROXY_NAME@)),
                            ("type"@, TomlItem::Str("tcp"@)),
                            ("localIP"@, TomlItem::Str("127.0.0.1"@)),
                            ("localPort"@, TomlItem::Int(s.local_port as int)),
                            ("remotePort"@, TomlItem::Int(s.remote_port as int)),
                        ],
                    ),
                ],
            ),
        ),
    ]
}

/// Inserts `key` into a table that does not hold it yet.
fn insert_new(table: &mut toml::Table, key: &str, value: toml::Value)
    requires
        forall|i: int| 0 <= i < table_entries(*old(table)).len() ==> #[trigger] table_entries(*old(table))[i].0 != key@,
    ensures
        table_entries(*final(table)) == table_entries(*old(table)).push((key@, value_item(value))),
{
    table_insert(table, owned(key), value);
}

proof fn lemma_distinct_keys()
    ensures
        "serverAddr"@ != "serverPort"@,
        "serverPort"@ != "loginFailExit"@,
        "serverAddr"@ != "loginFailExit"@,
        "auth"@ != "serverAddr"@ && "auth"@ != "serverPort"@ && "auth"@ != "loginFailExit"@,
        "transport"@ != "serverAddr"@ && "transport"@ != "serverPort"@ && "transport"@ != "loginFailExit"@ && "transport"@ != "auth"@,
        "proxies"@ != "serverAddr"@ && "proxies"@ != "serverPort"@ && "proxies"@ != "loginFailExit"@ && "proxies"@ != "auth"@ && "proxies"@ != "transport"@,
        "method"@ != "token"@,
        "name"@ != "type"@,
        "localIP"@ != "name"@ && "localIP"@ != "type"@,
        "localPort"@ != "name"@ && "localPort"@ != "type"@ && "localPort"@ != "localIP"@,
        "remotePort"@ != "name"@ && "remotePort"@ != "type"@ && "remotePort"@ != "localIP"@ && "remotePort"@ != "localPort"@,
{
    reveal_strlit("serverAddr");
    reveal_strlit("serverPort");
    reveal_strlit("loginFailExit");
    reveal_strlit("auth");
    reveal_strlit("transport");
    reveal_strlit("proxies");
    reveal_strlit("method");
    reveal_strlit("token");
    reveal_strlit("name");
    reveal_strlit("type");
    reveal_strlit("localIP");
    reveal_strlit("localPort");
    reveal_strlit("remotePort");
    assert("serverAddr"@[6] != "serverPort"@[6]);
    assert("name"@[0] != "type"@[0]);
    assert("auth"@.len() == 4 && "serverAddr"@.len() == 10 && "loginFailExit"@.len() == 13);
    assert("transport"@.len() == 9 && "proxies"@.len() == 7);
    assert("method"@.len() == 6 && "token"@.len() == 5);
    assert("name"@.len() == 4 && "type"@.len() == 4 && "localIP"@.len() == 7);
    assert("localPort"@.len() == 9 && "remotePort"@.len() == 10);
}

/// A proxy as a TOML table value.
fn proxy_value(p: &ProxyConfig) -> (v: toml::Value)
    ensures
        value_item(v) == proxy_item(*p),
{
    proof {
        lemma_distinct_keys();
    }
    let mut t = new_table();
    insert_new(&mut t, "name", string_value(p.name.clone()));
    insert_new(&mut t, "type", string_value(p.proxy_type.clone()));
    insert_new(&mut t, "localIP", string_value(p.local_ip.clone()));
    insert_new(&mut t, "localPort", integer_value(p.local_port as i64));
    insert_new(&mut t, "remotePort", integer_value(p.remote_port as i64));
    let v = table_value(t);
    assert(value_item(v) == proxy_item(*p)) by {
        if let TomlItem::Table(e) = proxy_item(*p) {
            assert(table_entries(t) =~= e);
        }
    }
    v
}

/// The configuration as a TOML table.
pub fn config_table(config: &FrpcConfig) -> (t: toml::Table)
    ensures
        table_entries(t) == config_document(*config),
{
    proof {
        lemma_distinct_keys();
    }
    let mut auth = new_table();
    insert_new(&mut auth, "method", string_value(config.auth.method.clone()));
    insert_new(&mut auth, "token", string_value(config.auth.token.clone()));
    let mut transport = new_table();
    insert_new(&mut transport, "protocol", string_value(config.transport.protocol.clone()));
    let mut proxies: Vec<toml::Value> = Vec::new();
    let mut i: usize = 0;
    while i < config.proxies.len()
        invariant
            i <= config.proxies@.len(),
            proxies@.map_values(|x: toml::Value| value_item(x)) == config.proxies@.subrange(
                0,
                i as int,
            ).map_values(|p: ProxyConfig| proxy_item(p)),
        decreases config.proxies@.len() - i,
    {
        let ghost before = proxies@;
        let v = proxy_value(&config.proxies[i]);
        proxies.push(v);
        proof {
            let f = |x: toml::Value| value_item(x);
            let g = |p: ProxyConfig| proxy_item(p);
            assert(proxies@ =~= before.push(v));
            assert(proxies@.map_values(f) =~= before.map_values(f).push(f(v)));
            assert(config.proxies@.subrange(0, i + 1) =~= config.proxies@.subrange(0, i as int).push(
                config.proxies@[i as int],
            ));
            assert(config.proxies@.subrange(0, i + 1).map_values(g) =~= config.proxies@.subrange(
                0,
                i as int,
            ).map_values(g).push(g(config.proxies@[i as int])));
        }
        i = i + 1;
    }
    assert(config.proxies@.subrange(0, config.proxies@.len() as int) =~= config.proxies@);
    let mut doc = new_table();
    insert_new(&mut doc, "serverAddr", string_value(config.server_addr.clone()));
    insert_new(&mut doc, "serverPort", integer_value(config.server_port as i64));
    insert_new(&mut doc, "loginFailExit", boolean_value(config.login_fail_exit));
    let auth_value = table_value(auth);
    insert_new(&mut doc, "auth", auth_value);
    let transport_value = table_value(transport);
    insert_new(&mut doc, "transport", transport_value);
    let ghost proxy_items = proxies@.map_values(|x: toml::Value| value_item(x));
    let proxies_value = array_value(proxies);
    assert(proxy_items == config.proxies@.map_values(|p: ProxyConfig| proxy_item(p)));
    insert_new(&mut doc, "proxies", proxies_value);
    assert(table_entries(auth) =~= seq![
        ("method"@, TomlItem::Str(config.auth.method@)),
        ("token"@, TomlItem::Str(config.auth.token@)),
    ]);
    assert(table_entries(transport) =~= seq![("protocol"@, TomlItem::Str(config.transport.protocol@))]);
    assert(table_entries(doc) =~= config_document(*config));
    doc
}

/// What rendering reports: the text, or the error explained.
pub fn finish_render(rendered: Result<String, String>) -> (r: Result<String, String>)
    ensures
        match rendered {
            Ok(s) => r == Ok::<String, String>(s),
            Err(e) => r matches Err(f) && f@ == "Failed to render frpc config: "@ + e@,
        },
{
    match rendered {
        Ok(s) => Ok(s),
        Err(e) => {
            let mut message = owned("Failed to render frpc config: ");
            message.append(e.as_str());
            Err(message)
        },
    }
}

/// The `frpc` configuration for `settings`, written as TOML.
pub fn render_config(settings: &TunnelSettings) -> (r: Result<String, String>)
    ensures
        r matches Ok(s) && s@ == toml_pretty(settings_document(settings@)),
{
    let config = frpc_config(settings);
    let doc = config_table(&config);
    proof {
        let e = config.proxies@.map_values(|p: ProxyConfig| proxy_item(p));
        assert(e =~= seq![proxy_item(config.proxies@[0])]);
        assert(config_document(config) =~= settings_document(settings@));
        assert(is_plain_document(table_entries(doc)));
    }
    let rendered = render_pretty(&doc);
    finish_render(rendered)
}

} // verus!
