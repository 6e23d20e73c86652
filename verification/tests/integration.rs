use std::collections::{BTreeMap, HashMap};
use toml_comment::{
    derive_toml_comment, FieldDecl, FieldType, StructDecl, TomlComment, TypeDescriptor, Value,
};

fn lines(docs: &[&str]) -> Vec<String> {
    docs.iter().map(|line| line.to_string()).collect()
}

fn path(name: &str, args: Vec<FieldType>) -> FieldType {
    FieldType::Path { name: name.to_string(), args }
}

fn named(name: &str) -> FieldType {
    path(name, Vec::new())
}

fn field(name: &str, ty: FieldType, docs: &[&str]) -> FieldDecl {
    FieldDecl { name: name.to_string(), ty, documentation: lines(docs), inline: false, nested: None }
}

fn inline_field(name: &str, ty: FieldType, docs: &[&str]) -> FieldDecl {
    FieldDecl { name: name.to_string(), ty, documentation: lines(docs), inline: true, nested: None }
}

fn section<T: TomlComment>(name: &str, ty: &str, docs: &[&str]) -> FieldDecl {
    FieldDecl {
        name: name.to_string(),
        ty: named(ty),
        documentation: lines(docs),
        inline: false,
        nested: Some(T::descriptor()),
    }
}

fn describe(docs: &[&str], fields: Vec<FieldDecl>) -> TypeDescriptor {
    derive_toml_comment(StructDecl { documentation: lines(docs), fields }).unwrap()
}

fn text(s: &str) -> Value {
    Value::String(s.to_string())
}

fn table(entries: Vec<(&str, Value)>) -> Value {
    Value::Table(entries.into_iter().map(|(key, value)| (key.to_string(), value)).collect())
}

fn sorted_table<'a, V: 'a>(
    entries: impl Iterator<Item = (&'a String, &'a V)>,
    convert: impl Fn(&V) -> Value,
) -> Value {
    let mut pairs: Vec<(String, Value)> =
        entries.map(|(key, value)| (key.clone(), convert(value))).collect();
    pairs.sort_by(|a, b| a.0.cmp(&b.0));
    Value::Table(pairs)
}

fn string_map() -> FieldType {
    path("HashMap", vec![named("String"), named("String")])
}

fn sorted_string_map() -> FieldType {
    path("BTreeMap", vec![named("String"), named("String")])
}

/// Application settings
struct AppConfig {
    /// The application name
    name: String,
    /// Whether debug mode is enabled
    debug: bool,
    /// Maximum retry count
    max_retries: u32,
}

impl Default for AppConfig {
    fn default() -> Self {
        Self {
            name: "myapp".to_string(),
            debug: false,
            max_retries: 3,
        }
    }
}

impl TomlComment for AppConfig {
    fn descriptor() -> TypeDescriptor {
        describe(
            &[" Application settings"],
            vec![
                field("name", named("String"), &[" The application name"]),
                field("debug", named("bool"), &[" Whether debug mode is enabled"]),
                field("max_retries", named("u32"), &[" Maximum retry count"]),
            ],
        )
    }

    fn to_value(&self) -> Value {
        table(vec![
            ("name", text(&self.name)),
            ("debug", Value::Boolean(self.debug)),
            ("max_retries", Value::Integer(self.max_retries as i64)),
        ])
    }
}

#[test]
fn basic_struct() {
    let toml = AppConfig::default_toml().unwrap();
    let expected = "\
# Application settings
# The application name
name = \"myapp\"
# Whether debug mode is enabled
debug = false
# Maximum retry count
max_retries = 3
";
    assert_eq!(toml, expected);
}

struct ServerConfig {
    /// Port to listen on
    port: u16,
    /// Bind address
    host: String,
}

impl Default for ServerConfig {
    fn default() -> Self {
        Self {
            port: 8080,
            host: "127.0.0.1".to_string(),
        }
    }
}

impl TomlComment for ServerConfig {
    fn descriptor() -> TypeDescriptor {
        describe(
            &[],
            vec![
                field("port", named("u16"), &[" Port to listen on"]),
                field("host", named("String"), &[" Bind address"]),
            ],
        )
    }

    fn to_value(&self) -> Value {
        table(vec![("port", Value::Integer(self.port as i64)), ("host", text(&self.host))])
    }
}

/// Root config
struct RootConfig {
    server: ServerConfig,
}

impl Default for RootConfig {
    fn default() -> Self {
        Self {
            server: ServerConfig::default(),
        }
    }
}

impl TomlComment for RootConfig {
    fn descriptor() -> TypeDescriptor {
        describe(&[" Root config"], vec![section::<ServerConfig>("server", "ServerConfig", &[])])
    }

    fn to_value(&self) -> Value {
        table(vec![("server", self.server.to_value())])
    }
}

#[test]
fn nested_struct() {
    let toml = RootConfig::default_toml().unwrap();
    let expected = "\
# Root config

[server]
# Port to listen on
port = 8080
# Bind address
host = \"127.0.0.1\"
";
    assert_eq!(toml, expected);
}

struct WithOption {
    /// Always present
    name: String,
    /// Sometimes present
    extra: Option<String>,
}

impl Default for WithOption {
    fn default() -> Self {
        Self {
            name: "hello".to_string(),
            extra: None,
        }
    }
}

impl TomlComment for WithOption {
    fn descriptor() -> TypeDescriptor {
        describe(
            &[],
            vec![
                field("name", named("String"), &[" Always present"]),
                field("extra", path("Option", vec![named("String")]), &[" Sometimes present"]),
            ],
        )
    }

    fn to_value(&self) -> Value {
        let mut entries = vec![("name", text(&self.name))];
        if let Some(extra) = &self.extra {
            entries.push(("extra", text(extra)));
        }
        table(entries)
    }
}

#[test]
fn option_none_omitted() {
    let toml = WithOption::default_toml().unwrap();
    let expected = "\
# Always present
name = \"hello\"
";
    assert_eq!(toml, expected);
}

#[test]
fn option_some_included() {
    let cfg = WithOption {
        name: "hello".to_string(),
        extra: Some("world".to_string()),
    };
    let toml = cfg.to_commented_toml().unwrap();
    let expected = "\
# Always present
name = \"hello\"
# Sometimes present
extra = \"world\"
";
    assert_eq!(toml, expected);
}

struct WithVec {
    /// Allowed origins
    origins: Vec<String>,
}

impl Default for WithVec {
    fn default() -> Self {
        Self {
            origins: vec!["localhost".to_string(), "example.com".to_string()],
        }
    }
}

impl TomlComment for WithVec {
    fn descriptor() -> TypeDescriptor {
        describe(
            &[],
            vec![field("origins", path("Vec", vec![named("String")]), &[" Allowed origins"])],
        )
    }

    fn to_value(&self) -> Value {
        table(vec![("origins", Value::Array(self.origins.iter().map(|o| text(o)).collect()))])
    }
}

#[test]
fn vec_field() {
    let toml = WithVec::default_toml().unwrap();
    let expected = "\
# Allowed origins
origins = [\"localhost\", \"example.com\"]
";
    assert_eq!(toml, expected);
}

struct NoComments {
    name: String,
    count: u32,
}

impl Default for NoComments {
    fn default() -> Self {
        Self {
            name: "test".to_string(),
            count: 42,
        }
    }
}

impl TomlComment for NoComments {
    fn descriptor() -> TypeDescriptor {
        describe(&[], vec![field("name", named("String"), &[]), field("count", named("u32"), &[])])
    }

    fn to_value(&self) -> Value {
        table(vec![("name", text(&self.name)), ("count", Value::Integer(self.count as i64))])
    }
}

#[test]
fn no_comment_fields() {
    let toml = NoComments::default_toml().unwrap();
    let expected = "\
name = \"test\"
count = 42
";
    assert_eq!(toml, expected);
}

#[test]
fn non_default_values() {
    let cfg = AppConfig {
        name: "custom".to_string(),
        debug: true,
        max_retries: 10,
    };
    let toml = cfg.to_commented_toml().unwrap();
    assert!(toml.contains("name = \"custom\""));
    assert!(toml.contains("debug = true"));
    assert!(toml.contains("max_retries = 10"));
}

struct LoggingConfig {
    /// Log level
    level: String,
}

impl Default for LoggingConfig {
    fn default() -> Self {
        Self {
            level: "info".to_string(),
        }
    }
}

impl TomlComment for LoggingConfig {
    fn descriptor() -> TypeDescriptor {
        describe(&[], vec![field("level", named("String"), &[" Log level"])])
    }

    fn to_value(&self) -> Value {
        table(vec![("level", text(&self.level))])
    }
}

struct DatabaseConfig {
    /// Connection URL
    url: String,
}

impl Default for DatabaseConfig {
    fn default() -> Self {
        Self {
            url: "sqlite://data.db".to_string(),
        }
    }
}

impl TomlComment for DatabaseConfig {
    fn descriptor() -> TypeDescriptor {
        describe(&[], vec![field("url", named("String"), &[" Connection URL"])])
    }

    fn to_value(&self) -> Value {
        table(vec![("url", text(&self.url))])
    }
}

/// Multi-section config
struct MultiSection {
    logging: LoggingConfig,
    database: DatabaseConfig,
}

impl Default for MultiSection {
    fn default() -> Self {
        Self {
            logging: LoggingConfig::default(),
            database: DatabaseConfig::default(),
        }
    }
}

impl TomlComment for MultiSection {
    fn descriptor() -> TypeDescriptor {
        describe(
            &[" Multi-section config"],
            vec![
                section::<LoggingConfig>("logging", "LoggingConfig", &[]),
                section::<DatabaseConfig>("database", "DatabaseConfig", &[]),
            ],
        )
    }

    fn to_value(&self) -> Value {
        table(vec![("logging", self.logging.to_value()), ("database", self.database.to_value())])
    }
}

#[test]
fn multiple_sections_separated_by_blank_line() {
    let toml = MultiSection::default_toml().unwrap();
    let expected = "\
# Multi-section config

[logging]
# Log level
level = \"info\"

[database]
# Connection URL
url = \"sqlite://data.db\"
";
    assert_eq!(toml, expected);
}

struct Thresholds {
    /// Temperature threshold
    temperature: f64,
    /// Ratio value
    ratio: f64,
}

impl Default for Thresholds {
    fn default() -> Self {
        Self {
            temperature: 1.0,
            ratio: 0.75,
        }
    }
}

impl TomlComment for Thresholds {
    fn descriptor() -> TypeDescriptor {
        describe(
            &[],
            vec![
                field("temperature", named("f64"), &[" Temperature threshold"]),
                field("ratio", named("f64"), &[" Ratio value"]),
            ],
        )
    }

    fn to_value(&self) -> Value {
        table(vec![
            ("temperature", Value::Float(self.temperature.to_string())),
            ("ratio", Value::Float(self.ratio.to_string())),
        ])
    }
}

#[test]
fn float_formatting() {
    let toml = Thresholds::default_toml().unwrap();
    assert!(toml.contains("temperature = 1.0"));
    assert!(toml.contains("ratio = 0.75"));
}

// --- Enum support ---

#[allow(dead_code)]
enum LogLevel {
    Debug,
    Info,
    Warn,
}

impl LogLevel {
    fn to_value(&self) -> Value {
        match self {
            LogLevel::Debug => text("Debug"),
            LogLevel::Info => text("Info"),
            LogLevel::Warn => text("Warn"),
        }
    }
}

struct WithEnum {
    /// The log level
    level: LogLevel,
    /// App name
    name: String,
}

impl Default for WithEnum {
    fn default() -> Self {
        Self {
            level: LogLevel::Info,
            name: "app".to_string(),
        }
    }
}

impl TomlComment for WithEnum {
    fn descriptor() -> TypeDescriptor {
        describe(
            &[],
            vec![
                inline_field("level", named("LogLevel"), &[" The log level"]),
                field("name", named("String"), &[" App name"]),
            ],
        )
    }

    fn to_value(&self) -> Value {
        table(vec![("level", self.level.to_value()), ("name", text(&self.name))])
    }
}

#[test]
fn enum_field_inline() {
    let toml = WithEnum::default_toml().unwrap();
    let expected = "\
# The log level
level = \"Info\"
# App name
name = \"app\"
";
    assert_eq!(toml, expected);
}

struct WithOptionalEnum {
    level: Option<LogLevel>,
}

impl Default for WithOptionalEnum {
    fn default() -> Self {
        Self { level: None }
    }
}

impl TomlComment for WithOptionalEnum {
    fn descriptor() -> TypeDescriptor {
        describe(&[], vec![field("level", path("Option", vec![named("LogLevel")]), &[])])
    }

    fn to_value(&self) -> Value {
        match &self.level {
            Some(level) => table(vec![("level", level.to_value())]),
            None => table(Vec::new()),
        }
    }
}

#[test]
fn option_enum_none() {
    let toml = WithOptionalEnum::default_toml().unwrap();
    assert_eq!(toml, "");
}

#[test]
fn option_enum_some() {
    let cfg = WithOptionalEnum {
        level: Some(LogLevel::Warn),
    };
    let toml = cfg.to_commented_toml().unwrap();
    assert_eq!(toml, "level = \"Warn\"\n");
}

// --- Map support ---

struct WithHashMap {
    /// Environment variables
    env: HashMap<String, String>,
}

impl Default for WithHashMap {
    fn default() -> Self {
        let mut env = HashMap::new();
        env.insert("KEY".to_string(), "value".to_string());
        Self { env }
    }
}

impl TomlComment for WithHashMap {
    fn descriptor() -> TypeDescriptor {
        describe(&[], vec![field("env", string_map(), &[" Environment variables"])])
    }

    fn to_value(&self) -> Value {
        table(vec![("env", sorted_table(self.env.iter(), |v| text(v)))])
    }
}

#[test]
fn hashmap_leaf_values() {
    let toml = WithHashMap::default_toml().unwrap();
    let expected = "\
# Environment variables
KEY = \"value\"
";
    assert_eq!(toml, expected);
}

struct WithBTreeMap {
    /// Sorted settings
    settings: BTreeMap<String, String>,
}

impl Default for WithBTreeMap {
    fn default() -> Self {
        let mut settings = BTreeMap::new();
        settings.insert("alpha".to_string(), "first".to_string());
        settings.insert("beta".to_string(), "second".to_string());
        Self { settings }
    }
}

impl TomlComment for WithBTreeMap {
    fn descriptor() -> TypeDescriptor {
        describe(&[], vec![field("settings", sorted_string_map(), &[" Sorted settings"])])
    }

    fn to_value(&self) -> Value {
        table(vec![("settings", sorted_table(self.settings.iter(), |v| text(v)))])
    }
}

#[test]
fn btreemap_deterministic_order() {
    let toml = WithBTreeMap::default_toml().unwrap();
    let expected = "\
# Sorted settings
alpha = \"first\"
beta = \"second\"
";
    assert_eq!(toml, expected);
}

struct WithStructMap {
    entries: HashMap<String, ServerConfig>,
}

impl Default for WithStructMap {
    fn default() -> Self {
        let mut entries = HashMap::new();
        entries.insert(
            "main".to_string(),
            ServerConfig {
                port: 3000,
                host: "0.0.0.0".to_string(),
            },
        );
        Self { entries }
    }
}

impl TomlComment for WithStructMap {
    fn descriptor() -> TypeDescriptor {
        describe(
            &[],
            vec![field(
                "entries",
                path("HashMap", vec![named("String"), named("ServerConfig")]),
                &[],
            )],
        )
    }

    fn to_value(&self) -> Value {
        table(vec![("entries", sorted_table(self.entries.iter(), |v| v.to_value()))])
    }
}

#[test]
fn hashmap_struct_values() {
    let toml = WithStructMap::default_toml().unwrap();
    assert!(toml.contains("main = {"));
    assert!(toml.contains("port = 3000"));
    assert!(toml.contains("host = \"0.0.0.0\""));
}

struct WithEmptyMap {
    /// Tags for the resource
    tags: BTreeMap<String, String>,
}

impl Default for WithEmptyMap {
    fn default() -> Self {
        Self {
            tags: BTreeMap::new(),
        }
    }
}

impl TomlComment for WithEmptyMap {
    fn descriptor() -> TypeDescriptor {
        describe(&[], vec![field("tags", sorted_string_map(), &[" Tags for the resource"])])
    }

    fn to_value(&self) -> Value {
        table(vec![("tags", sorted_table(self.tags.iter(), |v| text(v)))])
    }
}

#[test]
fn empty_map_no_output() {
    let toml = WithEmptyMap::default_toml().unwrap();
    assert_eq!(toml, "");
}

struct EnumAndMap {
    mode: LogLevel,
    labels: BTreeMap<String, String>,
}

impl Default for EnumAndMap {
    fn default() -> Self {
        let mut labels = BTreeMap::new();
        labels.insert("env".to_string(), "prod".to_string());
        Self {
            mode: LogLevel::Debug,
            labels,
        }
    }
}

impl TomlComment for EnumAndMap {
    fn descriptor() -> TypeDescriptor {
        describe(
            &[],
            vec![
                inline_field("mode", named("LogLevel"), &[]),
                field("labels", sorted_string_map(), &[]),
            ],
        )
    }

    fn to_value(&self) -> Value {
        table(vec![
            ("mode", self.mode.to_value()),
            ("labels", sorted_table(self.labels.iter(), |v| text(v))),
        ])
    }
}

#[test]
fn enum_and_map_combined() {
    let toml = EnumAndMap::default_toml().unwrap();
    let expected = "\
mode = \"Debug\"
env = \"prod\"
";
    assert_eq!(toml, expected);
}
