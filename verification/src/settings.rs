//! The launcher's settings: the record itself, where its file lives, and the
//! document that is written when the file does not exist yet.

use vstd::prelude::*;

verus! {

/// One known database instance and the port that is offered for it.
#[derive(Debug, Clone, PartialEq, Eq)]
pub struct ConnectionConfig {
    pub instance: String,
    pub port: String,
}

/// What a [`ConnectionConfig`] holds, as plain sequences of characters.
pub struct ConnectionConfigView {
    pub instance: Seq<char>,
    pub port: Seq<char>,
}

impl View for ConnectionConfig {
    type V = ConnectionConfigView;

    open spec fn view(&self) -> ConnectionConfigView {
        ConnectionConfigView { instance: self.instance@, port: self.port@ }
    }
}

impl ConnectionConfig {
    /// Builds an entry from its two texts.
    pub fn new(instance: String, port: String) -> (entry: ConnectionConfig)
        ensures
            entry@.instance == instance@,
            entry@.port == port@,
    {
        ConnectionConfig { instance, port }
    }

    /// A second entry with the same instance and port.
    pub fn duplicate(&self) -> (copy: ConnectionConfig)
        ensures
            copy@ == self@,
    {
        ConnectionConfig { instance: self.instance.clone(), port: self.port.clone() }
    }
}

/// The views of a list of entries, in the list's order.
pub open spec fn entries_view(entries: Seq<ConnectionConfig>) -> Seq<ConnectionConfigView> {
    entries.map_values(|c: ConnectionConfig| c@)
}

/// The whole settings file: the proxy executable and the known instances.
/// The list may be empty and may name an instance twice.
#[derive(Debug, PartialEq, Eq)]
pub struct StartProxConfig {
    pub proxy_exec_path: String,
    pub defaults: Vec<ConnectionConfig>,
}

/// What a [`StartProxConfig`] holds, as plain values.
pub struct StartProxConfigView {
    pub proxy_exec_path: Seq<char>,
    pub defaults: Seq<ConnectionConfigView>,
}

impl View for StartProxConfig {
    type V = StartProxConfigView;

    open spec fn view(&self) -> StartProxConfigView {
        StartProxConfigView {
            proxy_exec_path: self.proxy_exec_path@,
            defaults: entries_view(self.defaults@),
        }
    }
}

impl StartProxConfig {
    /// Builds the settings from the executable's path and the entries, kept in
    /// their order and number.
    pub fn new(proxy_exec_path: String, defaults: Vec<ConnectionConfig>) -> (config: StartProxConfig)
        ensures
            config@.proxy_exec_path == proxy_exec_path@,
            config@.defaults == entries_view(defaults@),
            config@.defaults.len() == defaults@.len(),
    {
        StartProxConfig { proxy_exec_path, defaults }
    }
}

/// Why no settings could be had.
#[derive(Debug, PartialEq, Eq)]
pub enum MyConfigError {
    FailedToCreateFile,
    ConfigFileNotFound,
    HomeDirectoryNotFound,
    /// The file was read but is not a settings document; holds the parser's diagnostics.
    ParseConfigError(String),
}

/// The text by which an error is reported.
pub open spec fn error_text(error: MyConfigError) -> Seq<char> {
    match error {
        MyConfigError::FailedToCreateFile => "FailedToCreateFile"@,
        MyConfigError::ConfigFileNotFound => "ConfigFileNotFound"@,
        MyConfigError::HomeDirectoryNotFound => "HomeDirectoryNotFound"@,
        MyConfigError::ParseConfigError(detail) => "ParseConfigError("@ + detail@ + ")"@,
    }
}

impl MyConfigError {
    /// The variant's name, followed for a parse error by the diagnostics in brackets.
    pub fn describe(&self) -> (text: String)
        ensures
            text@ == error_text(*self),
    {
        match self {
            MyConfigError::FailedToCreateFile => "FailedToCreateFile".to_owned(),
            MyConfigError::ConfigFileNotFound => "ConfigFileNotFound".to_owned(),
            MyConfigError::HomeDirectoryNotFound => "HomeDirectoryNotFound".to_owned(),
            MyConfigError::ParseConfigError(detail) => {
                "ParseConfigError(".to_owned().concat(detail.as_str()).concat(")")
            },
        }
    }
}

/// The settings file's place below a home directory.
pub open spec fn config_path_of(home: Seq<char>) -> Seq<char> {
    home + "/.config/startprox/config.yml"@
}

/// The path of the settings file for the user whose home directory is `home`.
pub fn config_path(home: &str) -> (path: String)
    ensures
        path@ == config_path_of(home@),
{
    home.to_owned().concat("/.config/startprox/config.yml")
}

/// The document that a first run writes: a placeholder for the proxy's path
/// and one example entry.
pub open spec fn default_config_text() -> Seq<char> {
    "\nproxy_exec_path: cloud-sql-proxy # put path to cloud-sql-proxy here\n\ndefaults:\n - instance: project_id:region_id:instance_id\n   port: 5432 # you can set a default port to connect to\n"@
}

/// The content of a freshly generated settings file. It depends on nothing, so
/// every generation gives the same bytes.
pub fn default_config_contents() -> (text: &'static str)
    ensures
        text@ == default_config_text(),
{
    "\nproxy_exec_path: cloud-sql-proxy # put path to cloud-sql-proxy here\n\ndefaults:\n - instance: project_id:region_id:instance_id\n   port: 5432 # you can set a default port to connect to\n"
}

} // verus!
