//! The configuration of the server: where the files are, which file stands
//! for a directory, and where to listen.

use crate::config::document::{
    document_entries, lookup, parse_document, table_entries, table_get, table_values,
    value_as_str, value_as_table, value_item, Item,
};
use vstd::prelude::*;

verus! {

/// Why a document is no configuration.
#[derive(Clone, Copy, Debug, PartialEq, Eq, Structural)]
pub enum ConfigError {
    /// The text is not a TOML document.
    InvalidDocument,
    /// There is no table `http`.
    MissingHttpSection,
    /// The table `http` has no key `root_path`.
    MissingRootPath,
    /// `http.root_path` is not a string.
    InvalidRootPath,
    /// `http.index` is not a string.
    InvalidIndex,
    /// There is no table `vhosts`.
    MissingVhostsSection,
    /// An entry of `vhosts` is no table with a key `hostname`.
    MissingHostname,
    /// The `hostname` of an entry of `vhosts` is not a string.
    InvalidHostname,
}

/// One virtual host.
#[derive(Debug)]
pub struct VhostConfig {
    pub hostname: String,
}

impl View for VhostConfig {
    type V = Seq<char>;

    open spec fn view(&self) -> Seq<char> {
        self.hostname@
    }
}

/// The configuration. It is made once, when the server starts, and only
/// read after that.
#[derive(Debug)]
pub struct HttpConfig {
    root_path: String,
    index: String,
    port: String,
    vhosts: Vec<VhostConfig>,
}

/// A configuration as a mathematical value.
pub struct ConfigView {
    pub root_path: Seq<char>,
    pub index: Seq<char>,
    pub port: Seq<char>,
    pub vhosts: Seq<Seq<char>>,
}

impl View for HttpConfig {
    type V = ConfigView;

    closed spec fn view(&self) -> ConfigView {
        ConfigView {
            root_path: self.root_path@,
            index: self.index@,
            port: self.port@,
            vhosts: self.vhosts@.map_values(|v: VhostConfig| v@),
        }
    }
}

/// The file that stands for a directory where the document names none.
pub open spec fn default_index() -> Seq<char> {
    "index.html"@
}

/// The port to listen on where the document names none.
pub open spec fn default_port() -> Seq<char> {
    "8000"@
}

/// The address to listen on where none is asked for.
pub open spec fn default_ip_address() -> Seq<char> {
    "0.0.0.0"@
}

/// What a document holds under one key, as far as the configuration reads
/// it: nothing, a string, or a value of another kind.
#[derive(Debug)]
pub enum Setting {
    Absent,
    Text(String),
    Other,
}

/// A setting as a mathematical value.
pub enum SettingView {
    Absent,
    Text(Seq<char>),
    Other,
}

impl View for Setting {
    type V = SettingView;

    open spec fn view(&self) -> SettingView {
        match self {
            Setting::Absent => SettingView::Absent,
            Setting::Text(text) => SettingView::Text(text@),
            Setting::Other => SettingView::Other,
        }
    }
}

/// The settings of the table `http`.
#[derive(Debug)]
pub struct HttpSection {
    pub root_path: Setting,
    pub index: Setting,
    pub port: Setting,
}

/// The settings of the table `http`, as a mathematical value.
pub struct HttpSectionView {
    pub root_path: SettingView,
    pub index: SettingView,
    pub port: SettingView,
}

impl View for HttpSection {
    type V = HttpSectionView;

    open spec fn view(&self) -> HttpSectionView {
        HttpSectionView { root_path: self.root_path@, index: self.index@, port: self.port@ }
    }
}

/// What the configuration reads of a document: the table `http`, if there
/// is one, and the `hostname` of each entry of the table `vhosts`, if there
/// is one, in the order of the entries.
#[derive(Debug)]
pub struct ConfigDocument {
    pub http: Option<HttpSection>,
    pub vhosts: Option<Vec<Setting>>,
}

/// What the configuration reads of a document, as a mathematical value.
pub struct ConfigDocumentView {
    pub http: Option<HttpSectionView>,
    pub vhosts: Option<Seq<SettingView>>,
}

impl View for ConfigDocument {
    type V = ConfigDocumentView;

    open spec fn view(&self) -> ConfigDocumentView {
        ConfigDocumentView {
            http: match self.http {
                Some(http) => Some(http@),
                None => None,
            },
            vhosts: match self.vhosts {
                Some(vhosts) => Some(vhosts@.map_values(|hostname: Setting| hostname@)),
                None => None,
            },
        }
    }
}

/// The host names of the virtual hosts, or the error of the first entry
/// that has none: an entry must have a `hostname`, and it must be a string.
pub open spec fn hostnames_of(vhosts: Seq<SettingView>) -> Result<Seq<Seq<char>>, ConfigError>
    decreases vhosts.len(),
{
    if vhosts.len() == 0 {
        Ok(Seq::empty())
    } else {
        match hostnames_of(vhosts.drop_last()) {
            Err(e) => Err(e),
            Ok(names) => match vhosts.last() {
                SettingView::Text(name) => Ok(names.push(name)),
                SettingView::Other => Err(ConfigError::InvalidHostname),
                SettingView::Absent => Err(ConfigError::MissingHostname),
            },
        }
    }
}

/// The configuration that a document describes.
///
/// The table `http` gives `root_path`, which must be there and be a string,
/// `index` (`index.html` where absent; it must be a string) and `port`
/// (`8000` where absent or not a string). The table `vhosts` must be there.
/// Of several faults the one that is named first here is reported, but that
/// a `root_path` of the wrong kind is reported last of all.
pub open spec fn config_of(document: ConfigDocumentView) -> Result<ConfigView, ConfigError> {
    match document.http {
        None => Err(ConfigError::MissingHttpSection),
        Some(http) => if http.root_path is Absent {
            Err(ConfigError::MissingRootPath)
        } else if http.index is Other {
            Err(ConfigError::InvalidIndex)
        } else {
            match document.vhosts {
                None => Err(ConfigError::MissingVhostsSection),
                Some(vhosts) => match hostnames_of(vhosts) {
                    Err(e) => Err(e),
                    Ok(names) => match http.root_path {
                        SettingView::Text(root_path) => Ok(
                            ConfigView {
                                root_path,
                                index: match http.index {
                                    SettingView::Text(index) => index,
                                    _ => default_index(),
                                },
                                port: match http.port {
                                    SettingView::Text(port) => port,
                                    _ => default_port(),
                                },
                                vhosts: names,
                            },
                        ),
                        _ => Err(ConfigError::InvalidRootPath),
                    },
                },
            }
        },
    }
}

/// The setting that a table holds under a key.
pub open spec fn setting_of(item: Option<Item>) -> SettingView {
    match item {
        None => SettingView::Absent,
        Some(Item::Text(text)) => SettingView::Text(text),
        Some(_) => SettingView::Other,
    }
}

/// The table stored under `key`, if a table is stored there.
pub open spec fn section(entries: Seq<(Seq<char>, Item)>, key: Seq<char>) -> Option<
    Seq<(Seq<char>, Item)>,
> {
    match lookup(entries, key) {
        Some(Item::Table(inner)) => Some(inner),
        _ => None,
    }
}

/// The `hostname` of one entry of `vhosts`; an entry that is no table has
/// none.
pub open spec fn hostname_of(vhost: Item) -> SettingView {
    match vhost {
        Item::Table(inner) => setting_of(lookup(inner, "hostname"@)),
        _ => SettingView::Absent,
    }
}

/// What the configuration reads of the top-level entries of a document.
pub open spec fn document_of(entries: Seq<(Seq<char>, Item)>) -> ConfigDocumentView {
    ConfigDocumentView {
        http: match section(entries, "http"@) {
            Some(http) => Some(
                HttpSectionView {
                    root_path: setting_of(lookup(http, "root_path"@)),
                    index: setting_of(lookup(http, "index"@)),
                    port: setting_of(lookup(http, "port"@)),
                },
            ),
            None => None,
        },
        vhosts: match section(entries, "vhosts"@) {
            Some(vhosts) => Some(
                Seq::new(vhosts.len(), |i: int| hostname_of(vhosts[i].1)),
            ),
            None => None,
        },
    }
}

/// The configuration that a TOML text describes.
pub open spec fn config_of_text(document: Option<Seq<(Seq<char>, Item)>>) -> Result<
    ConfigView,
    ConfigError,
> {
    match document {
        None => Err(ConfigError::InvalidDocument),
        Some(entries) => config_of(document_of(entries)),
    }
}

impl ConfigError {
    /// The sentence that reports this error.
    pub open spec fn text(self) -> Seq<char> {
        match self {
            ConfigError::InvalidDocument => "Configuration file is not valid TOML."@,
            ConfigError::MissingHttpSection => "Couldn't find section 'http' in configuration file."@,
            ConfigError::MissingRootPath => "Root path must be set in config file."@,
            ConfigError::InvalidRootPath => "Root path must be a string."@,
            ConfigError::InvalidIndex => "Index must be a string."@,
            ConfigError::MissingVhostsSection => "Couldn't find a 'vhosts' section in config file"@,
            ConfigError::MissingHostname => "Couldn't find a hostname in vhost definition"@,
            ConfigError::InvalidHostname => "Hostname must be a string."@,
        }
    }

    /// The sentence that reports this error.
    pub fn message(&self) -> (r: String)
        ensures
            r@ == self.text(),
    {
        match self {
            ConfigError::InvalidDocument => "Configuration file is not valid TOML.".to_owned(),
            ConfigError::MissingHttpSection => "Couldn't find section 'http' in configuration file.".to_owned(),
            ConfigError::MissingRootPath => "Root path must be set in config file.".to_owned(),
            ConfigError::InvalidRootPath => "Root path must be a string.".to_owned(),
            ConfigError::InvalidIndex => "Index must be a string.".to_owned(),
            ConfigError::MissingVhostsSection => "Couldn't find a 'vhosts' section in config file".to_owned(),
            ConfigError::MissingHostname => "Couldn't find a hostname in vhost definition".to_owned(),
            ConfigError::InvalidHostname => "Hostname must be a string.".to_owned(),
        }
    }
}

/// The table stored under `key` of `table`, if a table is stored there.
fn get_section<'a>(table: &'a toml::Table, key: &str) -> (r: Option<&'a toml::Table>)
    ensures
        match r {
            Some(inner) => section(table_entries(*table), key@) == Some(table_entries(*inner)),
            None => section(table_entries(*table), key@) is None,
        },
{
    match table_get(table, key) {
        Some(value) => value_as_table(value),
        None => None,
    }
}

/// The setting that `table` holds under `key`.
fn read_setting(table: &toml::Table, key: &str) -> (r: Setting)
    ensures
        r@ == setting_of(lookup(table_entries(*table), key@)),
{
    match table_get(table, key) {
        None => Setting::Absent,
        Some(value) => match value_as_str(value) {
            Some(text) => Setting::Text(text.to_owned()),
            None => Setting::Other,
        },
    }
}

/// The `hostname` of each entry of the table `vhosts`.
fn read_hostnames(vhosts_sec: &toml::Table) -> (r: Vec<Setting>)
    ensures
        r@.map_values(|hostname: Setting| hostname@) == Seq::new(
            table_entries(*vhosts_sec).len(),
            |i: int| hostname_of(table_entries(*vhosts_sec)[i].1),
        ),
{
    let entries = table_values(vhosts_sec);
    let ghost listed = table_entries(*vhosts_sec);
    let mut hostnames: Vec<Setting> = Vec::new();
    let mut k: usize = 0;
    while k < entries.len()
        invariant
            k <= entries.len() == listed.len(),
            listed == table_entries(*vhosts_sec),
            forall|i: int|
                0 <= i < entries@.len() ==> value_item(*#[trigger] entries@[i]) == listed[i].1,
            hostnames@.map_values(|hostname: Setting| hostname@) == Seq::new(
                k as nat,
                |i: int| hostname_of(listed[i].1),
            ),
        decreases entries.len() - k,
    {
        let hostname = match value_as_table(entries[k]) {
            Some(vhost) => read_setting(vhost, "hostname"),
            None => Setting::Absent,
        };
        assert(hostnames@.push(hostname).map_values(|hostname: Setting| hostname@)
            == hostnames@.map_values(|hostname: Setting| hostname@).push(hostname@));
        hostnames.push(hostname);
        k += 1;
        assert(hostnames@.map_values(|hostname: Setting| hostname@) == Seq::new(
            k as nat,
            |i: int| hostname_of(listed[i].1),
        ));
    }
    hostnames
}

impl ConfigDocument {
    /// Reads off the top-level table of a document what the configuration
    /// needs of it.
    pub fn read(conf: &toml::Table) -> (r: ConfigDocument)
        ensures
            r@ == document_of(table_entries(*conf)),
    {
        let http = match get_section(conf, "http") {
            Some(http_sec) => Some(
                HttpSection {
                    root_path: read_setting(http_sec, "root_path"),
                    index: read_setting(http_sec, "index"),
                    port: read_setting(http_sec, "port"),
                },
            ),
            None => None,
        };
        let vhosts = match get_section(conf, "vhosts") {
            Some(vhosts_sec) => Some(read_hostnames(vhosts_sec)),
            None => None,
        };
        ConfigDocument { http, vhosts }
    }
}

/// The virtual hosts with the given host names.
fn vhosts_of(hostnames: &Vec<Setting>) -> (r: Result<Vec<VhostConfig>, ConfigError>)
    ensures
        match hostnames_of(hostnames@.map_values(|hostname: Setting| hostname@)) {
            Ok(names) => r matches Ok(vhosts) && vhosts@.map_values(|v: VhostConfig| v@) == names,
            Err(e) => r matches Err(error) && error == e,
        },
{
    let ghost listed = hostnames@.map_values(|hostname: Setting| hostname@);
    let mut vhosts: Vec<VhostConfig> = Vec::new();
    let mut k: usize = 0;
    assert(listed.take(0) == Seq::<SettingView>::empty());
    assert(vhosts@.map_values(|v: VhostConfig| v@) == Seq::<Seq<char>>::empty());
    while k < hostnames.len()
        invariant
            k <= hostnames.len(),
            listed == hostnames@.map_values(|hostname: Setting| hostname@),
            hostnames_of(listed.take(k as int)) == Ok::<Seq<Seq<char>>, ConfigError>(
                vhosts@.map_values(|v: VhostConfig| v@),
            ),
        decreases hostnames.len() - k,
    {
        let ghost next = listed.take(k + 1);
        assert(next.drop_last() == listed.take(k as int));
        assert(next.last() == hostnames@[k as int]@);
        match &hostnames[k] {
            Setting::Text(name) => {
                let vhost = VhostConfig { hostname: name.clone() };
                assert(vhosts@.push(vhost).map_values(|v: VhostConfig| v@) == vhosts@.map_values(
                    |v: VhostConfig| v@,
                ).push(vhost@));
                vhosts.push(vhost);
            },
            Setting::Other => {
                proof {
                    lemma_hostnames_error(listed, k + 1);
                }
                return Err(ConfigError::InvalidHostname);
            },
            Setting::Absent => {
                proof {
                    lemma_hostnames_error(listed, k + 1);
                }
                return Err(ConfigError::MissingHostname);
            },
        }
        k += 1;
    }
    assert(listed.take(k as int) == listed);
    Ok(vhosts)
}

impl HttpConfig {
    /// Reads the configuration from the text of a TOML document.
    pub fn new_from_toml(content: &str) -> (r: Result<HttpConfig, ConfigError>)
        ensures
            match config_of_text(document_entries(content@)) {
                Ok(config) => r matches Ok(read) && read@ == config,
                Err(e) => r matches Err(error) && error == e,
            },
    {
        match parse_document(content) {
            Ok(table) => HttpConfig::new_from_table(&table),
            Err(_) => Err(ConfigError::InvalidDocument),
        }
    }

    /// Reads the configuration from the top-level table of a document.
    pub fn new_from_table(conf: &toml::Table) -> (r: Result<HttpConfig, ConfigError>)
        ensures
            match config_of(document_of(table_entries(*conf))) {
                Ok(config) => r matches Ok(read) && read@ == config,
                Err(e) => r matches Err(error) && error == e,
            },
    {
        HttpConfig::new_from_document(ConfigDocument::read(conf))
    }

    /// The configuration that a document describes.
    pub fn new_from_document(document: ConfigDocument) -> (r: Result<HttpConfig, ConfigError>)
        ensures
            match config_of(document@) {
                Ok(config) => r matches Ok(read) && read@ == config,
                Err(e) => r matches Err(error) && error == e,
            },
    {
        let http_sec = match document.http {
            Some(http_sec) => http_sec,
            None => {
                return Err(ConfigError::MissingHttpSection);
            },
        };
        if let Setting::Absent = http_sec.root_path {
            return Err(ConfigError::MissingRootPath);
        }
        let index = match http_sec.index {
            Setting::Text(index) => index,
            Setting::Absent => "index.html".to_owned(),
            Setting::Other => {
                return Err(ConfigError::InvalidIndex);
            },
        };
        let port = match http_sec.port {
            Setting::Text(port) => port,
            _ => "8000".to_owned(),
        };
        let hostnames = match document.vhosts {
            Some(hostnames) => hostnames,
            None => {
                return Err(ConfigError::MissingVhostsSection);
            },
        };
        let vhosts = match vhosts_of(&hostnames) {
            Ok(vhosts) => vhosts,
            Err(e) => {
                return Err(e);
            },
        };
        match http_sec.root_path {
            Setting::Text(root_path) => Ok(HttpConfig { root_path, index, port, vhosts }),
            _ => Err(ConfigError::InvalidRootPath),
        }
    }

    /// The configuration of a server that is started without a document:
    /// it serves `root_path`, with `index.html` for a directory, on port
    /// 8000, and knows no virtual hosts.
    pub fn new_defaults(root_path: String) -> (r: Option<HttpConfig>)
        ensures
            r matches Some(config) && config@ == (ConfigView {
                root_path: root_path@,
                index: default_index(),
                port: default_port(),
                vhosts: Seq::empty(),
            }),
    {
        let vhosts: Vec<VhostConfig> = Vec::new();
        assert(vhosts@.map_values(|v: VhostConfig| v@) == Seq::<Seq<char>>::empty());
        Some(
            HttpConfig {
                root_path,
                index: "index.html".to_owned(),
                port: "8000".to_owned(),
                vhosts,
            },
        )
    }

    /// The directory below which the files are.
    pub fn get_root_path(&self) -> (r: Box<&str>)
        ensures
            (*r)@ == self@.root_path,
    {
        Box::new(self.root_path.as_str())
    }

    /// The name of the file that stands for a directory.
    pub fn get_index(&self) -> (r: Box<&String>)
        ensures
            (*r)@ == self@.index,
    {
        Box::new(&self.index)
    }

    /// The port to listen on.
    pub fn get_port(&self) -> (r: Box<&String>)
        ensures
            (*r)@ == self@.port,
    {
        Box::new(&self.port)
    }

    /// The host names of the virtual hosts, in the order of the document.
    pub fn get_vhosts(&self) -> (r: &Vec<VhostConfig>)
        ensures
            r@.map_values(|v: VhostConfig| v@) == self@.vhosts,
    {
        &self.vhosts
    }

    /// The address to listen on, as `<ip-address>:<port>`. An address that
    /// is asked for replaces `0.0.0.0`, and a port that is asked for
    /// replaces the port of the configuration.
    pub fn listen_address(&self, ip_address: Option<String>, port: Option<String>) -> (r: String)
        ensures
            r@ == (match ip_address {
                Some(ip) => ip@,
                None => default_ip_address(),
            }) + ":"@ + (match port {
                Some(port) => port@,
                None => self@.port,
            }),
    {
        let mut address = match ip_address {
            Some(ip) => ip,
            None => "0.0.0.0".to_owned(),
        };
        address.append(":");
        match port {
            Some(port) => address.append(port.as_str()),
            None => address.append(self.port.as_str()),
        }
        address
    }
}

/// Once the first entries have no host names, the whole list has none,
/// for the same reason.
proof fn lemma_hostnames_error(vhosts: Seq<SettingView>, k: int)
    requires
        0 <= k <= vhosts.len(),
        hostnames_of(vhosts.take(k)) is Err,
    ensures
        hostnames_of(vhosts) == hostnames_of(vhosts.take(k)),
    decreases vhosts.len() - k,
{
    if k == vhosts.len() {
        assert(vhosts.take(k) == vhosts);
    } else {
        assert(vhosts.take(k + 1).drop_last() == vhosts.take(k));
        lemma_hostnames_error(vhosts, k + 1);
    }
}

} // verus!
