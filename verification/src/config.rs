//! The agent's static configuration: its fields, its defaults, and the
//! normalization applied once when a document is loaded.

use crate::consts::DEFAULT_LOG_FILE;
use crate::text::{clone_strings, opt_text, str_eq, texts};
use crate::trident::RunningMode;
use vstd::prelude::*;

verus! {

/// How an agent identifies itself to the controller.
#[derive(Clone, Copy, Debug, PartialEq, Eq, Structural)]
pub enum AgentIdType {
    IpMac,
    Ip,
}

impl Default for AgentIdType {
    fn default() -> (r: Self)
        ensures
            r == AgentIdType::IpMac,
    {
        AgentIdType::IpMac
    }
}

impl AgentIdType {
    /// The identifier mode that a document's text names, if it names one.
    pub open spec fn from_name_spec(name: Seq<char>) -> Option<AgentIdType> {
        if name == "ip-and-mac"@ || name == "ip_and_mac"@ {
            Some(AgentIdType::IpMac)
        } else if name == "ip"@ {
            Some(AgentIdType::Ip)
        } else {
            None
        }
    }

    /// Reads an identifier mode from the text used in configuration
    /// documents: `ip`, `ip-and-mac` or `ip_and_mac`. Any other text names no
    /// mode.
    pub fn from_name(name: &str) -> (r: Option<AgentIdType>)
        ensures
            r == Self::from_name_spec(name@),
    {
        if str_eq(name, "ip-and-mac") || str_eq(name, "ip_and_mac") {
            Some(AgentIdType::IpMac)
        } else if str_eq(name, "ip") {
            Some(AgentIdType::Ip)
        } else {
            None
        }
    }
}

/// Why a configuration could not be produced.
#[derive(Clone, Debug, PartialEq, Eq)]
pub enum ConfigError {
    ControllerIpsEmpty,
    ControllerIpsInvalid,
    RuntimeConfigInvalid(String),
    YamlConfigInvalid(String),
}

/// A `ConfigError` with its texts as character sequences.
pub enum ConfigErrorView {
    ControllerIpsEmpty,
    ControllerIpsInvalid,
    RuntimeConfigInvalid(Seq<char>),
    YamlConfigInvalid(Seq<char>),
}

impl View for ConfigError {
    type V = ConfigErrorView;

    open spec fn view(&self) -> ConfigErrorView {
        match self {
            ConfigError::ControllerIpsEmpty => ConfigErrorView::ControllerIpsEmpty,
            ConfigError::ControllerIpsInvalid => ConfigErrorView::ControllerIpsInvalid,
            ConfigError::RuntimeConfigInvalid(detail) => ConfigErrorView::RuntimeConfigInvalid(
                detail@,
            ),
            ConfigError::YamlConfigInvalid(detail) => ConfigErrorView::YamlConfigInvalid(detail@),
        }
    }
}

impl ConfigErrorView {
    /// The message shown for the error.
    pub open spec fn message(self) -> Seq<char> {
        match self {
            ConfigErrorView::ControllerIpsEmpty => "controller-ips is empty"@,
            ConfigErrorView::ControllerIpsInvalid => "controller-ips invalid"@,
            ConfigErrorView::RuntimeConfigInvalid(detail) => "runtime config invalid: "@ + detail,
            ConfigErrorView::YamlConfigInvalid(detail) => "yaml config invalid: "@ + detail,
        }
    }
}

impl ConfigError {
    /// The message shown for the error.
    pub fn to_string(&self) -> (r: String)
        ensures
            r@ == self@.message(),
    {
        match self {
            ConfigError::ControllerIpsEmpty => "controller-ips is empty".to_owned(),
            ConfigError::ControllerIpsInvalid => "controller-ips invalid".to_owned(),
            ConfigError::RuntimeConfigInvalid(detail) => {
                "runtime config invalid: ".to_owned().concat(detail.as_str())
            },
            ConfigError::YamlConfigInvalid(detail) => {
                "yaml config invalid: ".to_owned().concat(detail.as_str())
            },
        }
    }

    /// A copy of the error.
    pub fn duplicate(&self) -> (r: ConfigError)
        ensures
            r@ == self@,
    {
        match self {
            ConfigError::ControllerIpsEmpty => ConfigError::ControllerIpsEmpty,
            ConfigError::ControllerIpsInvalid => ConfigError::ControllerIpsInvalid,
            ConfigError::RuntimeConfigInvalid(detail) => ConfigError::RuntimeConfigInvalid(
                detail.clone(),
            ),
            ConfigError::YamlConfigInvalid(detail) => ConfigError::YamlConfigInvalid(
                detail.clone(),
            ),
        }
    }
}

/// The static configuration of the agent. Built once at startup and read-only
/// afterwards.
#[derive(Clone, Debug, PartialEq)]
pub struct Config {
    pub controller_ips: Vec<String>,
    pub controller_port: u16,
    pub controller_tls_port: u16,
    pub controller_cert_file_prefix: String,
    pub log_file: String,
    pub kubernetes_cluster_id: String,
    pub kubernetes_cluster_name: Option<String>,
    pub vtap_group_id_request: String,
    pub controller_domain_name: Vec<String>,
    pub agent_mode: RunningMode,
    pub override_os_hostname: Option<String>,
    pub async_worker_thread_number: u16,
    pub agent_unique_identifier: AgentIdType,
    pub pid_file: String,
    pub team_id: String,
    pub cgroups_disabled: bool,
}

/// A `Config` with its texts as character sequences.
pub struct ConfigView {
    pub controller_ips: Seq<Seq<char>>,
    pub controller_port: u16,
    pub controller_tls_port: u16,
    pub controller_cert_file_prefix: Seq<char>,
    pub log_file: Seq<char>,
    pub kubernetes_cluster_id: Seq<char>,
    pub kubernetes_cluster_name: Option<Seq<char>>,
    pub vtap_group_id_request: Seq<char>,
    pub controller_domain_name: Seq<Seq<char>>,
    pub agent_mode: RunningMode,
    pub override_os_hostname: Option<Seq<char>>,
    pub async_worker_thread_number: u16,
    pub agent_unique_identifier: AgentIdType,
    pub pid_file: Seq<char>,
    pub team_id: Seq<char>,
    pub cgroups_disabled: bool,
}

impl View for Config {
    type V = ConfigView;

    open spec fn view(&self) -> ConfigView {
        ConfigView {
            controller_ips: texts(self.controller_ips@),
            controller_port: self.controller_port,
            controller_tls_port: self.controller_tls_port,
            controller_cert_file_prefix: self.controller_cert_file_prefix@,
            log_file: self.log_file@,
            kubernetes_cluster_id: self.kubernetes_cluster_id@,
            kubernetes_cluster_name: opt_text(self.kubernetes_cluster_name),
            vtap_group_id_request: self.vtap_group_id_request@,
            controller_domain_name: texts(self.controller_domain_name@),
            agent_mode: self.agent_mode,
            override_os_hostname: opt_text(self.override_os_hostname),
            async_worker_thread_number: self.async_worker_thread_number,
            agent_unique_identifier: self.agent_unique_identifier,
            pid_file: self.pid_file@,
            team_id: self.team_id@,
            cgroups_disabled: self.cgroups_disabled,
        }
    }
}

/// The configuration used when a document sets nothing.
pub open spec fn default_config() -> ConfigView {
    ConfigView {
        controller_ips: Seq::empty(),
        controller_port: 30035,
        controller_tls_port: 30135,
        controller_cert_file_prefix: Seq::empty(),
        log_file: DEFAULT_LOG_FILE@,
        kubernetes_cluster_id: Seq::empty(),
        kubernetes_cluster_name: None,
        vtap_group_id_request: Seq::empty(),
        controller_domain_name: Seq::empty(),
        agent_mode: RunningMode::Managed,
        override_os_hostname: None,
        async_worker_thread_number: 16,
        agent_unique_identifier: AgentIdType::IpMac,
        pid_file: Seq::empty(),
        team_id: Seq::empty(),
        cgroups_disabled: false,
    }
}

impl Default for Config {
    fn default() -> (r: Self)
        ensures
            r@ == default_config(),
    {
        let r = Config {
            controller_ips: Vec::new(),
            controller_port: 30035,
            controller_tls_port: 30135,
            controller_cert_file_prefix: String::new(),
            log_file: DEFAULT_LOG_FILE.to_owned(),
            kubernetes_cluster_id: String::new(),
            kubernetes_cluster_name: None,
            vtap_group_id_request: String::new(),
            controller_domain_name: Vec::new(),
            agent_mode: RunningMode::default(),
            override_os_hostname: None,
            async_worker_thread_number: 16,
            agent_unique_identifier: AgentIdType::default(),
            pid_file: String::new(),
            team_id: String::new(),
            cgroups_disabled: false,
        };
        assert(r@.controller_ips =~= Seq::empty());
        assert(r@.controller_domain_name =~= Seq::empty());
        r
    }
}

/// What the host learned about one controller address.
#[derive(Clone, Debug, PartialEq, Eq)]
pub enum Lookup {
    /// The address is written as an IP address already.
    Literal,
    /// The address is a name, and resolves to the IP address given.
    Resolved(String),
    /// The address is a name that does not resolve.
    Unresolvable,
}

/// A `Lookup` with its text as a character sequence.
pub enum LookupView {
    Literal,
    Resolved(Seq<char>),
    Unresolvable,
}

impl View for Lookup {
    type V = LookupView;

    open spec fn view(&self) -> LookupView {
        match self {
            Lookup::Literal => LookupView::Literal,
            Lookup::Resolved(ip) => LookupView::Resolved(ip@),
            Lookup::Unresolvable => LookupView::Unresolvable,
        }
    }
}

/// The lookups of a list, as views.
pub open spec fn lookup_views(v: Seq<Lookup>) -> Seq<LookupView> {
    Seq::new(v.len(), |i: int| v[i]@)
}

/// The process's working directory, as the host found it.
#[derive(Clone, Debug, PartialEq, Eq)]
pub enum WorkingDir {
    /// The directory's path.
    Known(String),
    /// The directory could not be obtained.
    Unavailable,
    /// The directory's path cannot be written as text.
    NotText,
}

/// A `WorkingDir` with its path as a character sequence.
pub enum WorkingDirView {
    Known(Seq<char>),
    Unavailable,
    NotText,
}

impl View for WorkingDir {
    type V = WorkingDirView;

    open spec fn view(&self) -> WorkingDirView {
        match self {
            WorkingDir::Known(path) => WorkingDirView::Known(path@),
            WorkingDir::Unavailable => WorkingDirView::Unavailable,
            WorkingDir::NotText => WorkingDirView::NotText,
        }
    }
}

impl WorkingDirView {
    /// A working directory that is known is an absolute path.
    pub open spec fn is_absolute(self) -> bool {
        self matches WorkingDirView::Known(path) ==> !is_relative_path(path)
    }
}

/// A path is relative unless it starts at the root.
pub open spec fn is_relative_path(path: Seq<char>) -> bool {
    path.len() == 0 || path[0] != '/'
}

/// The relative path `rel` as seen from the directory `base`: the two joined
/// by one separator, unless `base` is empty or ends in one.
pub open spec fn join_path(base: Seq<char>, rel: Seq<char>) -> Seq<char> {
    if base.len() > 0 && base.last() != '/' {
        base + seq!['/'] + rel
    } else {
        base + rel
    }
}

/// The lookup for the address at `i`. An address without a lookup counts as
/// one that does not resolve.
pub open spec fn lookup_at(lookups: Seq<LookupView>, i: int) -> LookupView {
    if 0 <= i < lookups.len() {
        lookups[i]
    } else {
        LookupView::Unresolvable
    }
}

/// Whether each of the first `n` addresses is an IP address or resolves to
/// one.
pub open spec fn all_resolvable(n: int, lookups: Seq<LookupView>) -> bool {
    forall|i: int| 0 <= i < n ==> !(#[trigger] lookup_at(lookups, i) is Unresolvable)
}

/// The address list after resolution: each name replaced by the IP address
/// it resolves to, each literal address kept.
pub open spec fn resolved_ips(ips: Seq<Seq<char>>, lookups: Seq<LookupView>) -> Seq<Seq<char>> {
    Seq::new(
        ips.len(),
        |i: int|
            match lookup_at(lookups, i) {
                LookupView::Resolved(ip) => ip,
                _ => ips[i],
            },
    )
}

/// The names among the addresses that were replaced by an IP address, in the
/// order of the address list.
pub open spec fn resolved_names(ips: Seq<Seq<char>>, lookups: Seq<LookupView>) -> Seq<Seq<char>>
    decreases ips.len(),
{
    if ips.len() == 0 {
        Seq::empty()
    } else {
        let before = resolved_names(ips.drop_last(), lookups);
        if lookup_at(lookups, ips.len() - 1) is Resolved {
            before.push(ips.last())
        } else {
            before
        }
    }
}

/// The log file's path after normalization: kept if absolute, else placed
/// under the working directory.
pub open spec fn normalized_log_file(log_file: Seq<char>, cwd: WorkingDirView) -> Result<
    Seq<char>,
    ConfigErrorView,
> {
    if !is_relative_path(log_file) {
        Ok(log_file)
    } else {
        match cwd {
            WorkingDirView::Known(base) => Ok(join_path(base, log_file)),
            WorkingDirView::Unavailable => Err(
                ConfigErrorView::YamlConfigInvalid("get cwd failed"@),
            ),
            WorkingDirView::NotText => Err(
                ConfigErrorView::YamlConfigInvalid("invalid log path "@ + log_file),
            ),
        }
    }
}

/// What normalization makes of a parsed configuration: an error if an
/// address does not resolve or the log file cannot be placed, else the
/// configuration with resolved addresses, the replaced names recorded after
/// the domain names it had, and an absolute log file path.
pub open spec fn normalize_spec(
    c: ConfigView,
    lookups: Seq<LookupView>,
    cwd: WorkingDirView,
) -> Result<ConfigView, ConfigErrorView> {
    if !all_resolvable(c.controller_ips.len() as int, lookups) {
        Err(ConfigErrorView::ControllerIpsInvalid)
    } else {
        match normalized_log_file(c.log_file, cwd) {
            Err(e) => Err(e),
            Ok(path) => Ok(
                ConfigView {
                    controller_ips: resolved_ips(c.controller_ips, lookups),
                    controller_domain_name: c.controller_domain_name + resolved_names(
                        c.controller_ips,
                        lookups,
                    ),
                    log_file: path,
                    ..c
                },
            ),
        }
    }
}

/// What loading makes of a document: the defaults if it is empty, a format
/// error if it did not parse, else the parsed configuration normalized.
pub open spec fn load_spec(
    contents: Seq<char>,
    parsed: Result<ConfigView, Seq<char>>,
    lookups: Seq<LookupView>,
    cwd: WorkingDirView,
) -> Result<ConfigView, ConfigErrorView> {
    if contents.len() == 0 {
        Ok(default_config())
    } else {
        match parsed {
            Err(detail) => Err(ConfigErrorView::YamlConfigInvalid(detail)),
            Ok(c) => normalize_spec(c, lookups, cwd),
        }
    }
}

/// The view of a parse result.
pub open spec fn parsed_view(parsed: Result<Config, String>) -> Result<ConfigView, Seq<char>> {
    match parsed {
        Ok(c) => Ok(c@),
        Err(detail) => Err(detail@),
    }
}

/// The view of a load result.
pub open spec fn loaded_view(r: Result<Config, ConfigError>) -> Result<
    ConfigView,
    ConfigErrorView,
> {
    match r {
        Ok(c) => Ok(c@),
        Err(e) => Err(e@),
    }
}

/// Whether `path` is relative.
pub fn path_is_relative(path: &str) -> (r: bool)
    ensures
        r == is_relative_path(path@),
{
    if path.unicode_len() == 0 {
        true
    } else {
        path.get_char(0) != '/'
    }
}

/// The relative path `rel` placed under the directory `base`.
pub fn path_join(base: &str, rel: &str) -> (r: String)
    ensures
        r@ == join_path(base@, rel@),
{
    let n: usize = base.unicode_len();
    let mut out = base.to_owned();
    if n > 0 && base.get_char(n - 1) != '/' {
        proof {
            reveal_strlit("/");
            assert("/"@ =~= seq!['/']);
        }
        out.append("/");
    }
    out.append(rel);
    out
}

impl Config {
    /// Builds the configuration from a document.
    ///
    /// `contents` is the document's text and `parsed` what the document
    /// parser made of it: the configuration with every field the document
    /// leaves out at its default, or the parser's complaint. `lookups` holds,
    /// for each controller address of the parsed configuration in order,
    /// what the host learned about it, and `cwd` is the working directory.
    ///
    /// An empty document gives the defaults, untouched. Otherwise a parse
    /// failure is a format error, and a parsed configuration is normalized
    /// as `normalize` describes.
    pub fn load(
        contents: &str,
        parsed: Result<Config, String>,
        lookups: &Vec<Lookup>,
        cwd: &WorkingDir,
    ) -> (r: Result<Config, ConfigError>)
        ensures
            loaded_view(r) == load_spec(
                contents@,
                parsed_view(parsed),
                lookup_views(lookups@),
                cwd@,
            ),
            contents@.len() == 0 ==> r is Ok && r->Ok_0@ == default_config(),
    {
        if contents.is_empty() {
            Ok(Config::default())
        } else {
            match parsed {
                Err(detail) => Err(ConfigError::YamlConfigInvalid(detail)),
                Ok(cfg) => cfg.normalize(lookups, cwd),
            }
        }
    }

    /// Normalizes a parsed configuration.
    ///
    /// Each controller address that is a name is replaced by the IP address
    /// it resolved to, and the name is recorded after the domain names the
    /// configuration already had; one that does not resolve fails the whole
    /// with `ControllerIpsInvalid`. A relative log file path is placed under
    /// the working directory; if that directory is not to be had, or is not
    /// text, the result is a format error.
    pub fn normalize(self, lookups: &Vec<Lookup>, cwd: &WorkingDir) -> (r: Result<
        Config,
        ConfigError,
    >)
        ensures
            loaded_view(r) == normalize_spec(self@, lookup_views(lookups@), cwd@),
    {
        let mut cfg = self;
        let ghost before = cfg@;
        let ghost views = lookup_views(lookups@);
        let n: usize = cfg.controller_ips.len();
        let mut ips: Vec<String> = Vec::new();
        let mut names: Vec<String> = clone_strings(&cfg.controller_domain_name);
        let mut i: usize = 0;
        while i < n
            invariant
                i <= n,
                n == cfg.controller_ips@.len(),
                cfg@ == before,
                self@ == before,
                views == lookup_views(lookups@),
                all_resolvable(i as int, views),
                texts(ips@) == resolved_ips(before.controller_ips.take(i as int), views),
                texts(names@) == before.controller_domain_name + resolved_names(
                    before.controller_ips.take(i as int),
                    views,
                ),
            decreases n - i,
        {
            let ghost seen = before.controller_ips.take(i as int);
            let ghost next = before.controller_ips.take(i + 1);
            let ghost old_ips = texts(ips@);
            let ghost old_names = texts(names@);
            proof {
                assert(next.drop_last() =~= seen);
                assert(next.last() == cfg.controller_ips@[i as int]@);
                assert(forall|k: int| 0 <= k < i ==> next[k] == seen[k]);
            }
            if i >= lookups.len() {
                assert(lookup_at(views, i as int) is Unresolvable);
                return Err(ConfigError::ControllerIpsInvalid);
            }
            assert(lookup_at(views, i as int) == lookups@[i as int]@);
            match &lookups[i] {
                Lookup::Unresolvable => {
                    return Err(ConfigError::ControllerIpsInvalid);
                },
                Lookup::Literal => {
                    ips.push(cfg.controller_ips[i].clone());
                    proof {
                        assert(texts(ips@) =~= old_ips.push(next.last()));
                    }
                },
                Lookup::Resolved(ip) => {
                    names.push(cfg.controller_ips[i].clone());
                    ips.push(ip.clone());
                    proof {
                        assert(texts(ips@) =~= old_ips.push(ip@));
                        assert(texts(names@) =~= old_names.push(next.last()));
                        assert(resolved_names(next, views) == resolved_names(seen, views).push(
                            next.last(),
                        ));
                        assert(texts(names@) =~= before.controller_domain_name + resolved_names(
                            next,
                            views,
                        ));
                    }
                },
            }
            proof {
                assert(resolved_ips(next, views).len() == i + 1);
                assert forall|k: int| 0 <= k < i + 1 implies texts(ips@)[k] == resolved_ips(
                    next,
                    views,
                )[k] by {
                    if k < i {
                        assert(old_ips[k] == resolved_ips(seen, views)[k]);
                    }
                }
                assert(texts(ips@) =~= resolved_ips(next, views));
                assert forall|k: int| 0 <= k < i + 1 implies !(#[trigger] lookup_at(views, k)
                    is Unresolvable) by {
                    if k < i {
                        assert(!(lookup_at(views, k) is Unresolvable));
                    }
                }
            }
            i += 1;
        }
        proof {
            assert(before.controller_ips.take(n as int) =~= before.controller_ips);
        }
        let log_file = if path_is_relative(cfg.log_file.as_str()) {
            match cwd {
                WorkingDir::Known(base) => path_join(base.as_str(), cfg.log_file.as_str()),
                WorkingDir::Unavailable => {
                    return Err(ConfigError::YamlConfigInvalid("get cwd failed".to_owned()));
                },
                WorkingDir::NotText => {
                    return Err(
                        ConfigError::YamlConfigInvalid(
                            "invalid log path ".to_owned().concat(cfg.log_file.as_str()),
                        ),
                    );
                },
            }
        } else {
            cfg.log_file
        };
        cfg.controller_ips = ips;
        cfg.controller_domain_name = names;
        cfg.log_file = log_file;
        Ok(cfg)
    }
}

/// Every name that was replaced by an IP address is among the recorded
/// names.
pub proof fn lemma_resolved_names_hold(ips: Seq<Seq<char>>, lookups: Seq<LookupView>, i: int)
    requires
        0 <= i < ips.len(),
        lookup_at(lookups, i) is Resolved,
    ensures
        resolved_names(ips, lookups).contains(ips[i]),
    decreases ips.len(),
{
    let before = resolved_names(ips.drop_last(), lookups);
    if i == ips.len() - 1 {
        assert(before.push(ips.last()).last() == ips[i]);
    } else {
        lemma_resolved_names_hold(ips.drop_last(), lookups, i);
        let k = choose|k: int| 0 <= k < before.len() && before[k] == ips.drop_last()[i];
        assert(resolved_names(ips, lookups)[k] == ips[i]);
    }
}

/// Where every address is an IP address already, no name is recorded.
pub proof fn lemma_literal_addresses_record_nothing(ips: Seq<Seq<char>>, lookups: Seq<LookupView>)
    requires
        forall|i: int| 0 <= i < ips.len() ==> #[trigger] lookup_at(lookups, i) is Literal,
    ensures
        resolved_names(ips, lookups) == Seq::<Seq<char>>::empty(),
        resolved_ips(ips, lookups) == ips,
    decreases ips.len(),
{
    if ips.len() > 0 {
        assert(lookup_at(lookups, ips.len() - 1) is Literal);
        lemma_literal_addresses_record_nothing(ips.drop_last(), lookups);
    }
    assert(resolved_ips(ips, lookups) =~= ips);
}

/// A name that resolves leaves its IP address in the address list, at the
/// name's place, and the name itself among the domain names.
pub proof fn lemma_resolved_address_is_recorded(
    c: ConfigView,
    lookups: Seq<LookupView>,
    cwd: WorkingDirView,
    i: int,
)
    requires
        normalize_spec(c, lookups, cwd) is Ok,
        0 <= i < c.controller_ips.len(),
        lookup_at(lookups, i) is Resolved,
    ensures
        normalize_spec(c, lookups, cwd)->Ok_0.controller_ips.len() == c.controller_ips.len(),
        normalize_spec(c, lookups, cwd)->Ok_0.controller_ips[i] == lookup_at(
            lookups,
            i,
        )->Resolved_0,
        normalize_spec(c, lookups, cwd)->Ok_0.controller_domain_name.contains(c.controller_ips[i]),
{
    lemma_resolved_names_hold(c.controller_ips, lookups, i);
    let names = resolved_names(c.controller_ips, lookups);
    let k = choose|k: int| 0 <= k < names.len() && names[k] == c.controller_ips[i];
    let all = c.controller_domain_name + names;
    assert(all[c.controller_domain_name.len() + k] == c.controller_ips[i]);
}

/// Normalization is stable: a configuration that came out of it, under an
/// absolute working directory, comes out of it again unchanged, whatever the
/// working directory then is, since its addresses are IP addresses by then.
pub proof fn lemma_normalize_is_stable(
    c: ConfigView,
    lookups: Seq<LookupView>,
    cwd: WorkingDirView,
    again: Seq<LookupView>,
    cwd_again: WorkingDirView,
)
    requires
        normalize_spec(c, lookups, cwd) is Ok,
        cwd.is_absolute(),
        forall|i: int|
            0 <= i < c.controller_ips.len() ==> #[trigger] lookup_at(again, i) is Literal,
    ensures
        normalize_spec(normalize_spec(c, lookups, cwd)->Ok_0, again, cwd_again) == normalize_spec(
            c,
            lookups,
            cwd,
        ),
{
    let once = normalize_spec(c, lookups, cwd)->Ok_0;
    lemma_literal_addresses_record_nothing(once.controller_ips, again);
    assert(all_resolvable(once.controller_ips.len() as int, again)) by {
        assert forall|i: int| 0 <= i < once.controller_ips.len() implies !(#[trigger] lookup_at(
            again,
            i,
        ) is Unresolvable) by {
            assert(lookup_at(again, i) is Literal);
        }
    }
    assert(!is_relative_path(once.log_file)) by {
        if is_relative_path(c.log_file) {
            let base = cwd->Known_0;
            assert(join_path(base, c.log_file)[0] == base[0]);
        }
    }
    let twice = normalize_spec(once, again, cwd_again)->Ok_0;
    assert(twice.controller_domain_name =~= once.controller_domain_name);
    assert(twice.controller_ips =~= once.controller_ips);
}

/// Loading is stable: what a document that is not empty loads to, under an
/// absolute working directory, loads to itself when it is written out and
/// read back.
pub proof fn lemma_reload_is_stable(
    contents: Seq<char>,
    parsed: Result<ConfigView, Seq<char>>,
    lookups: Seq<LookupView>,
    cwd: WorkingDirView,
    contents_again: Seq<char>,
    again: Seq<LookupView>,
    cwd_again: WorkingDirView,
)
    requires
        contents.len() > 0,
        contents_again.len() > 0,
        load_spec(contents, parsed, lookups, cwd) is Ok,
        cwd.is_absolute(),
        forall|i: int|
            0 <= i < parsed->Ok_0.controller_ips.len() ==> #[trigger] lookup_at(again, i)
                is Literal,
    ensures
        load_spec(
            contents_again,
            Ok(load_spec(contents, parsed, lookups, cwd)->Ok_0),
            again,
            cwd_again,
        ) == load_spec(contents, parsed, lookups, cwd),
{
    lemma_normalize_is_stable(parsed->Ok_0, lookups, cwd, again, cwd_again);
}

} // verus!
