//! Server settings and their defaults. Reading `config.toml` is I/O and stays
//! outside the library; every setting the file leaves out takes the default
//! given here.
use vstd::prelude::*;
use vstd::string::*;

verus! {

/// Address the server listens on unless configured otherwise.
pub open spec fn spec_default_host() -> Seq<char> {
    "0.0.0.0"@
}

/// Port the server listens on unless configured otherwise.
pub open spec fn spec_default_port() -> u16 {
    8080
}

/// How many downloads run at the same time unless configured otherwise.
pub open spec fn spec_default_max_concurrent() -> usize {
    3
}

/// Seconds a finished download is kept after its last use unless configured
/// otherwise.
pub open spec fn spec_default_file_ttl_secs() -> i64 {
    600
}

/// The defaults: listen on every address at port 8080, run three downloads
/// at once, keep a finished file ten minutes after its last use.
pub proof fn lemma_default_values()
    ensures
        spec_default_host() == seq!['0', '.', '0', '.', '0', '.', '0'],
        spec_default_port() == 8080,
        spec_default_max_concurrent() == 3,
        spec_default_file_ttl_secs() == 600,
{
    reveal_strlit("0.0.0.0");
    assert("0.0.0.0"@ =~= seq!['0', '.', '0', '.', '0', '.', '0']);
}

pub fn default_host() -> (h: String)
    ensures
        h@ == spec_default_host(),
{
    String::from_str("0.0.0.0")
}

pub fn default_port() -> (p: u16)
    ensures
        p == spec_default_port(),
{
    8080
}

pub fn default_max_concurrent() -> (n: usize)
    ensures
        n == spec_default_max_concurrent(),
{
    3
}

pub fn default_reaper_file_ttl_secs() -> (t: i64)
    ensures
        t == spec_default_file_ttl_secs(),
{
    600
}

/// All settings.
pub struct Config {
    pub server: ServerConfig,
    pub jobs: JobsConfig,
}

/// Where the HTTP server listens.
pub struct ServerConfig {
    pub host: String,
    pub port: u16,
}

/// How jobs are run and cleaned up.
pub struct JobsConfig {
    pub max_concurrent: usize,
    pub file_ttl_secs: i64,
}

impl ServerConfig {
    /// Listens on the default host and port.
    pub open spec fn is_default(&self) -> bool {
        self.host@ == spec_default_host() && self.port == spec_default_port()
    }
}

impl JobsConfig {
    /// Uses the default concurrency and time to live.
    pub open spec fn is_default(&self) -> bool {
        self.max_concurrent == spec_default_max_concurrent() && self.file_ttl_secs
            == spec_default_file_ttl_secs()
    }
}

impl Default for ServerConfig {
    fn default() -> (c: Self)
        ensures
            c.is_default(),
    {
        ServerConfig { host: default_host(), port: default_port() }
    }
}

impl Default for JobsConfig {
    fn default() -> (c: Self)
        ensures
            c.is_default(),
    {
        JobsConfig {
            max_concurrent: default_max_concurrent(),
            file_ttl_secs: default_reaper_file_ttl_secs(),
        }
    }
}

impl Default for Config {
    /// The settings used when there is no `config.toml`.
    fn default() -> (c: Self)
        ensures
            c.server.is_default(),
            c.jobs.is_default(),
    {
        Config { server: ServerConfig::default(), jobs: JobsConfig::default() }
    }
}

} // verus!
