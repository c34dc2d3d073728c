use vstd::prelude::*;
use vstd::string::StringExecFns;
use crate::error::ProxyError;
use crate::uri::{read_uri, UriParts};

verus! {

/// How long one backend call may take: whole seconds and the nanoseconds
/// on top of them.
#[derive(Debug, Copy, Clone, PartialEq, Eq, Structural)]
pub struct ProxyTimeout {
    pub secs: u64,
    pub nanos: u32,
}

/// How much the proxy writes to its log.
#[derive(Debug, Copy, Clone, PartialEq, Eq, Structural)]
pub enum LogLevel {
    Error,
    Warn,
    Info,
    Debug,
    Trace,
}

/// The settings of the proxy.
#[derive(Debug, Clone, PartialEq, Eq)]
pub struct Config {
    port: u16,
    repositories: Vec<String>,
    log_level: LogLevel,
    proxy_timeout: ProxyTimeout,
}

/// The mathematical value of a [`Config`].
pub struct ConfigView {
    pub port: u16,
    pub repositories: Seq<Seq<char>>,
    pub log_level: LogLevel,
    pub proxy_timeout: ProxyTimeout,
}

impl View for Config {
    type V = ConfigView;

    closed spec fn view(&self) -> ConfigView {
        ConfigView {
            port: self.port,
            repositories: self.repositories@.map_values(|url: String| url@),
            log_level: self.log_level,
            proxy_timeout: self.proxy_timeout,
        }
    }
}

/// Whether `url::Url::parse` reads a text as an absolute URL.
pub uninterp spec fn absolute_url(text: Seq<char>) -> bool;

/// Asks `url::Url::parse` whether a text is an absolute URL.
///
/// Trusted: the answer is [`absolute_url`] of the text.
#[verifier::external_body]
fn is_url(text: &str) -> (accepted: bool)
    ensures
        accepted == absolute_url(text@),
{
    url::Url::parse(text).is_ok()
}

/// The settings that are used where none have been written down: port
/// 8080, Maven Central as the one backend, logging at the level of
/// information, and fifteen seconds for each backend call.
pub open spec fn default_config() -> ConfigView {
    ConfigView {
        port: 8080,
        repositories: seq!["https://repo1.maven.org/maven2"@],
        log_level: LogLevel::Info,
        proxy_timeout: ProxyTimeout { secs: 15, nanos: 0 },
    }
}

/// Whether every text of a list is an absolute URL.
pub open spec fn all_urls(texts: Seq<Seq<char>>) -> bool {
    forall|i: int| 0 <= i < texts.len() ==> #[trigger] absolute_url(texts[i])
}

/// Whether every text of a list can be read as a URI.
pub open spec fn all_uris(texts: Seq<Seq<char>>) -> bool {
    forall|i: int| 0 <= i < texts.len() ==> (#[trigger] read_uri(texts[i])) is Some
}

impl Config {
    /// Settings with the given backends. Each backend is given as the text
    /// of an absolute URL, and the settings hold that text as it was given:
    /// a backend that is written without a path has none. Where one of the
    /// texts is not an absolute URL there are no settings.
    pub fn new(
        port: u16,
        repositories: Vec<String>,
        log_level: LogLevel,
        proxy_timeout: ProxyTimeout,
    ) -> (config: Option<Config>)
        ensures
            config is Some <==> all_urls(repositories@.map_values(|url: String| url@)),
            config matches Some(c) ==> c@ == (ConfigView {
                port,
                repositories: repositories@.map_values(|url: String| url@),
                log_level,
                proxy_timeout,
            }),
    {
        let ghost texts = repositories@.map_values(|url: String| url@);
        let mut i: usize = 0;
        while i < repositories.len()
            invariant
                i <= repositories.len(),
                texts == repositories@.map_values(|url: String| url@),
                forall|k: int| 0 <= k < i ==> #[trigger] absolute_url(texts[k]),
            decreases repositories.len() - i,
        {
            if !is_url(repositories[i].as_str()) {
                assert(!absolute_url(texts[i as int]));
                return None;
            }
            i += 1;
        }
        Some(Config { port, repositories, log_level, proxy_timeout })
    }

    /// The port on which the proxy listens.
    pub fn port(&self) -> (port: u16)
        ensures
            port == self@.port,
    {
        self.port
    }

    /// The backends as URIs, in the configured order, each read from its
    /// text as [`UriParts::parse`] reads it; the error of the first backend
    /// whose text cannot be read as a URI where there is one.
    pub fn repositories(&self) -> (repos: Result<Vec<UriParts>, ProxyError>)
        ensures
            repos is Ok <==> all_uris(self@.repositories),
            repos matches Ok(uris) ==> {
                &&& uris@.len() == self@.repositories.len()
                &&& forall|i: int|
                    0 <= i < uris@.len() ==> read_uri(self@.repositories[i]) == Some(
                        (#[trigger] uris@[i])@,
                    )
            },
            repos matches Err(error) ==> error is HyperHttp,
    {
        let mut repos: Vec<UriParts> = Vec::new();
        let mut i: usize = 0;
        while i < self.repositories.len()
            invariant
                i <= self.repositories.len(),
                repos@.len() == i,
                forall|k: int|
                    0 <= k < i ==> read_uri(self@.repositories[k]) == Some(
                        (#[trigger] repos@[k])@,
                    ),
            decreases self.repositories.len() - i,
        {
            match UriParts::parse(self.repositories[i].as_str()) {
                Ok(uri) => {
                    repos.push(uri);
                },
                Err(error) => {
                    assert(read_uri(self@.repositories[i as int]) is None);
                    return Err(error);
                },
            }
            i += 1;
        }
        assert forall|k: int| 0 <= k < self@.repositories.len() implies (#[trigger] read_uri(
            self@.repositories[k],
        )) is Some by {
            assert(read_uri(self@.repositories[k]) == Some(repos@[k]@));
        }
        Ok(repos)
    }

    /// The backends as the texts of their URLs, in the configured order.
    pub fn repository_urls(&self) -> (urls: Vec<String>)
        ensures
            urls@.map_values(|url: String| url@) == self@.repositories,
    {
        let urls = self.repositories.clone();
        assert(urls@.map_values(|url: String| url@) =~= self@.repositories);
        urls
    }

    /// How much the proxy writes to its log.
    pub fn log_level(&self) -> (level: LogLevel)
        ensures
            level == self@.log_level,
    {
        self.log_level
    }

    /// The time that each backend call is given.
    pub fn proxy_timeout(&self) -> (timeout: ProxyTimeout)
        ensures
            timeout == self@.proxy_timeout,
    {
        self.proxy_timeout
    }

    /// The settings that are used where none have been written down.
    pub fn load_default() -> (config: Self)
        ensures
            config@ == default_config(),
    {
        let mut repositories: Vec<String> = Vec::new();
        repositories.push(String::from_str("https://repo1.maven.org/maven2"));
        let config = Config {
            port: 8080,
            repositories,
            log_level: LogLevel::Info,
            proxy_timeout: ProxyTimeout { secs: 15, nanos: 0 },
        };
        assert(config@.repositories =~= default_config().repositories);
        config
    }
}

} // verus!
