//! Configuration of the bridge: one entry per proxy, each naming a queue
//! subscription, an HTTP destination and an optional dead-letter sink.
//!
//! The types mirror the configuration document read at startup; reading and
//! parsing that document happens outside the verified core, which only sees
//! the plain values held here.

use vstd::prelude::*;
use vstd::string::StringExecFns;

verus! {

/// Seconds an HTTP delivery attempt may take when the document gives no timeout.
pub const DEFAULT_TIMEOUT_SECS: u64 = 5;

/// Retries after the first delivery attempt when the document gives no count.
pub const DEFAULT_MAX_RETRIES: u32 = 3;

/// One queue subscription: broker host, topic, the application name the
/// consumer group is derived from, and the size of the worker pool that
/// fans the batch out.
pub struct ConsumerConfig {
    pub host: String,
    pub topic: String,
    pub app_name: String,
    pub pool_size: u32,
}

/// The HTTP destination one proxy forwards payloads to.
pub struct HttpConfig {
    pub target_host: String,
    pub target_endpoint: String,
    pub timeout: Option<u64>,
    pub max_retries: Option<u32>,
}

/// Where exhausted records go: a broker host and a topic.
pub struct DeadLetterConfig {
    pub host: String,
    pub topic: String,
}

/// Everything one proxy needs: its subscription, its destination, and an
/// optional dead-letter sink.
pub struct ProxyConfig {
    pub consumer_config: ConsumerConfig,
    pub http_config: HttpConfig,
    pub deadletter_config: Option<DeadLetterConfig>,
}

/// The whole configuration document: one entry per proxy.
pub struct Config {
    pub proxies: Vec<ProxyConfig>,
}

/// The consumer group identifier derived from application name and topic,
/// `<app_name>-<topic>`.  Deriving it deterministically lets a restarted
/// process resume the same group and its committed offsets.
pub open spec fn spec_group_id(app_name: Seq<char>, topic: Seq<char>) -> Seq<char> {
    app_name + seq!['-'] + topic
}

/// Builds the consumer group identifier `<app_name>-<topic>`.
pub fn group_id(app_name: &String, topic: &String) -> (r: String)
    ensures
        r@ == spec_group_id(app_name@, topic@),
{
    let mut s = app_name.clone();
    s.append("-");
    s.append(topic.as_str());
    proof {
        reveal_strlit("-");
        assert(s@ =~= spec_group_id(app_name@, topic@));
    }
    s
}

impl ConsumerConfig {
    /// A subscription is usable only with at least one worker.
    pub open spec fn spec_valid(&self) -> bool {
        self.pool_size >= 1
    }

    /// Checks the invariant a subscription must meet before a proxy is built.
    pub fn is_valid(&self) -> (r: bool)
        ensures
            r == self.spec_valid(),
    {
        self.pool_size >= 1
    }
}

impl HttpConfig {
    /// The per-attempt timeout in seconds, defaulted when absent.
    pub open spec fn spec_timeout_secs(&self) -> u64 {
        match self.timeout {
            Some(t) => t,
            None => DEFAULT_TIMEOUT_SECS,
        }
    }

    /// Returns the per-attempt timeout in seconds, defaulted when absent.
    pub fn effective_timeout_secs(&self) -> (r: u64)
        ensures
            r == self.spec_timeout_secs(),
    {
        match self.timeout {
            Some(t) => t,
            None => DEFAULT_TIMEOUT_SECS,
        }
    }

    /// The retry budget after the first attempt, defaulted when absent.
    pub open spec fn spec_max_retries(&self) -> u32 {
        match self.max_retries {
            Some(m) => m,
            None => DEFAULT_MAX_RETRIES,
        }
    }

    /// Returns the retry budget after the first attempt, defaulted when absent.
    pub fn effective_max_retries(&self) -> (r: u32)
        ensures
            r == self.spec_max_retries(),
    {
        match self.max_retries {
            Some(m) => m,
            None => DEFAULT_MAX_RETRIES,
        }
    }

    /// The delivery address, `<target_host>/<target_endpoint>`.
    pub open spec fn spec_destination(&self) -> Seq<char> {
        self.target_host@ + seq!['/'] + self.target_endpoint@
    }

    /// Builds the delivery address `<target_host>/<target_endpoint>`.
    pub fn destination(&self) -> (r: String)
        ensures
            r@ == self.spec_destination(),
    {
        let mut s = self.target_host.clone();
        s.append("/");
        s.append(self.target_endpoint.as_str());
        proof {
            reveal_strlit("/");
            assert(s@ =~= self.spec_destination());
        }
        s
    }
}

impl Config {
    /// Selects the configuration document's path from the process arguments:
    /// the first argument after the program name, or an error when none was
    /// given.
    pub fn config_path(args: &Vec<String>) -> (r: Result<&String, &'static str>)
        ensures
            match r {
                Ok(p) => args@.len() >= 2 && p == &args@[1],
                Err(m) => args@.len() < 2 && m@ == "Not enough arguments"@,
            },
    {
        if args.len() < 2 {
            proof {
                reveal_strlit("Not enough arguments");
            }
            return Err("Not enough arguments");
        }
        Ok(&args[1])
    }
}

} // verus!
