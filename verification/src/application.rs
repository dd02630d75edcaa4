//! The application: one proxy per configuration entry, each an independent
//! failure domain.  Construction is all-or-nothing — one bad entry fails
//! the whole application before anything serves — while running the proxies
//! concurrently is the transport layer's job.

use vstd::prelude::*;
use crate::config::{Config, ConsumerConfig, DeadLetterConfig, HttpConfig, ProxyConfig, spec_group_id};
use crate::handler::MessageHandler;
use crate::proxy::{Proxy, ProxyPhase};

verus! {

/// The proxies of one process, one per configuration entry.
pub struct ProxyApplication {
    pub proxies: Vec<Proxy>,
}

/// What a well-built proxy owes its configuration entry: a fresh, idle
/// proxy whose group, destination, timeout, retry budget, dead-letter sink
/// and pool capacity all come from the entry.
pub open spec fn spec_proxy_matches_entry(p: Proxy, pc: ProxyConfig) -> bool {
    &&& p.wf()
    &&& p.phase is Polling
    &&& p.commits == 0
    &&& p.host@ == pc.consumer_config.host@
    &&& p.group@ == spec_group_id(pc.consumer_config.app_name@, pc.consumer_config.topic@)
    &&& p.topic@ == pc.consumer_config.topic@
    &&& p.pool.capacity == pc.consumer_config.pool_size as usize
    &&& p.pool.in_flight == 0
    &&& p.handler.msg_destination@ == pc.http_config.spec_destination()
    &&& p.handler.timeout_secs == pc.http_config.spec_timeout_secs()
    &&& p.handler.max_retries == pc.http_config.spec_max_retries() as usize
    &&& p.handler.dlq_config == pc.deadletter_config
}

impl ProxyApplication {
    /// Builds one proxy per configuration entry.  Fails — before anything
    /// serves — exactly when some entry's worker pool size is zero;
    /// otherwise every proxy starts idle, matching its entry.
    pub fn build(config: Config) -> (r: Result<ProxyApplication, &'static str>)
        ensures
            match r {
                Ok(app) => {
                    &&& app.proxies@.len() == config.proxies@.len()
                    &&& forall|i: int|
                        0 <= i < config.proxies@.len() ==> spec_proxy_matches_entry(
                            app.proxies@[i],
                            #[trigger] config.proxies@[i],
                        )
                },
                Err(_) => exists|i: int|
                    0 <= i < config.proxies@.len() && !(#[trigger] config.proxies@[i])
                        .consumer_config.spec_valid(),
            },
    {
        let mut proxies: Vec<Proxy> = Vec::new();
        let mut i: usize = 0;
        while i < config.proxies.len()
            invariant
                i <= config.proxies@.len(),
                proxies@.len() == i,
                forall|j: int|
                    0 <= j < i ==> spec_proxy_matches_entry(
                        proxies@[j],
                        #[trigger] config.proxies@[j],
                    ),
            decreases config.proxies@.len() - i,
        {
            let pc = &config.proxies[i];
            if !pc.consumer_config.is_valid() {
                return Err("worker pool size must be at least 1");
            }
            let http_config = HttpConfig {
                target_host: pc.http_config.target_host.clone(),
                target_endpoint: pc.http_config.target_endpoint.clone(),
                timeout: pc.http_config.timeout,
                max_retries: pc.http_config.max_retries,
            };
            let dlq_config = match &pc.deadletter_config {
                Some(c) => Some(DeadLetterConfig { host: c.host.clone(), topic: c.topic.clone() }),
                None => None,
            };
            let message_handler = MessageHandler::build(http_config, dlq_config);
            let consumer_config = ConsumerConfig {
                host: pc.consumer_config.host.clone(),
                topic: pc.consumer_config.topic.clone(),
                app_name: pc.consumer_config.app_name.clone(),
                pool_size: pc.consumer_config.pool_size,
            };
            let proxy = match Proxy::build(consumer_config, message_handler) {
                Ok(p) => p,
                Err(e) => {
                    return Err(e);
                },
            };
            proxies.push(proxy);
            i = i + 1;
        }
        Ok(ProxyApplication { proxies })
    }
}

} // verus!
