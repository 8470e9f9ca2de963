//! The redirector: connections that were turned to this machine are taken on
//! to where they were going, by the best proxy at hand.
use vstd::prelude::*;

use crate::ip::Endpoint;
use crate::proxy::types::{
    chosen_proxy_is_healthy, failure_countable, first_healthy, marked,
    the_first_healthy_proxy_is_chosen, OperaProxyPool, RedirectEntry, REDIRECTOR_PORT_END,
    REDIRECTOR_PORT_FIRST,
};
use crate::text::{opt_view, owned};

verus! {

/// A proxy of the user's own.
#[derive(Debug, Clone)]
pub struct CustomProxyConfig {
    pub enabled: bool,
    pub host: String,
    pub port: u16,
    pub username: Option<String>,
    pub password: Option<String>,
    /// Whether the upstream proxies take over where it fails.
    pub use_opera_fallback: bool,
}

/// What the redirector has at hand.
#[derive(Debug)]
pub struct SocksRedirector {
    pub proxy_pool: OperaProxyPool,
    pub custom_proxy: CustomProxyConfig,
}

/// The next way to try.
#[derive(Debug, Clone, Copy, PartialEq, Eq, Structural)]
pub enum Hop {
    /// The user's own proxy.
    Custom,
    /// An upstream proxy.
    Opera(Endpoint),
    /// No proxy.
    Direct,
}

/// Why a connection cannot be taken on.
#[derive(Debug, Clone, Copy, PartialEq, Eq, Structural)]
pub enum RedirectError {
    /// Nothing is known of where the connection was going.
    NoEntry(u16),
    /// No upstream proxy is healthy.
    NoHealthyProxy,
    /// Every way was tried.
    Exhausted,
}

/// The upstream proxy to try.
pub open spec fn opera_hop(pool: OperaProxyPool) -> Result<Hop, RedirectError> {
    match first_healthy(pool.proxies@, 0) {
        Some(e) => Ok(Hop::Opera(e)),
        None => Err(RedirectError::NoHealthyProxy),
    }
}

/// The first way to try.
pub open spec fn first_hop(r: SocksRedirector) -> Result<Hop, RedirectError> {
    if r.custom_proxy.enabled {
        Ok(Hop::Custom)
    } else {
        opera_hop(r.proxy_pool)
    }
}

/// The way to try after another has failed.
pub open spec fn next_hop(r: SocksRedirector, failed: Hop) -> Result<Hop, RedirectError> {
    match failed {
        Hop::Custom => if r.custom_proxy.use_opera_fallback {
            opera_hop(r.proxy_pool)
        } else {
            Ok(Hop::Direct)
        },
        Hop::Opera(_) => Ok(Hop::Direct),
        Hop::Direct => Err(RedirectError::Exhausted),
    }
}

impl SocksRedirector {
    /// A redirector with the given proxies.
    pub fn new(proxy_pool: OperaProxyPool, custom_proxy: CustomProxyConfig) -> (r: SocksRedirector)
        ensures
            r.proxy_pool == proxy_pool,
            r.custom_proxy == custom_proxy,
    {
        SocksRedirector { proxy_pool, custom_proxy }
    }

    /// Replaces the user's own proxy.
    pub fn update_custom_proxy(&mut self, cfg: CustomProxyConfig)
        ensures
            final(self).custom_proxy == cfg,
            final(self).proxy_pool == old(self).proxy_pool,
    {
        self.custom_proxy = cfg;
    }

    fn opera(&self) -> (r: Result<Hop, RedirectError>)
        ensures
            r == opera_hop(self.proxy_pool),
    {
        match self.proxy_pool.select_best() {
            Some(e) => Ok(Hop::Opera(e)),
            None => Err(RedirectError::NoHealthyProxy),
        }
    }

    /// The first way to try.
    pub fn start(&self) -> (r: Result<Hop, RedirectError>)
        ensures
            r == first_hop(*self),
    {
        if self.custom_proxy.enabled {
            Ok(Hop::Custom)
        } else {
            self.opera()
        }
    }

    /// Takes note of a way that worked.
    pub fn succeeded(&mut self, hop: Hop, now_us: u64)
        ensures
            final(self).custom_proxy == old(self).custom_proxy,
            final(self).proxy_pool.proxies@ == (match hop {
                Hop::Opera(e) => marked(old(self).proxy_pool.proxies@, e, true, now_us),
                _ => old(self).proxy_pool.proxies@,
            }),
    {
        if let Hop::Opera(e) = hop {
            self.proxy_pool.mark_result(e, true, now_us);
        }
    }

    /// Takes note of a way that failed, and says which to try next.
    pub fn failed(&mut self, hop: Hop, now_us: u64) -> (r: Result<Hop, RedirectError>)
        requires
            hop matches Hop::Opera(e) ==> failure_countable(old(self).proxy_pool.proxies@, e),
        ensures
            final(self).custom_proxy == old(self).custom_proxy,
            final(self).proxy_pool.proxies@ == (match hop {
                Hop::Opera(e) => marked(old(self).proxy_pool.proxies@, e, false, now_us),
                _ => old(self).proxy_pool.proxies@,
            }),
            r == next_hop(*old(self), hop),
    {
        match hop {
            Hop::Custom => if self.custom_proxy.use_opera_fallback {
                self.opera()
            } else {
                Ok(Hop::Direct)
            },
            Hop::Opera(e) => {
                self.proxy_pool.mark_result(e, false, now_us);
                Ok(Hop::Direct)
            },
            Hop::Direct => Err(RedirectError::Exhausted),
        }
    }
}

/// The host to connect to: the domain where it is known, else the address, as
/// written by the caller.
pub fn target_host(entry: &RedirectEntry, address: &str) -> (r: String)
    ensures
        r@ == (match opt_view(entry.domain) {
            Some(d) => d,
            None => address@,
        }),
{
    match &entry.domain {
        Some(d) => owned(d.as_str()),
        None => owned(address),
    }
}

/// Where a connection was going, or that nothing is known of it.
pub fn entry_for(entry: Option<RedirectEntry>, client_port: u16) -> (r: Result<
    RedirectEntry,
    RedirectError,
>)
    ensures
        r == (match entry {
            Some(e) => Ok(e),
            None => Err(RedirectError::NoEntry(client_port)),
        }),
{
    match entry {
        Some(e) => Ok(e),
        None => Err(RedirectError::NoEntry(client_port)),
    }
}

/// The port to listen on after some could not be had.
pub open spec fn port_after(after: Option<u16>) -> Option<u16> {
    match after {
        None => Some(REDIRECTOR_PORT_FIRST),
        Some(p) => if p + 1 < REDIRECTOR_PORT_END {
            Some((p + 1) as u16)
        } else {
            None
        },
    }
}

/// The ports that are tried are 17650 to 17659, one after the other.
pub proof fn ten_ports_are_tried(p: u16)
    requires
        17650 <= p <= 17659,
    ensures
        port_after(None) == Some(17650u16),
        p < 17659 ==> port_after(Some(p)) == Some((p + 1) as u16),
        p == 17659 ==> port_after(Some(p)) is None,
{
}

/// The port to listen on after some could not be had; none where all were
/// tried.
pub fn next_port(after: Option<u16>) -> (r: Option<u16>)
    requires
        after matches Some(p) ==> REDIRECTOR_PORT_FIRST <= p < REDIRECTOR_PORT_END,
    ensures
        r == port_after(after),
        r matches Some(p) ==> REDIRECTOR_PORT_FIRST <= p < REDIRECTOR_PORT_END,
{
    match after {
        None => Some(REDIRECTOR_PORT_FIRST),
        Some(p) => if p + 1 < REDIRECTOR_PORT_END {
            Some(p + 1)
        } else {
            None
        },
    }
}

/// How many ways are left to try once one has failed.
pub open spec fn ways_left(hop: Hop) -> nat {
    match hop {
        Hop::Custom => 2,
        Hop::Opera(_) => 1,
        Hop::Direct => 0,
    }
}

/// Trying comes to an end: whatever follows a failure leaves fewer ways than
/// before, so that there are at most three.
pub proof fn trying_comes_to_an_end(r: SocksRedirector, failed: Hop)
    ensures
        match next_hop(r, failed) {
            Ok(h) => ways_left(h) < ways_left(failed),
            Err(_) => true,
        },
        ways_left(failed) <= 2,
{
}

/// The user's own proxy is tried first where it is enabled, and not at all
/// where it is not.
pub proof fn own_proxy_comes_first(r: SocksRedirector, failed: Hop)
    ensures
        r.custom_proxy.enabled <==> first_hop(r) == Ok::<Hop, RedirectError>(Hop::Custom),
        next_hop(r, failed) != Ok::<Hop, RedirectError>(Hop::Custom),
{
}

/// Which ways are tried, in which order: the user's own proxy where it is
/// enabled, and otherwise the first healthy upstream proxy; after the user's own
/// an upstream one only where that was asked for; after an upstream one none.
pub proof fn ways_are_tried_in_order(r: SocksRedirector, j: int)
    requires
        0 <= j < r.proxy_pool.proxies@.len(),
        r.proxy_pool.proxies@[j].healthy,
        forall|k: int| 0 <= k < j ==> !(#[trigger] r.proxy_pool.proxies@[k]).healthy,
    ensures
        ({
            let best = r.proxy_pool.proxies@[j].addr;
            &&& r.custom_proxy.enabled ==> first_hop(r) == Ok::<Hop, RedirectError>(Hop::Custom)
            &&& !r.custom_proxy.enabled ==> first_hop(r) == Ok::<Hop, RedirectError>(
                Hop::Opera(best),
            )
            &&& r.custom_proxy.use_opera_fallback ==> next_hop(r, Hop::Custom) == Ok::<
                Hop,
                RedirectError,
            >(Hop::Opera(best))
            &&& !r.custom_proxy.use_opera_fallback ==> next_hop(r, Hop::Custom) == Ok::<
                Hop,
                RedirectError,
            >(Hop::Direct)
            &&& forall|e: Endpoint|
                #[trigger] next_hop(r, Hop::Opera(e)) == Ok::<Hop, RedirectError>(Hop::Direct)
            &&& next_hop(r, Hop::Direct) == Err::<Hop, RedirectError>(RedirectError::Exhausted)
        }),
{
    the_first_healthy_proxy_is_chosen(r.proxy_pool.proxies@, 0, j);
}

/// Where no upstream proxy is healthy, none is tried: this is an error at the
/// start and after the user's own proxy, where upstream ones were asked for.
pub proof fn unhealthy_proxies_are_not_tried(r: SocksRedirector)
    requires
        forall|k: int|
            0 <= k < r.proxy_pool.proxies@.len() ==> !(#[trigger] r.proxy_pool.proxies@[k]).healthy,
    ensures
        !r.custom_proxy.enabled ==> first_hop(r) == Err::<Hop, RedirectError>(
            RedirectError::NoHealthyProxy,
        ),
        r.custom_proxy.enabled ==> first_hop(r) == Ok::<Hop, RedirectError>(Hop::Custom),
        r.custom_proxy.use_opera_fallback ==> next_hop(r, Hop::Custom) == Err::<
            Hop,
            RedirectError,
        >(RedirectError::NoHealthyProxy),
        !r.custom_proxy.use_opera_fallback ==> next_hop(r, Hop::Custom) == Ok::<Hop, RedirectError>(
            Hop::Direct,
        ),
{
    chosen_proxy_is_healthy(r.proxy_pool.proxies@, 0);
}

} // verus!
