//! What the proxy side remembers: redirected connections, upstream proxies,
//! tunnelled domains and stand-in addresses.
//!
//! Times are microseconds on a clock that only goes forward.
use vstd::prelude::*;

use crate::ip::{Endpoint, IpAddress};
use crate::text::{copy_text, lowercase_of, opt_view, same_text, to_lowercase, views};

verus! {

/// The first port that the redirector listens on.
pub const REDIRECTOR_PORT_FIRST: u16 = 17650;

/// One past the last port that the redirector listens on.
pub const REDIRECTOR_PORT_END: u16 = 17660;

/// `dashmap::DashMap`.
#[verifier::external_type_specification]
#[verifier::external_body]
#[verifier::reject_recursive_types(K)]
#[verifier::reject_recursive_types(V)]
#[verifier::reject_recursive_types(S)]
pub struct ExDashMap<K, V, S>(dashmap::DashMap<K, V, S>);

/// Where a redirected connection was going.
#[derive(Debug, Clone)]
pub struct RedirectEntry {
    pub orig_dst_ip: IpAddress,
    pub orig_dst_port: u16,
    pub domain: Option<String>,
    pub created_us: u64,
}

/// The contents of a redirect entry.
pub struct Redirect {
    pub ip: IpAddress,
    pub port: u16,
    pub domain: Option<Seq<char>>,
    pub created_us: u64,
}

impl View for RedirectEntry {
    type V = Redirect;

    open spec fn view(&self) -> Redirect {
        Redirect {
            ip: self.orig_dst_ip,
            port: self.orig_dst_port,
            domain: opt_view(self.domain),
            created_us: self.created_us,
        }
    }
}

/// A copy of an entry.
pub fn copy_entry(e: &RedirectEntry) -> (r: RedirectEntry)
    ensures
        r@ == e@,
{
    RedirectEntry {
        orig_dst_ip: e.orig_dst_ip,
        orig_dst_port: e.orig_dst_port,
        domain: copy_text(&e.domain),
        created_us: e.created_us,
    }
}

/// Whether something that began at `since` is younger than `max_age` at `now`.
pub open spec fn younger(since: u64, now: u64, max_age: u64) -> bool {
    (if now > since {
        now - since
    } else {
        0
    }) < max_age
}

/// Whether something that began at `since` is younger than `max_age` at `now`.
pub fn is_younger(since: u64, now: u64, max_age: u64) -> (r: bool)
    ensures
        r == younger(since, now, max_age),
{
    if now > since {
        now - since < max_age
    } else {
        0 < max_age
    }
}

/// What a map of redirects holds.
pub uninterp spec fn redirects_in(m: dashmap::DashMap<u16, RedirectEntry>) -> Map<u16, Redirect>;

/// `dashmap::DashMap::new`: an empty map.
#[verifier::external_body]
fn new_redirects() -> (r: dashmap::DashMap<u16, RedirectEntry>)
    ensures
        redirects_in(r).dom() == Set::<u16>::empty(),
{
    dashmap::DashMap::new()
}

/// `dashmap::DashMap::insert`: sets the value of a key.
#[verifier::external_body]
fn put_redirect(m: &mut dashmap::DashMap<u16, RedirectEntry>, port: u16, entry: RedirectEntry)
    ensures
        redirects_in(*final(m)) == redirects_in(*old(m)).insert(port, entry@),
{
    m.insert(port, entry);
}

/// `dashmap::DashMap::get`: a copy of the value of a key, where it has one.
#[verifier::external_body]
fn get_redirect(m: &dashmap::DashMap<u16, RedirectEntry>, port: u16) -> (r: Option<RedirectEntry>)
    ensures
        match r {
            Some(e) => redirects_in(*m).contains_key(port) && redirects_in(*m)[port] == e@,
            None => !redirects_in(*m).contains_key(port),
        },
{
    m.get(&port).map(|e| copy_entry(&e))
}

/// `dashmap::DashMap::remove`: takes a key out, and gives back its value.
#[verifier::external_body]
fn take_redirect(m: &mut dashmap::DashMap<u16, RedirectEntry>, port: u16) -> (r: Option<
    RedirectEntry,
>)
    ensures
        redirects_in(*final(m)) == redirects_in(*old(m)).remove(port),
        match r {
            Some(e) => redirects_in(*old(m)).contains_key(port) && redirects_in(*old(m))[port]
                == e@,
            None => !redirects_in(*old(m)).contains_key(port),
        },
{
    m.remove(&port).map(|p| p.1)
}

/// `dashmap::DashMap::retain`: keeps the entries that are younger than
/// `max_age`, and no others.
#[verifier::external_body]
fn keep_young(m: &mut dashmap::DashMap<u16, RedirectEntry>, now_us: u64, max_age_us: u64)
    ensures
        redirects_in(*final(m)) == young_entries(redirects_in(*old(m)), now_us, max_age_us),
{
    m.retain(|_, e| is_younger(e.created_us, now_us, max_age_us));
}

/// The entries that are younger than `max_age`.
pub open spec fn young_entries(m: Map<u16, Redirect>, now: u64, max_age: u64) -> Map<
    u16,
    Redirect,
> {
    Map::new(
        |port: u16| m.contains_key(port) && younger(m[port].created_us, now, max_age),
        |port: u16| m[port],
    )
}

/// The connections that are being redirected, by the client's port.
#[derive(Debug)]
pub struct RedirectTable {
    map: dashmap::DashMap<u16, RedirectEntry>,
}

impl View for RedirectTable {
    type V = Map<u16, Redirect>;

    closed spec fn view(&self) -> Map<u16, Redirect> {
        redirects_in(self.map)
    }
}

impl RedirectTable {
    /// An empty table.
    pub fn new() -> (r: RedirectTable)
        ensures
            r@ == Map::<u16, Redirect>::empty(),
    {
        let r: RedirectTable = RedirectTable { map: new_redirects() };
        assert(r@ =~= Map::<u16, Redirect>::empty());
        r
    }

    /// Remembers where a connection was going.
    pub fn insert(&mut self, src_port: u16, entry: RedirectEntry)
        ensures
            final(self)@ == old(self)@.insert(src_port, entry@),
    {
        put_redirect(&mut self.map, src_port, entry);
    }

    /// Where the connection from a port was going.
    pub fn get(&self, src_port: u16) -> (r: Option<RedirectEntry>)
        ensures
            match r {
                Some(e) => self@.contains_key(src_port) && self@[src_port] == e@,
                None => !self@.contains_key(src_port),
            },
    {
        get_redirect(&self.map, src_port)
    }

    /// Forgets a connection, and says where it was going.
    pub fn remove(&mut self, src_port: u16) -> (r: Option<RedirectEntry>)
        ensures
            final(self)@ == old(self)@.remove(src_port),
            match r {
                Some(e) => old(self)@.contains_key(src_port) && old(self)@[src_port] == e@,
                None => !old(self)@.contains_key(src_port),
            },
    {
        take_redirect(&mut self.map, src_port)
    }

    /// Forgets the connections that are not younger than `max_age_us`.
    pub fn sweep_stale(&mut self, now_us: u64, max_age_us: u64)
        ensures
            final(self)@ == young_entries(old(self)@, now_us, max_age_us),
    {
        keep_young(&mut self.map, now_us, max_age_us);
    }
}

impl Default for RedirectTable {
    fn default() -> (r: RedirectTable)
        ensures
            r@ == Map::<u16, Redirect>::empty(),
    {
        RedirectTable::new()
    }
}

/// A connection that was remembered is found under its port until it is
/// forgotten or grows old, whatever happens to others.
pub proof fn redirect_is_found_until_it_ends(
    table: Map<u16, Redirect>,
    port: u16,
    entry: Redirect,
    other: u16,
    other_entry: Redirect,
    now: u64,
    max_age: u64,
)
    requires
        other != port,
    ensures
        ({
            let held = table.insert(port, entry);
            &&& held.contains_key(port) && held[port] == entry
            &&& held.insert(other, other_entry)[port] == entry
            &&& held.remove(other).contains_key(port) && held.remove(other)[port] == entry
            &&& !held.remove(port).contains_key(port)
            &&& young_entries(held, now, max_age).contains_key(port) <==> younger(
                entry.created_us,
                now,
                max_age,
            )
            &&& younger(entry.created_us, now, max_age) ==> young_entries(
                held,
                now,
                max_age,
            )[port] == entry
        }),
{
}

/// An upstream proxy and how it fares.
#[derive(Debug, Clone, Copy, PartialEq, Eq, Structural)]
pub struct OperaProxyEntry {
    pub addr: Endpoint,
    pub healthy: bool,
    pub last_check_us: u64,
    pub consecutive_failures: u32,
}

/// Upstream proxies in order of preference.
#[derive(Debug)]
pub struct OperaProxyPool {
    pub proxies: Vec<OperaProxyEntry>,
}

/// The first healthy proxy from `i` on.
pub open spec fn first_healthy(proxies: Seq<OperaProxyEntry>, i: int) -> Option<Endpoint>
    decreases proxies.len() - i,
{
    if i < 0 || i >= proxies.len() {
        None
    } else if proxies[i].healthy {
        Some(proxies[i].addr)
    } else {
        first_healthy(proxies, i + 1)
    }
}

/// Whether some proxy has an address.
pub open spec fn has_ip(proxies: Seq<OperaProxyEntry>, ip: IpAddress) -> bool {
    exists|i: int| 0 <= i < proxies.len() && (#[trigger] proxies[i]).addr.ip == ip
}

/// The place of the first proxy with an endpoint from `i` on; the number of
/// proxies if there is none.
pub open spec fn place_of_proxy(proxies: Seq<OperaProxyEntry>, addr: Endpoint, i: int) -> int
    decreases proxies.len() - i,
{
    if i < 0 || i >= proxies.len() {
        proxies.len() as int
    } else if proxies[i].addr == addr {
        i
    } else {
        place_of_proxy(proxies, addr, i + 1)
    }
}

/// A proxy after an attempt to use it: a success makes it healthy, the third
/// failure in a row unhealthy.
pub open spec fn after_result(p: OperaProxyEntry, success: bool, now: u64) -> OperaProxyEntry {
    if success {
        OperaProxyEntry { healthy: true, last_check_us: now, consecutive_failures: 0, ..p }
    } else {
        OperaProxyEntry {
            healthy: p.healthy && p.consecutive_failures + 1 < 3,
            last_check_us: now,
            consecutive_failures: (p.consecutive_failures + 1) as u32,
            ..p
        }
    }
}

impl OperaProxyPool {
    /// A pool of proxies that are all taken to be healthy.
    pub fn new(addrs: Vec<Endpoint>, now_us: u64) -> (r: OperaProxyPool)
        ensures
            r.proxies@ == Seq::new(
                addrs@.len(),
                |i: int|
                    OperaProxyEntry {
                        addr: addrs@[i],
                        healthy: true,
                        last_check_us: now_us,
                        consecutive_failures: 0,
                    },
            ),
    {
        let mut proxies: Vec<OperaProxyEntry> = Vec::new();
        let mut i: usize = 0;
        while i < addrs.len()
            invariant
                i <= addrs@.len(),
                proxies@.len() == i,
                forall|k: int|
                    0 <= k < i ==> #[trigger] proxies@[k] == (OperaProxyEntry {
                        addr: addrs@[k],
                        healthy: true,
                        last_check_us: now_us,
                        consecutive_failures: 0,
                    }),
            decreases addrs@.len() - i,
        {
            proxies.push(
                OperaProxyEntry {
                    addr: addrs[i],
                    healthy: true,
                    last_check_us: now_us,
                    consecutive_failures: 0,
                },
            );
            i = i + 1;
        }
        OperaProxyPool { proxies }
    }

    /// The first healthy proxy.
    pub fn select_best(&self) -> (r: Option<Endpoint>)
        ensures
            r == first_healthy(self.proxies@, 0),
    {
        let mut i: usize = 0;
        while i < self.proxies.len()
            invariant
                i <= self.proxies@.len(),
                first_healthy(self.proxies@, 0) == first_healthy(self.proxies@, i as int),
            decreases self.proxies@.len() - i,
        {
            if self.proxies[i].healthy {
                return Some(self.proxies[i].addr);
            }
            i = i + 1;
        }
        None
    }

    /// Whether an address is that of a proxy.
    pub fn is_known_ip(&self, ip: &IpAddress) -> (r: bool)
        ensures
            r == has_ip(self.proxies@, *ip),
    {
        let mut i: usize = 0;
        while i < self.proxies.len()
            invariant
                i <= self.proxies@.len(),
                forall|k: int| 0 <= k < i ==> (#[trigger] self.proxies@[k]).addr.ip != *ip,
            decreases self.proxies@.len() - i,
        {
            if self.proxies[i].addr.ip == *ip {
                assert(self.proxies@[i as int].addr.ip == *ip);
                return true;
            }
            i = i + 1;
        }
        false
    }

    /// Takes note of an attempt to use a proxy.
    pub fn mark_result(&mut self, addr: Endpoint, success: bool, now_us: u64)
        requires
            success || failure_countable(old(self).proxies@, addr),
        ensures
            final(self).proxies@ == marked(old(self).proxies@, addr, success, now_us),
    {
        let mut i: usize = 0;
        while i < self.proxies.len() && self.proxies[i].addr != addr
            invariant
                i <= self.proxies@.len(),
                self.proxies@ == old(self).proxies@,
                place_of_proxy(self.proxies@, addr, 0) == place_of_proxy(
                    self.proxies@,
                    addr,
                    i as int,
                ),
            decreases self.proxies@.len() - i,
        {
            i = i + 1;
        }
        if i < self.proxies.len() {
            let mut p: OperaProxyEntry = self.proxies[i];
            if success {
                p.consecutive_failures = 0;
                p.healthy = true;
            } else {
                p.consecutive_failures = p.consecutive_failures + 1;
                if p.consecutive_failures >= 3 {
                    p.healthy = false;
                }
            }
            p.last_check_us = now_us;
            self.proxies.set(i, p);
        }
    }
}

/// Whether another failure of a proxy can be counted.
pub open spec fn failure_countable(proxies: Seq<OperaProxyEntry>, addr: Endpoint) -> bool {
    let i = place_of_proxy(proxies, addr, 0);
    i < proxies.len() ==> proxies[i].consecutive_failures < u32::MAX
}

/// Proxies after an attempt to use one of them.
pub open spec fn marked(
    proxies: Seq<OperaProxyEntry>,
    addr: Endpoint,
    success: bool,
    now: u64,
) -> Seq<OperaProxyEntry> {
    let i = place_of_proxy(proxies, addr, 0);
    if i < proxies.len() {
        proxies.update(i, after_result(proxies[i], success, now))
    } else {
        proxies
    }
}

/// A proxy that fails three times in a row is passed over; one success brings
/// it back.
pub proof fn three_failures_then_recovery(p: OperaProxyEntry, now: u64)
    requires
        p.consecutive_failures == 0,
    ensures
        !after_result(after_result(after_result(p, false, now), false, now), false, now).healthy,
        after_result(after_result(p, false, now), false, now).healthy == p.healthy,
        after_result(
            after_result(after_result(after_result(p, false, now), false, now), false, now),
            true,
            now,
        ).healthy,
{
}

/// What is chosen is healthy and belongs to the pool.
pub proof fn chosen_proxy_is_healthy(proxies: Seq<OperaProxyEntry>, i: int)
    requires
        0 <= i <= proxies.len(),
    ensures
        match first_healthy(proxies, i) {
            Some(e) => exists|j: int|
                i <= j < proxies.len() && (#[trigger] proxies[j]).healthy && proxies[j].addr == e,
            None => forall|j: int| i <= j < proxies.len() ==> !(#[trigger] proxies[j]).healthy,
        },
    decreases proxies.len() - i,
{
    if i < proxies.len() && !proxies[i].healthy {
        chosen_proxy_is_healthy(proxies, i + 1);
    }
}

/// What a map from texts to numbers holds.
pub uninterp spec fn numbers_in(m: dashmap::DashMap<String, u64>) -> Map<Seq<char>, u64>;

/// `dashmap::DashMap::new`: an empty map.
#[verifier::external_body]
fn new_numbers() -> (r: dashmap::DashMap<String, u64>)
    ensures
        numbers_in(r).dom() == Set::<Seq<char>>::empty(),
{
    dashmap::DashMap::new()
}

/// `dashmap::DashMap::insert`: sets the value of a key.
#[verifier::external_body]
fn put_number(m: &mut dashmap::DashMap<String, u64>, key: String, value: u64)
    ensures
        numbers_in(*final(m)) == numbers_in(*old(m)).insert(key@, value),
{
    m.insert(key, value);
}

/// `dashmap::DashMap::get`: the value of a key, where it has one.
#[verifier::external_body]
fn get_number(m: &dashmap::DashMap<String, u64>, key: &str) -> (r: Option<u64>)
    ensures
        r == (if numbers_in(*m).contains_key(key@) {
            Some(numbers_in(*m)[key@])
        } else {
            None
        }),
{
    m.get(key).map(|v| *v)
}

/// `dashmap::DashMap::len`: the number of keys.
#[verifier::external_body]
fn count_numbers(m: &dashmap::DashMap<String, u64>) -> (r: usize)
    ensures
        r == numbers_in(*m).dom().len(),
{
    m.len()
}

/// What a map from numbers to texts holds.
pub uninterp spec fn texts_in(m: dashmap::DashMap<u32, String>) -> Map<u32, Seq<char>>;

/// `dashmap::DashMap::new`: an empty map.
#[verifier::external_body]
fn new_texts() -> (r: dashmap::DashMap<u32, String>)
    ensures
        texts_in(r).dom() == Set::<u32>::empty(),
{
    dashmap::DashMap::new()
}

/// `dashmap::DashMap::insert`: sets the value of a key.
#[verifier::external_body]
fn put_text(m: &mut dashmap::DashMap<u32, String>, key: u32, value: String)
    ensures
        texts_in(*final(m)) == texts_in(*old(m)).insert(key, value@),
{
    m.insert(key, value);
}

/// `dashmap::DashMap::get`: a copy of the value of a key, where it has one.
#[verifier::external_body]
fn get_text(m: &dashmap::DashMap<u32, String>, key: u32) -> (r: Option<String>)
    ensures
        opt_view(r) == (if texts_in(*m).contains_key(key) {
            Some(texts_in(*m)[key])
        } else {
            None
        }),
{
    m.get(&key).map(|v| v.to_string())
}

/// How long a domain that was found blocked is tunnelled: six hours.
pub const PROBED_TTL_US: u64 = 21_600_000_000;

/// The domains that are tunnelled.
#[derive(Debug)]
pub struct DomainBlocklist {
    static_domains: Vec<String>,
    user_domains: Vec<String>,
    probed_domains: dashmap::DashMap<String, u64>,
}

/// The lower-case forms of some texts.
pub open spec fn lowered(s: Seq<Seq<char>>) -> Set<Seq<char>> {
    Set::new(|d: Seq<char>| exists|i: int| 0 <= i < s.len() && d == lowercase_of(#[trigger] s[i]))
}

/// The texts of a list.
pub open spec fn members(v: Seq<String>) -> Set<Seq<char>> {
    Set::new(|d: Seq<char>| exists|i: int| 0 <= i < v.len() && d == (#[trigger] v[i])@)
}

fn holds_text(v: &Vec<String>, text: &str) -> (r: bool)
    ensures
        r == members(v@).contains(text@),
{
    let mut i: usize = 0;
    while i < v.len()
        invariant
            i <= v@.len(),
            forall|k: int| 0 <= k < i ==> (#[trigger] v@[k])@ != text@,
        decreases v@.len() - i,
    {
        if same_text(v[i].as_str(), text) {
            assert(v@[i as int]@ == text@);
            return true;
        }
        i = i + 1;
    }
    false
}

/// The lower-case forms of some domains, each once, in the order in which
/// they first come.
fn lowered_set(domains: Vec<String>) -> (r: Vec<String>)
    ensures
        members(r@) == lowered(views(domains@)),
        forall|i: int, j: int|
            0 <= i < j < r@.len() ==> (#[trigger] r@[i])@ != (#[trigger] r@[j])@,
{
    let mut out: Vec<String> = Vec::new();
    let mut n: usize = 0;
    assert(members(out@) =~= lowered(views(domains@).take(0)));
    while n < domains.len()
        invariant
            n <= domains@.len(),
            members(out@) == lowered(views(domains@).take(n as int)),
            forall|i: int, j: int|
                0 <= i < j < out@.len() ==> (#[trigger] out@[i])@ != (#[trigger] out@[j])@,
        decreases domains@.len() - n,
    {
        let d: String = to_lowercase(domains[n].as_str());
        let ghost before: Seq<String> = out@;
        let ghost low: Seq<char> = d@;
        if !holds_text(&out, d.as_str()) {
            out.push(d);
            assert forall|i: int, j: int|
                0 <= i < j < out@.len() implies (#[trigger] out@[i])@ != (#[trigger] out@[j])@ by {
                if j == before.len() {
                    assert(out@[i] == before[i]);
                    if before[i]@ == low {
                        assert(members(before).contains(low));
                    }
                }
            }
        }
        proof {
            let s = views(domains@).take(n as int);
            let t = views(domains@).take(n + 1);
            assert(t =~= s.push(domains@[n as int]@));
            assert(members(out@) =~= lowered(t)) by {
                assert forall|x: Seq<char>| members(out@).contains(x) <==> lowered(t).contains(x) by {
                    if members(before).contains(x) {
                        let i = choose|i: int| 0 <= i < before.len() && x == (#[trigger] before[i])@;
                        assert(out@[i]@ == x);
                        assert(lowered(s).contains(x));
                        let k = choose|k: int| 0 <= k < s.len() && x == lowercase_of(#[trigger] s[k]);
                        assert(t[k] == s[k]);
                    }
                    if x == low {
                        assert(t[n as int] == domains@[n as int]@);
                        if before.len() < out@.len() {
                            assert(out@[before.len() as int]@ == low);
                        } else {
                            assert(members(before).contains(low));
                        }
                    }
                    if lowered(t).contains(x) {
                        let k = choose|k: int| 0 <= k < t.len() && x == lowercase_of(#[trigger] t[k]);
                        if k < n {
                            assert(s[k] == t[k]);
                            assert(lowered(s).contains(x));
                        }
                    }
                    if members(out@).contains(x) {
                        let i = choose|i: int| 0 <= i < out@.len() && x == (#[trigger] out@[i])@;
                        if i < before.len() {
                            assert(before[i]@ == x);
                        }
                    }
                }
            }
        }
        n = n + 1;
    }
    assert(views(domains@).take(n as int) =~= views(domains@));
    out
}

impl DomainBlocklist {
    /// The domains that are always tunnelled.
    pub closed spec fn fixed(&self) -> Set<Seq<char>> {
        members(self.static_domains@)
    }

    /// The domains that the user wants tunnelled.
    pub closed spec fn chosen(&self) -> Set<Seq<char>> {
        members(self.user_domains@)
    }

    /// The domains that were found blocked, and when.
    pub closed spec fn probed(&self) -> Map<Seq<char>, u64> {
        numbers_in(self.probed_domains)
    }

    /// Whether a domain is tunnelled at a time.
    pub open spec fn tunnels(&self, domain: Seq<char>, now: u64) -> bool {
        let d = lowercase_of(domain);
        self.fixed().contains(d) || self.chosen().contains(d) || (self.probed().contains_key(d)
            && younger(self.probed()[d], now, PROBED_TTL_US))
    }

    /// A list with the domains that are always tunnelled.
    pub fn new(static_domains: Vec<String>) -> (r: DomainBlocklist)
        ensures
            r.fixed() == lowered(views(static_domains@)),
            r.chosen() == Set::<Seq<char>>::empty(),
            r.probed() == Map::<Seq<char>, u64>::empty(),
    {
        let r: DomainBlocklist = DomainBlocklist {
            static_domains: lowered_set(static_domains),
            user_domains: Vec::new(),
            probed_domains: new_numbers(),
        };
        assert(r.chosen() =~= Set::<Seq<char>>::empty());
        assert(r.probed() =~= Map::<Seq<char>, u64>::empty());
        r
    }

    /// Whether a domain is tunnelled. Case does not matter.
    pub fn should_tunnel(&self, domain: &str, now_us: u64) -> (r: bool)
        ensures
            r == self.tunnels(domain@, now_us),
    {
        let d: String = to_lowercase(domain);
        if holds_text(&self.static_domains, d.as_str()) || holds_text(
            &self.user_domains,
            d.as_str(),
        ) {
            return true;
        }
        match get_number(&self.probed_domains, d.as_str()) {
            Some(t) => is_younger(t, now_us, PROBED_TTL_US),
            None => false,
        }
    }

    /// Takes note of a domain that was found blocked.
    pub fn mark_probed_blocked(&mut self, domain: &str, now_us: u64)
        ensures
            final(self).probed() == old(self).probed().insert(lowercase_of(domain@), now_us),
            final(self).fixed() == old(self).fixed(),
            final(self).chosen() == old(self).chosen(),
    {
        put_number(&mut self.probed_domains, to_lowercase(domain), now_us);
    }

    /// Replaces the domains that the user wants tunnelled.
    pub fn set_user_domains(&mut self, domains: Vec<String>)
        ensures
            final(self).chosen() == lowered(views(domains@)),
            final(self).fixed() == old(self).fixed(),
            final(self).probed() == old(self).probed(),
    {
        self.user_domains = lowered_set(domains);
    }
}

/// A domain that was just found blocked is tunnelled, until six hours later.
pub proof fn blocked_domain_is_tunnelled_for_a_while(
    before: DomainBlocklist,
    after: DomainBlocklist,
    domain: Seq<char>,
    marked_us: u64,
    now_us: u64,
)
    requires
        after.probed() == before.probed().insert(lowercase_of(domain), marked_us),
        after.fixed() == before.fixed(),
        after.chosen() == before.chosen(),
        marked_us <= now_us,
    ensures
        now_us - marked_us < PROBED_TTL_US ==> after.tunnels(domain, now_us),
        now_us - marked_us >= PROBED_TTL_US && !before.fixed().contains(lowercase_of(domain))
            && !before.chosen().contains(lowercase_of(domain)) ==> !after.tunnels(domain, now_us),
{
}

/// The first of the stand-in addresses less one: 10.0.0.0.
pub const FAKE_BASE: u32 = 0x0a00_0000;

/// The number of places in 10.0.0.0/8.
pub const FAKE_PLACES: u32 = 0x100_0000;

/// Stand-in addresses for domains, out of 10.0.0.0/8.
#[derive(Debug)]
pub struct FakeIpManager {
    domain_to_ip: dashmap::DashMap<String, u64>,
    ip_to_domain: dashmap::DashMap<u32, String>,
    next_ip: u32,
    max_entries: usize,
}

impl FakeIpManager {
    /// The stand-in of each domain.
    pub closed spec fn stand_ins(&self) -> Map<Seq<char>, u64> {
        numbers_in(self.domain_to_ip)
    }

    /// The domain of each stand-in.
    pub closed spec fn domains(&self) -> Map<u32, Seq<char>> {
        texts_in(self.ip_to_domain)
    }

    /// The place in 10.0.0.0/8 that is given out next.
    pub closed spec fn next_place(&self) -> u32 {
        self.next_ip
    }

    /// The most domains that can have a stand-in.
    pub closed spec fn limit(&self) -> usize {
        self.max_entries
    }

    /// Domains and stand-ins are each other's inverse, and every stand-in was
    /// given out.
    pub open spec fn wf(&self) -> bool {
        &&& 1 <= self.next_place() <= FAKE_PLACES
        &&& self.stand_ins().dom().finite()
        &&& forall|d: Seq<char>| #[trigger]
            self.stand_ins().contains_key(d) ==> {
                let ip = self.stand_ins()[d];
                &&& FAKE_BASE < ip < FAKE_BASE + self.next_place()
                &&& self.domains().contains_key(ip as u32)
                &&& self.domains()[ip as u32] == d
            }
        &&& forall|ip: u32| #[trigger]
            self.domains().contains_key(ip) ==> self.stand_ins().contains_key(self.domains()[ip])
                && self.stand_ins()[self.domains()[ip]] == ip
    }

    /// Whether a domain without a stand-in can be given one.
    pub open spec fn has_room(&self) -> bool {
        self.stand_ins().dom().len() < self.limit() && self.next_place() < FAKE_PLACES
    }

    /// No stand-ins yet, and room for `max_entries`.
    pub fn new(max_entries: usize) -> (r: FakeIpManager)
        ensures
            r.wf(),
            r.stand_ins() == Map::<Seq<char>, u64>::empty(),
            r.domains() == Map::<u32, Seq<char>>::empty(),
            r.next_place() == 1,
            r.limit() == max_entries,
    {
        let r: FakeIpManager = FakeIpManager {
            domain_to_ip: new_numbers(),
            ip_to_domain: new_texts(),
            next_ip: 1,
            max_entries,
        };
        assert(r.stand_ins() =~= Map::<Seq<char>, u64>::empty());
        assert(r.domains() =~= Map::<u32, Seq<char>>::empty());
        r
    }

    /// The stand-in of a domain, given out if it has none and there is room.
    /// Case does not matter.
    pub fn allocate(&mut self, domain: &str) -> (r: Option<u32>)
        requires
            old(self).wf(),
        ensures
            final(self).wf(),
            final(self).limit() == old(self).limit(),
            given_out(*old(self), domain@, r, *final(self)),
    {
        let d: String = to_lowercase(domain);
        if let Some(ip) = get_number(&self.domain_to_ip, d.as_str()) {
            return Some(ip as u32);
        }
        if count_numbers(&self.domain_to_ip) >= self.max_entries {
            return None;
        }
        if self.next_ip >= FAKE_PLACES {
            return None;
        }
        let ip: u32 = FAKE_BASE + self.next_ip;
        let ghost low: Seq<char> = d@;
        let ghost old_domains: Map<u32, Seq<char>> = self.domains();
        assert(!old_domains.contains_key(ip)) by {
            if old_domains.contains_key(ip) {
                assert(self.stand_ins().contains_key(old_domains[ip]));
            }
        }
        self.next_ip = self.next_ip + 1;
        put_text(&mut self.ip_to_domain, ip, crate::text::owned(d.as_str()));
        put_number(&mut self.domain_to_ip, d, ip as u64);
        Some(ip)
    }

    /// The domain that an address stands in for.
    pub fn lookup(&self, ip: &IpAddress) -> (r: Option<String>)
        ensures
            opt_view(r) == (match *ip {
                IpAddress::V4(a) => if self.domains().contains_key(a) {
                    Some(self.domains()[a])
                } else {
                    None
                },
                IpAddress::V6(_) => None,
            }),
    {
        match ip {
            IpAddress::V4(a) => get_text(&self.ip_to_domain, *a),
            IpAddress::V6(_) => None,
        }
    }

    /// Whether an address is in the range of stand-ins.
    pub fn is_fake_ip(ip: u32) -> (r: bool)
        ensures
            r == in_fake_range(ip),
    {
        ip / 0x100_0000 == 10
    }
}

/// What asking for the stand-in of a domain came to: the one that it has, the
/// next one where there is room, or none.
pub open spec fn given_out(
    before: FakeIpManager,
    domain: Seq<char>,
    r: Option<u32>,
    after: FakeIpManager,
) -> bool {
    let d = lowercase_of(domain);
    if before.stand_ins().contains_key(d) {
        &&& r == Some(before.stand_ins()[d] as u32)
        &&& after == before
    } else if before.has_room() {
        let ip = (FAKE_BASE + before.next_place()) as u32;
        &&& r == Some(ip)
        &&& after.stand_ins() == before.stand_ins().insert(d, ip as u64)
        &&& after.domains() == before.domains().insert(ip, d)
        &&& after.next_place() == before.next_place() + 1
    } else {
        &&& r is None
        &&& after == before
    }
}

/// Whether an address is in 10.0.0.0/8.
pub open spec fn in_fake_range(ip: u32) -> bool {
    ip / 0x100_0000 == 10
}

/// Looking up the stand-in of a domain gives the domain back.
pub proof fn stand_in_leads_back(m: FakeIpManager, domain: Seq<char>)
    requires
        m.wf(),
        m.stand_ins().contains_key(domain),
    ensures
        m.domains().contains_key(m.stand_ins()[domain] as u32),
        m.domains()[m.stand_ins()[domain] as u32] == domain,
        in_fake_range(m.stand_ins()[domain] as u32),
{
}

/// Two domains never share a stand-in.
pub proof fn stand_ins_are_distinct(m: FakeIpManager, a: Seq<char>, b: Seq<char>)
    requires
        m.wf(),
        m.stand_ins().contains_key(a),
        m.stand_ins().contains_key(b),
        a != b,
    ensures
        m.stand_ins()[a] != m.stand_ins()[b],
{
}

/// What age means: something is younger than a span at a time exactly where that
/// time lies before its beginning and the span together.
pub proof fn age_is_counted_from_the_beginning(since: u64, now: u64, max_age: u64)
    ensures
        since <= now ==> (younger(since, now, max_age) <==> now < since + max_age),
        now <= since ==> (younger(since, now, max_age) <==> max_age > 0),
{
}

/// The sweep forgets exactly the connections that reached the age, and changes
/// none of the others.
pub proof fn sweeping_forgets_the_old(table: Map<u16, Redirect>, port: u16, now: u64, max_age: u64)
    requires
        table.contains_key(port),
        table[port].created_us <= now,
    ensures
        young_entries(table, now, max_age).contains_key(port) <==> now < table[port].created_us
            + max_age,
        young_entries(table, now, max_age).contains_key(port) ==> young_entries(
            table,
            now,
            max_age,
        )[port] == table[port],
        forall|other: u16|
            young_entries(table, now, max_age).contains_key(other) ==> table.contains_key(other),
{
}

/// The proxy that is chosen is the first healthy one: every one before it is
/// unhealthy.
pub proof fn the_first_healthy_proxy_is_chosen(proxies: Seq<OperaProxyEntry>, i: int, j: int)
    requires
        0 <= i <= j < proxies.len(),
        proxies[j].healthy,
        forall|k: int| i <= k < j ==> !(#[trigger] proxies[k]).healthy,
    ensures
        first_healthy(proxies, i) == Some(proxies[j].addr),
    decreases j - i,
{
    if i < j {
        the_first_healthy_proxy_is_chosen(proxies, i + 1, j);
    }
}

/// An attempt changes the first proxy with the endpoint, and no other: its
/// endpoint stays, and the time of the attempt is noted.
pub proof fn attempts_change_one_proxy(
    proxies: Seq<OperaProxyEntry>,
    j: int,
    success: bool,
    now: u64,
)
    requires
        0 <= j < proxies.len(),
        forall|k: int| 0 <= k < j ==> (#[trigger] proxies[k]).addr != proxies[j].addr,
        proxies[j].consecutive_failures < u32::MAX,
    ensures
        ({
            let after = marked(proxies, proxies[j].addr, success, now);
            &&& after.len() == proxies.len()
            &&& forall|k: int| 0 <= k < proxies.len() && k != j ==> after[k] == #[trigger] proxies[k]
            &&& after[j].addr == proxies[j].addr
            &&& after[j].last_check_us == now
            &&& success ==> after[j].healthy && after[j].consecutive_failures == 0
            &&& !success ==> after[j].consecutive_failures == proxies[j].consecutive_failures + 1
            &&& !success && proxies[j].consecutive_failures >= 2 ==> !after[j].healthy
            &&& !success && proxies[j].consecutive_failures < 2 ==> after[j].healthy
                == proxies[j].healthy
        }),
{
    lemma_place_of_first(proxies, j, 0);
}

proof fn lemma_place_of_first(proxies: Seq<OperaProxyEntry>, j: int, i: int)
    requires
        0 <= i <= j < proxies.len(),
        forall|k: int| 0 <= k < j ==> (#[trigger] proxies[k]).addr != proxies[j].addr,
    ensures
        place_of_proxy(proxies, proxies[j].addr, i) == j,
    decreases j - i,
{
    if i < j {
        lemma_place_of_first(proxies, j, i + 1);
    }
}

/// An attempt to use an endpoint that no proxy has changes nothing.
pub proof fn unknown_proxies_are_not_marked(
    proxies: Seq<OperaProxyEntry>,
    addr: Endpoint,
    success: bool,
    now: u64,
)
    requires
        forall|k: int| 0 <= k < proxies.len() ==> (#[trigger] proxies[k]).addr != addr,
    ensures
        marked(proxies, addr, success, now) == proxies,
{
    lemma_no_place(proxies, addr, 0);
}

proof fn lemma_no_place(proxies: Seq<OperaProxyEntry>, addr: Endpoint, i: int)
    requires
        0 <= i,
        forall|k: int| 0 <= k < proxies.len() ==> (#[trigger] proxies[k]).addr != addr,
    ensures
        place_of_proxy(proxies, addr, i) == proxies.len(),
    decreases proxies.len() - i,
{
    if i < proxies.len() {
        lemma_no_place(proxies, addr, i + 1);
    }
}

/// A domain is tunnelled exactly where it is fixed, chosen, or was found blocked
/// within the last 21600 seconds.
pub proof fn domains_are_tunnelled_exactly_so(b: DomainBlocklist, domain: Seq<char>, now: u64)
    ensures
        ({
            let d = lowercase_of(domain);
            b.tunnels(domain, now) <==> {
                ||| b.fixed().contains(d)
                ||| b.chosen().contains(d)
                ||| b.probed().contains_key(d) && now < b.probed()[d] + 21_600_000_000
            }
        }),
{
}

/// Case does not matter in a list: each domain of it is held in lower case, and
/// nothing else is.
pub proof fn lists_hold_lower_case(s: Seq<Seq<char>>, i: int, d: Seq<char>)
    ensures
        0 <= i < s.len() ==> lowered(s).contains(lowercase_of(s[i])),
        lowered(s).contains(d) ==> exists|k: int| 0 <= k < s.len() && lowercase_of(#[trigger] s[k])
            == d,
{
    if 0 <= i < s.len() {
        assert(lowercase_of(s[i]) == lowercase_of(s[i]));
    }
    if lowered(s).contains(d) {
        let k = choose|k: int| 0 <= k < s.len() && d == lowercase_of(#[trigger] s[k]);
        assert(lowercase_of(s[k]) == d);
    }
}

/// A stand-in lies in 10.0.0.0/8 and leads back to the domain that it was given
/// to; asking again gives the same one; and no other domain loses its own.
pub proof fn stand_ins_last(
    before: FakeIpManager,
    domain: Seq<char>,
    ip: u32,
    after: FakeIpManager,
    again: Option<u32>,
    later: FakeIpManager,
    other: Seq<char>,
)
    requires
        before.wf(),
        after.wf(),
        given_out(before, domain, Some(ip), after),
        given_out(after, domain, again, later),
    ensures
        0x0a00_0000 < ip <= 0x0aff_ffff,
        after.domains().contains_key(ip) && after.domains()[ip] == lowercase_of(domain),
        again == Some(ip),
        later == after,
        before.stand_ins().contains_key(other) ==> after.stand_ins().contains_key(other)
            && after.stand_ins()[other] == before.stand_ins()[other],
        before.stand_ins().contains_key(other) && other != lowercase_of(domain)
            ==> before.stand_ins()[other] != ip,
{
}

/// Stand-ins are given out in order, from 10.0.0.1 on, until as many domains as
/// the limit allows have one, or the range is used up; then only the domains
/// that have one get an answer.
pub proof fn stand_ins_are_given_out_in_order(
    before: FakeIpManager,
    domain: Seq<char>,
    r: Option<u32>,
    after: FakeIpManager,
)
    requires
        before.wf(),
        given_out(before, domain, r, after),
        !before.stand_ins().contains_key(lowercase_of(domain)),
    ensures
        r is Some <==> before.stand_ins().dom().len() < before.limit() && before.next_place()
            < 0x100_0000,
        r is Some ==> r->0 == 0x0a00_0000 + before.next_place(),
        r is Some ==> after.next_place() == before.next_place() + 1,
        r is Some ==> after.stand_ins().dom().len() == before.stand_ins().dom().len() + 1,
        r is None ==> after == before,
{
}

/// The range of stand-ins is 10.0.0.0 to 10.255.255.255.
pub proof fn the_range_is_ten(ip: u32)
    ensures
        in_fake_range(ip) <==> 0x0a00_0000 <= ip <= 0x0aff_ffff,
{
}

/// An address is known exactly where some proxy has it, healthy or not and
/// whatever its port.
pub proof fn addresses_of_proxies_are_known(proxies: Seq<OperaProxyEntry>, ip: IpAddress, i: int)
    ensures
        0 <= i < proxies.len() && proxies[i].addr.ip == ip ==> has_ip(proxies, ip),
        (forall|k: int| 0 <= k < proxies.len() ==> (#[trigger] proxies[k]).addr.ip != ip)
            ==> !has_ip(proxies, ip),
{
}

} // verus!
