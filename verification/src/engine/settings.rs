//! How the pipeline is set up.
use vstd::prelude::*;

use crate::engine::outbound::TuneParams;
use crate::ip::{Endpoint, IpAddress};
use crate::text::{owned, owned_all, same_text, starts_with, str_views, views};

verus! {

/// The settings of a profile.
#[derive(Debug, Clone)]
pub struct StrategyProfileConfig {
    pub name: String,
    pub protocol: String,
    pub params: TuneParams,
    pub enabled: Option<bool>,
}

/// The settings of the pipeline.
#[derive(Debug, Clone)]
pub struct ProcessingConfig {
    pub seq_spoof_enabled: bool,
    pub fake_sni: String,
    pub hop_tab_enabled: bool,
    pub geo_routing_enabled: bool,
    /// The port on which TLS is worked on.
    pub desync_port: u16,
    /// Whether packets from elsewhere are left alone.
    pub only_outbound: bool,
    pub stats_print_interval_secs: u64,
    /// Techniques by name.
    pub techniques: Vec<String>,
    pub strategies: Vec<StrategyProfileConfig>,
}

impl Default for ProcessingConfig {
    fn default() -> (r: ProcessingConfig)
        ensures
            r.seq_spoof_enabled,
            r.fake_sni@ == "www.google.com"@,
            r.hop_tab_enabled,
            r.geo_routing_enabled,
            r.desync_port == 443,
            r.only_outbound,
            r.stats_print_interval_secs == 60,
            r.techniques@.len() == 0,
            r.strategies@.len() == 0,
    {
        ProcessingConfig {
            seq_spoof_enabled: true,
            fake_sni: owned("www.google.com"),
            hop_tab_enabled: true,
            geo_routing_enabled: true,
            desync_port: 443,
            only_outbound: true,
            stats_print_interval_secs: 60,
            techniques: Vec::new(),
            strategies: Vec::new(),
        }
    }
}

/// How many workers there are: one for each processor, two to sixteen.
pub fn worker_count(cpus: usize) -> (r: usize)
    ensures
        r == (if cpus < 2 {
            2
        } else if cpus > 16 {
            16
        } else {
            cpus
        }),
{
    if cpus < 2 {
        2
    } else if cpus > 16 {
        16
    } else {
        cpus
    }
}

/// How many threads the I/O runtime has: half the processors and one, at
/// least two.
pub fn io_threads(cpus: usize) -> (r: usize)
    ensures
        r == (if cpus < 2 {
            2
        } else {
            cpus / 2 + 1
        }),
        r >= 2,
{
    let cpus: usize = if cpus < 2 {
        2
    } else {
        cpus
    };
    cpus / 2 + 1
}

/// How many threads the CPU pool has: one for each processor, at least two.
pub fn cpu_threads(cpus: usize) -> (r: usize)
    ensures
        r == (if cpus < 2 {
            2
        } else {
            cpus
        }),
{
    if cpus < 2 {
        2
    } else {
        cpus
    }
}

/// The parameters that were last given to a profile among some entries.
pub open spec fn last_given(entries: Seq<(String, TuneParams)>, name: Seq<char>) -> Option<
    TuneParams,
>
    decreases entries.len(),
{
    if entries.len() == 0 {
        None
    } else if entries.last().0@ == name {
        Some(entries.last().1)
    } else {
        last_given(entries.drop_last(), name)
    }
}

/// The profiles that were made active by hand, with their parameters.
#[derive(Debug, Clone)]
pub struct TuneOverrides {
    entries: Vec<(String, TuneParams)>,
}

impl View for TuneOverrides {
    type V = Map<Seq<char>, TuneParams>;

    closed spec fn view(&self) -> Map<Seq<char>, TuneParams> {
        Map::new(
            |name: Seq<char>| last_given(self.entries@, name) is Some,
            |name: Seq<char>| last_given(self.entries@, name)->0,
        )
    }
}

/// The overrides after the first `n` profiles of the settings: those that are
/// enabled, with their parameters.
pub open spec fn enabled_profiles(s: Seq<StrategyProfileConfig>, n: int) -> Map<
    Seq<char>,
    TuneParams,
>
    decreases n,
{
    if n <= 0 {
        Map::empty()
    } else if s[n - 1].enabled == Some(true) {
        enabled_profiles(s, n - 1).insert(s[n - 1].name@, s[n - 1].params)
    } else {
        enabled_profiles(s, n - 1)
    }
}

impl TuneOverrides {
    /// The profiles that the settings enable.
    pub fn new(config: &ProcessingConfig) -> (r: TuneOverrides)
        ensures
            r@ == enabled_profiles(config.strategies@, config.strategies@.len() as int),
    {
        let mut r: TuneOverrides = TuneOverrides { entries: Vec::new() };
        let mut i: usize = 0;
        assert(r@ =~= enabled_profiles(config.strategies@, 0));
        while i < config.strategies.len()
            invariant
                i <= config.strategies@.len(),
                r@ == enabled_profiles(config.strategies@, i as int),
            decreases config.strategies@.len() - i,
        {
            let s: &StrategyProfileConfig = &config.strategies[i];
            if let Some(true) = s.enabled {
                r.set_override(s.name.as_str(), s.params);
            }
            i = i + 1;
        }
        r
    }

    /// Gives a profile parameters, in place of those that it had.
    pub fn set_override(&mut self, name: &str, params: TuneParams)
        ensures
            final(self)@ == old(self)@.insert(name@, params),
    {
        let ghost before: Map<Seq<char>, TuneParams> = self@;
        let ghost held: Seq<(String, TuneParams)> = self.entries@;
        self.entries.push((owned(name), params));
        assert(self.entries@.drop_last() =~= held);
        assert(self@ =~= before.insert(name@, params));
    }

    /// Takes the parameters of a profile away.
    pub fn clear_override(&mut self, name: &str)
        ensures
            final(self)@ == old(self)@.remove(name@),
    {
        let ghost before: Map<Seq<char>, TuneParams> = self@;
        let mut kept: Vec<(String, TuneParams)> = Vec::new();
        let mut i: usize = 0;
        while i < self.entries.len()
            invariant
                i <= self.entries@.len(),
                self.entries@ == old(self).entries@,
                forall|n: Seq<char>| #[trigger]
                    last_given(kept@, n) == (if n == name@ {
                        None
                    } else {
                        last_given(self.entries@.take(i as int), n)
                    }),
            decreases self.entries@.len() - i,
        {
            let ghost prefix: Seq<(String, TuneParams)> = self.entries@.take(i as int);
            let ghost held: Seq<(String, TuneParams)> = kept@;
            assert(self.entries@.take(i + 1).drop_last() =~= prefix);
            assert(self.entries@.take(i + 1).last() == self.entries@[i as int]);
            if !same_text(self.entries[i].0.as_str(), name) {
                kept.push((owned(self.entries[i].0.as_str()), self.entries[i].1));
                assert(kept@.drop_last() =~= held);
            }
            i = i + 1;
            assert forall|n: Seq<char>| #[trigger]
                last_given(kept@, n) == (if n == name@ {
                    None
                } else {
                    last_given(self.entries@.take(i as int), n)
                }) by {
                assert(last_given(held, n) == (if n == name@ {
                    None
                } else {
                    last_given(prefix, n)
                }));
            }
        }
        assert(self.entries@.take(i as int) =~= self.entries@);
        self.entries = kept;
        assert(self@ =~= before.remove(name@));
    }

    /// The parameters that were given to a profile.
    pub fn override_for(&self, name: &str) -> (r: Option<TuneParams>)
        ensures
            r == (if self@.contains_key(name@) {
                Some(self@[name@])
            } else {
                None
            }),
    {
        let mut i: usize = self.entries.len();
        assert(self.entries@.take(i as int) =~= self.entries@);
        while i > 0
            invariant
                i <= self.entries@.len(),
                last_given(self.entries@, name@) == last_given(self.entries@.take(i as int), name@),
            decreases i,
        {
            let ghost prefix: Seq<(String, TuneParams)> = self.entries@.take(i as int);
            i = i - 1;
            assert(prefix.drop_last() =~= self.entries@.take(i as int));
            assert(prefix.last() == self.entries@[i as int]);
            if same_text(self.entries[i].0.as_str(), name) {
                return Some(self.entries[i].1);
            }
        }
        None
    }
}

/// Whether a technique works on QUIC or UDP.
pub open spec fn works_on_quic(name: Seq<char>) -> bool {
    crate::text::stands_at(name, "Quic"@, 0) || name == "DoppelgangerGrease"@ || name
        == "UdpCoalescing"@
}

/// Whether QUIC has to be captured: some technique works on it.
pub fn enable_quic(techniques: &Vec<String>) -> (r: bool)
    ensures
        r == (exists|i: int|
            0 <= i < techniques@.len() && works_on_quic((#[trigger] techniques@[i])@)),
{
    let mut i: usize = 0;
    while i < techniques.len()
        invariant
            i <= techniques@.len(),
            forall|k: int| 0 <= k < i ==> !works_on_quic((#[trigger] techniques@[k])@),
        decreases techniques@.len() - i,
    {
        let name: &str = techniques[i].as_str();
        if starts_with(name, "Quic") || same_text(name, "DoppelgangerGrease") || same_text(
            name,
            "UdpCoalescing",
        ) {
            assert(works_on_quic(techniques@[i as int]@));
            return true;
        }
        i = i + 1;
    }
    false
}

/// The first of the upstream proxies: 185.167.238.201.
pub const FIRST_PROXY: u32 = 0xb9a7_eec9;

/// The port of the upstream proxies.
pub const PROXY_PORT: u16 = 1080;

/// The upstream proxies: five neighbours, or only the first where packets are
/// not captured.
pub fn upstream_proxies(api_only: bool) -> (r: Vec<Endpoint>)
    ensures
        r@ == Seq::new(
            if api_only {
                1nat
            } else {
                5nat
            },
            |i: int|
                Endpoint { ip: IpAddress::V4((FIRST_PROXY + i) as u32), port: PROXY_PORT },
        ),
{
    let n: u32 = if api_only {
        1
    } else {
        5
    };
    let mut r: Vec<Endpoint> = Vec::new();
    let mut i: u32 = 0;
    while i < n
        invariant
            i <= n <= 5,
            r@.len() == i,
            forall|k: int|
                0 <= k < i ==> #[trigger] r@[k] == (Endpoint {
                    ip: IpAddress::V4((FIRST_PROXY + k) as u32),
                    port: PROXY_PORT,
                }),
        decreases n - i,
    {
        r.push(Endpoint { ip: IpAddress::V4(FIRST_PROXY + i), port: PROXY_PORT });
        i = i + 1;
    }
    assert(r@ =~= Seq::new(
        if api_only {
            1nat
        } else {
            5nat
        },
        |i: int| Endpoint { ip: IpAddress::V4((FIRST_PROXY + i) as u32), port: PROXY_PORT },
    ));
    r
}

/// The numbers that the pipeline is built with.
#[derive(Debug, Clone, Copy)]
pub struct PipelineLimits {
    /// How many packets may wait in each queue to be handled elsewhere.
    pub offload_queue: usize,
    /// How many packets may wait for each worker.
    pub worker_queue: usize,
    /// How long an idle connection is remembered.
    pub conntrack_secs: u64,
    /// How often stale redirects are looked for, and how old one may be.
    pub redirect_sweep_secs: u64,
    pub redirect_max_age_secs: u64,
    /// How often parts of ClientHellos are cleaned up.
    pub reassembly_gc_secs: u64,
    /// After how many resets, within what time, for how long.
    pub escalation: (usize, u64, u64),
}

/// The numbers that the pipeline is built with. Where packets are not
/// captured, queues are short and the circuit breaker has fixed numbers.
pub fn pipeline_limits(api_only: bool, breaker: (usize, u64, u64)) -> (r: PipelineLimits)
    ensures
        r == (PipelineLimits {
            offload_queue: if api_only {
                10
            } else {
                10000
            },
            worker_queue: 8192,
            conntrack_secs: 120,
            redirect_sweep_secs: 30,
            redirect_max_age_secs: 300,
            reassembly_gc_secs: 5,
            escalation: if api_only {
                (10, 30, 30)
            } else {
                breaker
            },
        }),
{
    PipelineLimits {
        offload_queue: if api_only {
            10
        } else {
            10000
        },
        worker_queue: 8192,
        conntrack_secs: 120,
        redirect_sweep_secs: 30,
        redirect_max_age_secs: 300,
        reassembly_gc_secs: 5,
        escalation: if api_only {
            (10, 30, 30)
        } else {
            breaker
        },
    }
}

/// The settings of the name service.
#[derive(Debug, Clone)]
pub struct DnsProxySettings {
    pub enabled: bool,
    pub adblock_enabled: bool,
    pub doh_servers: Vec<String>,
    pub system_dns_servers: Vec<String>,
    pub adblock_domains: Vec<String>,
    pub ttl: u32,
}

/// The settings of the name service for a resolver and a time to live.
pub fn dns_proxy_settings(doh_url: &str, ttl: u32) -> (r: DnsProxySettings)
    ensures
        r.enabled,
        !r.adblock_enabled,
        views(r.doh_servers@) == seq![doh_url@],
        views(r.system_dns_servers@) == seq!["8.8.8.8"@],
        views(r.adblock_domains@) == seq![
            "doubleclick.net"@,
            "googlesyndication.com"@,
            "googleadservices.com"@,
            "google-analytics.com"@,
        ],
        r.ttl == ttl,
{
    let doh: [&str; 1] = [doh_url];
    let system: [&str; 1] = ["8.8.8.8"];
    let adblock: [&str; 4] = [
        "doubleclick.net",
        "googlesyndication.com",
        "googleadservices.com",
        "google-analytics.com",
    ];
    assert(str_views(doh@) =~= seq![doh_url@]);
    assert(str_views(system@) =~= seq!["8.8.8.8"@]);
    assert(str_views(adblock@) =~= seq![
        "doubleclick.net"@,
        "googlesyndication.com"@,
        "googleadservices.com"@,
        "google-analytics.com"@,
    ]);
    DnsProxySettings {
        enabled: true,
        adblock_enabled: false,
        doh_servers: owned_all(doh.as_slice()),
        system_dns_servers: owned_all(system.as_slice()),
        adblock_domains: owned_all(adblock.as_slice()),
        ttl,
    }
}

/// The domains by which a whitelist is recognised, where the user has no list
/// of their own.
pub fn default_canaries() -> (r: &'static str)
    ensures
        r@ == "# Whitelist Detector Canary Domains\ngosuslugi.ru,positive\nvk.com,positive\nsberbank.ru,positive\nexample.com,negative\niana.org,negative\nrfc-editor.org,negative\n"@,
{
    "# Whitelist Detector Canary Domains\ngosuslugi.ru,positive\nvk.com,positive\nsberbank.ru,positive\nexample.com,negative\niana.org,negative\nrfc-editor.org,negative\n"
}

/// What a profile is for.
#[derive(Debug, Clone, Copy, PartialEq, Eq, Structural)]
pub enum StrategyCategory {
    Tls,
    Quic,
    Http,
    Other,
}

/// A profile that is registered.
#[derive(Debug, Clone)]
pub struct ProfileRef {
    pub id: u32,
    pub category: StrategyCategory,
    pub name: String,
}

/// The number of the profile that is applied to each kind of traffic.
#[derive(Debug, Clone, Copy, PartialEq, Eq, Structural)]
pub struct ProfileChoice {
    pub tls: u32,
    pub quic: u32,
    pub http: u32,
}

impl ProfileChoice {
    /// The choice with another profile for one kind of traffic. Other kinds
    /// have no choice.
    pub open spec fn with(self, category: StrategyCategory, id: u32) -> ProfileChoice {
        match category {
            StrategyCategory::Tls => ProfileChoice { tls: id, ..self },
            StrategyCategory::Quic => ProfileChoice { quic: id, ..self },
            StrategyCategory::Http => ProfileChoice { http: id, ..self },
            StrategyCategory::Other => self,
        }
    }

    /// The profile for a kind of traffic.
    pub open spec fn id_for(self, category: StrategyCategory) -> u32 {
        match category {
            StrategyCategory::Tls => self.tls,
            StrategyCategory::Quic => self.quic,
            _ => self.http,
        }
    }

    fn choose_profile(&mut self, category: StrategyCategory, id: u32)
        ensures
            *final(self) == old(self).with(category, id),
    {
        match category {
            StrategyCategory::Tls => {
                self.tls = id;
            },
            StrategyCategory::Quic => {
                self.quic = id;
            },
            StrategyCategory::Http => {
                self.http = id;
            },
            StrategyCategory::Other => {},
        }
    }
}

/// The profiles in use: the choice for each kind of traffic, and those that
/// were made active by hand.
#[derive(Debug, Clone)]
pub struct ActiveProfiles {
    pub choice: ProfileChoice,
    pub overrides: TuneOverrides,
}

impl ActiveProfiles {
    /// The given choice, and the profiles that the settings enable.
    pub fn new(config: &ProcessingConfig, choice: ProfileChoice) -> (r: ActiveProfiles)
        ensures
            r.choice == choice,
            r.overrides@ == enabled_profiles(
                config.strategies@,
                config.strategies@.len() as int,
            ),
    {
        ActiveProfiles { choice, overrides: TuneOverrides::new(config) }
    }

    /// The profile for a kind of traffic.
    pub fn resolve_active_profile(&self, category: StrategyCategory) -> (r: u32)
        requires
            category !is Other,
        ensures
            r == self.choice.id_for(category),
    {
        match category {
            StrategyCategory::Tls => self.choice.tls,
            StrategyCategory::Quic => self.choice.quic,
            _ => self.choice.http,
        }
    }

    /// Whether a profile is active: a probe recommends it, or it was made
    /// active by hand.
    pub fn is_profile_activated(&self, name: &str, recommended: bool) -> (r: bool)
        ensures
            r == (recommended || self.overrides@.contains_key(name@)),
    {
        recommended || self.overrides.override_for(name).is_some()
    }

    /// Makes a profile active with some parameters, and the one that is
    /// applied to its kind of traffic. A profile that is not known changes
    /// nothing; says whether it is known.
    pub fn apply_strategy_tune(&mut self, profile: &Option<ProfileRef>, params: TuneParams) -> (r:
        bool)
        ensures
            r == (profile is Some),
            match *profile {
                Some(p) => {
                    &&& final(self).choice == old(self).choice.with(p.category, p.id)
                    &&& final(self).overrides@ == old(self).overrides@.insert(p.name@, params)
                },
                None => *final(self) == *old(self),
            },
    {
        match profile {
            Some(p) => {
                self.choice.choose_profile(p.category, p.id);
                self.overrides.set_override(p.name.as_str(), params);
                true
            },
            None => false,
        }
    }

    /// Takes back what made a profile active by hand, and goes back to the
    /// default profile of its kind of traffic, where there is one. A profile
    /// that is not known changes nothing; says whether it is known.
    pub fn clear_strategy_tune(&mut self, profile: &Option<ProfileRef>, default_id: Option<u32>)
        -> (r: bool)
        ensures
            r == (profile is Some),
            match *profile {
                Some(p) => {
                    &&& final(self).choice == (match default_id {
                        Some(id) => old(self).choice.with(p.category, id),
                        None => old(self).choice,
                    })
                    &&& final(self).overrides@ == old(self).overrides@.remove(p.name@)
                },
                None => *final(self) == *old(self),
            },
    {
        match profile {
            Some(p) => {
                if let Some(id) = default_id {
                    self.choice.choose_profile(p.category, id);
                }
                self.overrides.clear_override(p.name.as_str());
                true
            },
            None => false,
        }
    }
}

/// Clearing a profile after applying it brings the default back, and leaves
/// the other kinds of traffic alone. In between the profile is active with its
/// parameters, afterwards it is not, and no other profile is touched.
pub proof fn clearing_restores_the_default(
    choice: ProfileChoice,
    overrides: Map<Seq<char>, TuneParams>,
    category: StrategyCategory,
    id: u32,
    name: Seq<char>,
    params: TuneParams,
    default_id: u32,
    other: Seq<char>,
)
    requires
        category !is Other,
        choice.id_for(category) == default_id,
        other != name,
    ensures
        choice.with(category, id).id_for(category) == id,
        choice.with(category, id).with(category, default_id) == choice,
        overrides.insert(name, params).contains_key(name),
        overrides.insert(name, params)[name] == params,
        !overrides.insert(name, params).remove(name).contains_key(name),
        overrides.insert(name, params).remove(name).contains_key(other)
            == overrides.contains_key(other),
        overrides.contains_key(other) ==> overrides.insert(name, params).remove(name)[other]
            == overrides[other],
{
}

/// How long a capture thread that got nothing waits.
#[derive(Debug, Clone, Copy, PartialEq, Eq, Structural)]
pub enum IdleStep {
    /// It spins once.
    Spin,
    /// It sleeps for a hundred microseconds.
    Sleep,
}

/// What a capture thread does after getting nothing, given how often in a row
/// it has spun.
pub fn idle_step(empty_spins: u32) -> (r: (u32, IdleStep))
    requires
        empty_spins < u32::MAX,
    ensures
        r == (if empty_spins + 1 < 100 {
            ((empty_spins + 1) as u32, IdleStep::Spin)
        } else {
            (0u32, IdleStep::Sleep)
        }),
        r.0 < 100,
{
    if empty_spins + 1 < 100 {
        (empty_spins + 1, IdleStep::Spin)
    } else {
        (0, IdleStep::Sleep)
    }
}

/// A profile is made active by the settings exactly where an entry enables it;
/// the last such entry gives its parameters.
pub proof fn enabled_profiles_are_active(s: Seq<StrategyProfileConfig>, n: int, i: int)
    requires
        0 <= i < n <= s.len(),
        s[i].enabled == Some(true),
        forall|k: int|
            i < k < n && (#[trigger] s[k]).enabled == Some(true) ==> s[k].name@ != s[i].name@,
    ensures
        enabled_profiles(s, n).contains_key(s[i].name@),
        enabled_profiles(s, n)[s[i].name@] == s[i].params,
    decreases n,
{
    if i < n - 1 {
        assert(s[n - 1].enabled == Some(true) ==> s[n - 1].name@ != s[i].name@);
        enabled_profiles_are_active(s, n - 1, i);
    }
}

/// No profile is made active that no entry of the settings enables.
pub proof fn other_profiles_are_not_active(s: Seq<StrategyProfileConfig>, n: int, name: Seq<char>)
    requires
        0 <= n <= s.len(),
        forall|k: int|
            0 <= k < n && (#[trigger] s[k]).name@ == name ==> s[k].enabled != Some(true),
    ensures
        !enabled_profiles(s, n).contains_key(name),
    decreases n,
{
    if n > 0 {
        assert(s[n - 1].name@ == name ==> s[n - 1].enabled != Some(true));
        other_profiles_are_not_active(s, n - 1, name);
    }
}

/// Choosing a profile for one kind of traffic leaves the other kinds alone, and
/// each kind has a choice of its own.
pub proof fn choices_are_independent(
    choice: ProfileChoice,
    a: StrategyCategory,
    b: StrategyCategory,
    id: u32,
)
    requires
        a !is Other,
        b !is Other,
    ensures
        choice.with(a, id).id_for(a) == id,
        a != b ==> choice.with(a, id).id_for(b) == choice.id_for(b),
        choice.with(StrategyCategory::Other, id) == choice,
        choice.id_for(StrategyCategory::Tls) == choice.tls,
        choice.id_for(StrategyCategory::Quic) == choice.quic,
        choice.id_for(StrategyCategory::Http) == choice.http,
{
}

} // verus!
