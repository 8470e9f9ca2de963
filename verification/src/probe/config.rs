//! The settings of a probe.
use vstd::prelude::*;

use crate::text::{owned_all, str_views, views};

verus! {

/// The settings of a probe.
#[derive(Debug, Clone)]
pub struct ProbeConfig {
    /// DNS servers asked over UDP.
    pub dns_udp_servers: Vec<String>,
    /// DNS servers asked over HTTPS.
    pub dns_doh_urls: Vec<String>,
    /// Domains to test name resolution with.
    pub dns_test_domains: Vec<String>,
    /// Texts by which a block page is known.
    pub rkn_stub_substrings: Vec<String>,
    /// The time allowed for a DNS query.
    pub dns_timeout_ms: u64,
    /// The time allowed for a TCP connection.
    pub tcp_connect_timeout_ms: u64,
    /// How many addresses are tried at once.
    pub tcp_race_count: usize,
    /// The time allowed for a TLS connection.
    pub tls_connect_timeout_ms: u64,
    /// The time allowed for reading a handshake.
    pub tls_read_timeout_ms: u64,
    /// The time allowed for an HTTP response.
    pub http_read_timeout_ms: u64,
    /// How much of a response is read.
    pub http_max_bytes: usize,
    /// How many padded requests are sent.
    pub tcp16_requests: usize,
    /// The padding of a request in bytes.
    pub tcp16_pad_size: usize,
    /// The smallest volume at which a cut counts, in kilobytes.
    pub tcp16_min_kb: u64,
    /// The largest volume that is tested, in kilobytes.
    pub tcp16_max_kb: u64,
    /// How many round trips a request may take, in thousandths.
    pub tcp16_timeout_factor_milli: u64,
    /// The least time allowed for a request.
    pub tcp16_min_timeout_ms: u64,
    /// How long a fresh verdict is kept.
    pub hot_ttl_secs: u64,
    /// How long to wait between probes.
    pub probe_interval_secs: u64,
    /// How many blocked verdicts make one permanent.
    pub promote_threshold: u32,
    /// How many subdomains stand for their domain.
    pub family_threshold: usize,
}

impl Default for ProbeConfig {
    fn default() -> (r: ProbeConfig)
        ensures
            views(r.dns_udp_servers@) == seq![
                "8.8.8.8"@,
                "1.1.1.1"@,
                "9.9.9.9"@,
            ],
            views(r.dns_doh_urls@) == seq![
                "https://cloudflare-dns.com/dns-query"@,
                "https://dns.google/resolve"@,
            ],
            views(r.dns_test_domains@) == seq![
                "google.com"@,
                "youtube.com"@,
                "telegram.org"@,
            ],
            views(r.rkn_stub_substrings@) == seq![
                "роскомнадзор"@,
                "poiskman"@,
                "blockpage"@,
                "заблокир"@,
                "ограничен"@,
                "restricted"@,
                "roskomsvoboda"@,
                "internet-zapret"@,
                "technique-of-blocking"@,
                "decision of"@,
            ],
            r.dns_timeout_ms == 3000,
            r.tcp_connect_timeout_ms == 3000,
            r.tcp_race_count == 3,
            r.tls_connect_timeout_ms == 5000,
            r.tls_read_timeout_ms == 5000,
            r.http_read_timeout_ms == 8000,
            r.http_max_bytes == 32768,
            r.tcp16_requests == 16,
            r.tcp16_pad_size == 4096,
            r.tcp16_min_kb == 12,
            r.tcp16_max_kb == 69,
            r.tcp16_timeout_factor_milli == 3000,
            r.tcp16_min_timeout_ms == 1500,
            r.hot_ttl_secs == 86400,
            r.probe_interval_secs == 300,
            r.promote_threshold == 50,
            r.family_threshold == 10,
    {
        let dns_udp_servers: [&str; 3] = [
            "8.8.8.8",
            "1.1.1.1",
            "9.9.9.9",
        ];
        assert(str_views(dns_udp_servers@) =~= seq![
            "8.8.8.8"@,
            "1.1.1.1"@,
            "9.9.9.9"@,
        ]);
        let dns_doh_urls: [&str; 2] = [
            "https://cloudflare-dns.com/dns-query",
            "https://dns.google/resolve",
        ];
        assert(str_views(dns_doh_urls@) =~= seq![
            "https://cloudflare-dns.com/dns-query"@,
            "https://dns.google/resolve"@,
        ]);
        let dns_test_domains: [&str; 3] = [
            "google.com",
            "youtube.com",
            "telegram.org",
        ];
        assert(str_views(dns_test_domains@) =~= seq![
            "google.com"@,
            "youtube.com"@,
            "telegram.org"@,
        ]);
        let rkn_stub_substrings: [&str; 10] = [
            "роскомнадзор",
            "poiskman",
            "blockpage",
            "заблокир",
            "ограничен",
            "restricted",
            "roskomsvoboda",
            "internet-zapret",
            "technique-of-blocking",
            "decision of",
        ];
        assert(str_views(rkn_stub_substrings@) =~= seq![
            "роскомнадзор"@,
            "poiskman"@,
            "blockpage"@,
            "заблокир"@,
            "ограничен"@,
            "restricted"@,
            "roskomsvoboda"@,
            "internet-zapret"@,
            "technique-of-blocking"@,
            "decision of"@,
        ]);
        ProbeConfig {
            dns_udp_servers: owned_all(dns_udp_servers.as_slice()),
            dns_doh_urls: owned_all(dns_doh_urls.as_slice()),
            dns_test_domains: owned_all(dns_test_domains.as_slice()),
            rkn_stub_substrings: owned_all(rkn_stub_substrings.as_slice()),
            dns_timeout_ms: 3000,
            tcp_connect_timeout_ms: 3000,
            tcp_race_count: 3,
            tls_connect_timeout_ms: 5000,
            tls_read_timeout_ms: 5000,
            http_read_timeout_ms: 8000,
            http_max_bytes: 32768,
            tcp16_requests: 16,
            tcp16_pad_size: 4096,
            tcp16_min_kb: 12,
            tcp16_max_kb: 69,
            tcp16_timeout_factor_milli: 3000,
            tcp16_min_timeout_ms: 1500,
            hot_ttl_secs: 86400,
            probe_interval_secs: 300,
            promote_threshold: 50,
            family_threshold: 10,
        }
    }
}

} // verus!
