//! Ready lists of domains to probe.
use vstd::prelude::*;

use crate::probe::preset_places::no_domain_stands_twice;
use crate::text::{owned, owned_all, same_text, str_views, views};

verus! {

/// What a list of domains is about.
#[derive(Debug, Clone, Copy, PartialEq, Eq, Structural, Hash)]
pub enum PresetCategory {
    Video,
    Messenger,
    Social,
    Cdn,
    General,
    RegionSpecific,
}

/// A list of domains.
#[derive(Debug, Clone)]
pub struct PresetDomainList {
    pub id: String,
    pub name: String,
    pub category: PresetCategory,
    pub domains: Vec<String>,
}

/// The contents of a list.
pub struct PresetView {
    pub id: Seq<char>,
    pub name: Seq<char>,
    pub category: PresetCategory,
    pub domains: Seq<Seq<char>>,
}

impl View for PresetDomainList {
    type V = PresetView;

    open spec fn view(&self) -> PresetView {
        PresetView {
            id: self.id@,
            name: self.name@,
            category: self.category,
            domains: views(self.domains@),
        }
    }
}

/// The list "YouTube".
pub open spec fn youtube_preset() -> PresetView {
    PresetView {
        id: "youtube"@,
        name: "YouTube"@,
        category: PresetCategory::Video,
        domains: seq![
            "youtube.com"@,
            "youtu.be"@,
            "i.ytimg.com"@,
            "i9.ytimg.com"@,
            "yt3.ggpht.com"@,
            "yt4.ggpht.com"@,
            "googleapis.com"@,
            "jnn-pa.googleapis.com"@,
            "googleusercontent.com"@,
            "signaler-pa.youtube.com"@,
            "youtubei.googleapis.com"@,
            "manifest.googlevideo.com"@,
            "yt3.googleusercontent.com"@,
        ],
    }
}

/// The list "Google Video CDN".
pub open spec fn googlevideo_preset() -> PresetView {
    PresetView {
        id: "googlevideo"@,
        name: "Google Video CDN"@,
        category: PresetCategory::Video,
        domains: seq![
            "rr1---sn-4axm-n8vs.googlevideo.com"@,
            "rr1---sn-gvnuxaxjvh-o8ge.googlevideo.com"@,
            "rr1---sn-ug5onuxaxjvh-p3ul.googlevideo.com"@,
            "rr1---sn-ug5onuxaxjvh-n8v6.googlevideo.com"@,
            "rr4---sn-q4flrnsl.googlevideo.com"@,
            "rr10---sn-gvnuxaxjvh-304z.googlevideo.com"@,
            "rr14---sn-n8v7kn7r.googlevideo.com"@,
            "rr16---sn-axq7sn76.googlevideo.com"@,
            "rr1---sn-8ph2xajvh-5xge.googlevideo.com"@,
            "rr1---sn-gvnuxaxjvh-5gie.googlevideo.com"@,
            "rr12---sn-gvnuxaxjvh-bvwz.googlevideo.com"@,
            "rr5---sn-n8v7knez.googlevideo.com"@,
            "rr1---sn-u5uuxaxjvhg0-ocje.googlevideo.com"@,
            "rr2---sn-q4fl6ndl.googlevideo.com"@,
            "rr5---sn-gvnuxaxjvh-n8vk.googlevideo.com"@,
            "rr4---sn-jvhnu5g-c35d.googlevideo.com"@,
            "rr1---sn-q4fl6n6y.googlevideo.com"@,
            "rr2---sn-hgn7ynek.googlevideo.com"@,
            "rr1---sn-xguxaxjvh-gufl.googlevideo.com"@,
        ],
    }
}

/// The list "Telegram".
pub open spec fn telegram_preset() -> PresetView {
    PresetView {
        id: "telegram"@,
        name: "Telegram"@,
        category: PresetCategory::Messenger,
        domains: seq![
            "telegram.org"@,
            "core.telegram.org"@,
            "web.telegram.org"@,
            "webk.telegram.org"@,
            "my.telegram.org"@,
            "translations.telegram.org"@,
            "instantview.telegram.org"@,
            "blog.telegram.org"@,
            "comments.telegram.org"@,
            "verify.telegram.org"@,
            "login.telegram.org"@,
            "auth.telegram.org"@,
            "api.telegram.org"@,
            "promo.telegram.org"@,
            "desktop.telegram.org"@,
            "macos.telegram.org"@,
            "ios.telegram.org"@,
            "android.telegram.org"@,
            "reactions.telegram.org"@,
            "claims.telegram.org"@,
            "x.telegram.org"@,
            "help.telegram.org"@,
            "docs.telegram.org"@,
            "schema.telegram.org"@,
            "dev.telegram.org"@,
            "contest.telegram.org"@,
            "premium.telegram.org"@,
            "settings.telegram.org"@,
            "qr.telegram.org"@,
            "stickers.telegram.org"@,
            "emoji.telegram.org"@,
            "themes.telegram.org"@,
            "donate.telegram.org"@,
            "fragment.telegram.org"@,
            "ton.telegram.org"@,
            "wallet.telegram.org"@,
            "pay.telegram.org"@,
            "telegram.me"@,
            "telegram.dog"@,
            "telegra.ph"@,
            "telesco.pe"@,
            "web.telegram.me"@,
            "zws1.web.telegram.org"@,
            "zws2.web.telegram.org"@,
            "zws1.web.telegram.me"@,
            "zws2.web.telegram.me"@,
            "venus.web.telegram.org"@,
            "pluto.web.telegram.org"@,
            "aurora.web.telegram.org"@,
            "vesta.web.telegram.org"@,
            "voice.telegram.org"@,
            "cdn.telegram.org"@,
        ],
    }
}

/// The list "Discord".
pub open spec fn discord_preset() -> PresetView {
    PresetView {
        id: "discord"@,
        name: "Discord"@,
        category: PresetCategory::Messenger,
        domains: seq![
            "dis.gd"@,
            "discord.co"@,
            "discord.gg"@,
            "discord.app"@,
            "discord.com"@,
            "discord.dev"@,
            "discord.new"@,
            "discord.gift"@,
            "discord.gifts"@,
            "discord.media"@,
            "discord.store"@,
            "discord.design"@,
            "discordapp.com"@,
            "discordcdn.com"@,
            "discordsez.com"@,
            "discordsays.com"@,
            "discordmerch.com"@,
            "discordpartygames.com"@,
            "discordactivities.com"@,
            "stable.dl2.discordapp.net"@,
            "discord-attachments-uploads-prd.storage.googleapis.com"@,
        ],
    }
}

/// The list "Social Media".
pub open spec fn social_preset() -> PresetView {
    PresetView {
        id: "social"@,
        name: "Social Media"@,
        category: PresetCategory::Social,
        domains: seq![
            "snapchat.com"@,
            "snap.com"@,
            "linkedin.com"@,
            "facebook.com"@,
            "fb.com"@,
            "fb.me"@,
            "fbcdn.net"@,
            "messenger.com"@,
            "meta.com"@,
            "instagram.com"@,
            "static.cdninstagram.com"@,
            "proton.me"@,
            "medium.com"@,
            "x.com"@,
            "twitter.com"@,
            "soundcloud.com"@,
        ],
    }
}

/// The list "General".
pub open spec fn general_preset() -> PresetView {
    PresetView {
        id: "general"@,
        name: "General"@,
        category: PresetCategory::General,
        domains: seq![
            "rutracker.org"@,
            "nyaa.si"@,
            "rutor.org"@,
            "nnmclub.to"@,
            "speedtest.net"@,
            "ookla.com"@,
        ],
    }
}

/// The list "Cloudflare".
pub open spec fn cloudflare_preset() -> PresetView {
    PresetView {
        id: "cloudflare"@,
        name: "Cloudflare"@,
        category: PresetCategory::Cdn,
        domains: seq![
            "cloudflare.com"@,
            "cloudflare.net"@,
            "cloudflarecn.net"@,
            "cloudflare-ech.com"@,
        ],
    }
}

/// The list "Türkiye".
pub open spec fn turkiye_preset() -> PresetView {
    PresetView {
        id: "turkiye"@,
        name: "Türkiye"@,
        category: PresetCategory::RegionSpecific,
        domains: seq![
            "roblox.com"@,
            "wattpad.com"@,
            "pastebin.com"@,
            "4shared.com"@,
            "wikileaks.org"@,
            "bitly.com"@,
            "cutt.ly"@,
            "t2m.io"@,
        ],
    }
}

/// All lists.
pub open spec fn preset_table() -> Seq<PresetView> {
    seq![
        youtube_preset(),
        googlevideo_preset(),
        telegram_preset(),
        discord_preset(),
        social_preset(),
        general_preset(),
        cloudflare_preset(),
        turkiye_preset(),
    ]
}

/// The contents of some lists.
pub open spec fn preset_views(lists: Seq<PresetDomainList>) -> Seq<PresetView> {
    Seq::new(lists.len(), |i: int| lists[i]@)
}

fn preset(id: &str, name: &str, category: PresetCategory, domains: &[&str]) -> (r: PresetDomainList)
    ensures
        r@ == (PresetView { id: id@, name: name@, category, domains: str_views(domains@) }),
{
    PresetDomainList { id: owned(id), name: owned(name), category, domains: owned_all(domains) }
}

fn youtube_list() -> (r: PresetDomainList)
    ensures
        r@ == youtube_preset(),
{
    let domains: [&str; 13] = [
        "youtube.com",
        "youtu.be",
        "i.ytimg.com",
        "i9.ytimg.com",
        "yt3.ggpht.com",
        "yt4.ggpht.com",
        "googleapis.com",
        "jnn-pa.googleapis.com",
        "googleusercontent.com",
        "signaler-pa.youtube.com",
        "youtubei.googleapis.com",
        "manifest.googlevideo.com",
        "yt3.googleusercontent.com",
    ];
    assert(str_views(domains@) =~= youtube_preset().domains);
    preset("youtube", "YouTube", PresetCategory::Video, domains.as_slice())
}

fn googlevideo_list() -> (r: PresetDomainList)
    ensures
        r@ == googlevideo_preset(),
{
    let domains: [&str; 19] = [
        "rr1---sn-4axm-n8vs.googlevideo.com",
        "rr1---sn-gvnuxaxjvh-o8ge.googlevideo.com",
        "rr1---sn-ug5onuxaxjvh-p3ul.googlevideo.com",
        "rr1---sn-ug5onuxaxjvh-n8v6.googlevideo.com",
        "rr4---sn-q4flrnsl.googlevideo.com",
        "rr10---sn-gvnuxaxjvh-304z.googlevideo.com",
        "rr14---sn-n8v7kn7r.googlevideo.com",
        "rr16---sn-axq7sn76.googlevideo.com",
        "rr1---sn-8ph2xajvh-5xge.googlevideo.com",
        "rr1---sn-gvnuxaxjvh-5gie.googlevideo.com",
        "rr12---sn-gvnuxaxjvh-bvwz.googlevideo.com",
        "rr5---sn-n8v7knez.googlevideo.com",
        "rr1---sn-u5uuxaxjvhg0-ocje.googlevideo.com",
        "rr2---sn-q4fl6ndl.googlevideo.com",
        "rr5---sn-gvnuxaxjvh-n8vk.googlevideo.com",
        "rr4---sn-jvhnu5g-c35d.googlevideo.com",
        "rr1---sn-q4fl6n6y.googlevideo.com",
        "rr2---sn-hgn7ynek.googlevideo.com",
        "rr1---sn-xguxaxjvh-gufl.googlevideo.com",
    ];
    assert(str_views(domains@) =~= googlevideo_preset().domains);
    preset("googlevideo", "Google Video CDN", PresetCategory::Video, domains.as_slice())
}

fn telegram_list() -> (r: PresetDomainList)
    ensures
        r@ == telegram_preset(),
{
    let domains: [&str; 52] = [
        "telegram.org",
        "core.telegram.org",
        "web.telegram.org",
        "webk.telegram.org",
        "my.telegram.org",
        "translations.telegram.org",
        "instantview.telegram.org",
        "blog.telegram.org",
        "comments.telegram.org",
        "verify.telegram.org",
        "login.telegram.org",
        "auth.telegram.org",
        "api.telegram.org",
        "promo.telegram.org",
        "desktop.telegram.org",
        "macos.telegram.org",
        "ios.telegram.org",
        "android.telegram.org",
        "reactions.telegram.org",
        "claims.telegram.org",
        "x.telegram.org",
        "help.telegram.org",
        "docs.telegram.org",
        "schema.telegram.org",
        "dev.telegram.org",
        "contest.telegram.org",
        "premium.telegram.org",
        "settings.telegram.org",
        "qr.telegram.org",
        "stickers.telegram.org",
        "emoji.telegram.org",
        "themes.telegram.org",
        "donate.telegram.org",
        "fragment.telegram.org",
        "ton.telegram.org",
        "wallet.telegram.org",
        "pay.telegram.org",
        "telegram.me",
        "telegram.dog",
        "telegra.ph",
        "telesco.pe",
        "web.telegram.me",
        "zws1.web.telegram.org",
        "zws2.web.telegram.org",
        "zws1.web.telegram.me",
        "zws2.web.telegram.me",
        "venus.web.telegram.org",
        "pluto.web.telegram.org",
        "aurora.web.telegram.org",
        "vesta.web.telegram.org",
        "voice.telegram.org",
        "cdn.telegram.org",
    ];
    assert(str_views(domains@) =~= telegram_preset().domains);
    preset("telegram", "Telegram", PresetCategory::Messenger, domains.as_slice())
}

fn discord_list() -> (r: PresetDomainList)
    ensures
        r@ == discord_preset(),
{
    let domains: [&str; 21] = [
        "dis.gd",
        "discord.co",
        "discord.gg",
        "discord.app",
        "discord.com",
        "discord.dev",
        "discord.new",
        "discord.gift",
        "discord.gifts",
        "discord.media",
        "discord.store",
        "discord.design",
        "discordapp.com",
        "discordcdn.com",
        "discordsez.com",
        "discordsays.com",
        "discordmerch.com",
        "discordpartygames.com",
        "discordactivities.com",
        "stable.dl2.discordapp.net",
        "discord-attachments-uploads-prd.storage.googleapis.com",
    ];
    assert(str_views(domains@) =~= discord_preset().domains);
    preset("discord", "Discord", PresetCategory::Messenger, domains.as_slice())
}

fn social_list() -> (r: PresetDomainList)
    ensures
        r@ == social_preset(),
{
    let domains: [&str; 16] = [
        "snapchat.com",
        "snap.com",
        "linkedin.com",
        "facebook.com",
        "fb.com",
        "fb.me",
        "fbcdn.net",
        "messenger.com",
        "meta.com",
        "instagram.com",
        "static.cdninstagram.com",
        "proton.me",
        "medium.com",
        "x.com",
        "twitter.com",
        "soundcloud.com",
    ];
    assert(str_views(domains@) =~= social_preset().domains);
    preset("social", "Social Media", PresetCategory::Social, domains.as_slice())
}

fn general_list() -> (r: PresetDomainList)
    ensures
        r@ == general_preset(),
{
    let domains: [&str; 6] = [
        "rutracker.org",
        "nyaa.si",
        "rutor.org",
        "nnmclub.to",
        "speedtest.net",
        "ookla.com",
    ];
    assert(str_views(domains@) =~= general_preset().domains);
    preset("general", "General", PresetCategory::General, domains.as_slice())
}

fn cloudflare_list() -> (r: PresetDomainList)
    ensures
        r@ == cloudflare_preset(),
{
    let domains: [&str; 4] = [
        "cloudflare.com",
        "cloudflare.net",
        "cloudflarecn.net",
        "cloudflare-ech.com",
    ];
    assert(str_views(domains@) =~= cloudflare_preset().domains);
    preset("cloudflare", "Cloudflare", PresetCategory::Cdn, domains.as_slice())
}

fn turkiye_list() -> (r: PresetDomainList)
    ensures
        r@ == turkiye_preset(),
{
    let domains: [&str; 8] = [
        "roblox.com",
        "wattpad.com",
        "pastebin.com",
        "4shared.com",
        "wikileaks.org",
        "bitly.com",
        "cutt.ly",
        "t2m.io",
    ];
    assert(str_views(domains@) =~= turkiye_preset().domains);
    preset("turkiye", "Türkiye", PresetCategory::RegionSpecific, domains.as_slice())
}

/// All lists.
pub fn all_presets() -> (r: Vec<PresetDomainList>)
    ensures
        preset_views(r@) == preset_table(),
{
    let mut r: Vec<PresetDomainList> = Vec::new();
    r.push(youtube_list());
    r.push(googlevideo_list());
    r.push(telegram_list());
    r.push(discord_list());
    r.push(social_list());
    r.push(general_list());
    r.push(cloudflare_list());
    r.push(turkiye_list());
    assert(preset_views(r@) =~= preset_table());
    r
}

/// The first list from `i` on with an id.
pub open spec fn preset_with_id(table: Seq<PresetView>, id: Seq<char>, i: int) -> Option<PresetView>
    decreases table.len() - i,
{
    if i < 0 || i >= table.len() {
        None
    } else if table[i].id == id {
        Some(table[i])
    } else {
        preset_with_id(table, id, i + 1)
    }
}

/// The list with an id.
pub fn get_preset(id: &str) -> (r: Option<PresetDomainList>)
    ensures
        match r {
            Some(l) => preset_with_id(preset_table(), id@, 0) == Some(l@),
            None => preset_with_id(preset_table(), id@, 0) is None,
        },
{
    let mut all: Vec<PresetDomainList> = all_presets();
    let mut i: usize = 0;
    while i < all.len()
        invariant
            i <= all@.len(),
            preset_views(all@) == preset_table(),
            all@.len() == preset_table().len(),
            preset_with_id(preset_table(), id@, 0) == preset_with_id(preset_table(), id@, i as int),
        decreases all@.len() - i,
    {
        assert(all@[i as int]@ == preset_views(all@)[i as int]);
        if same_text(all[i].id.as_str(), id) {
            return Some(all.swap_remove(i));
        }
        i = i + 1;
    }
    None
}

/// Whether an id is among some ids.
pub open spec fn asked_for(ids: Seq<&str>, id: Seq<char>) -> bool {
    exists|i: int| 0 <= i < ids.len() && #[trigger] ids[i]@ == id
}

/// Whether a domain is on one of the first `n` lists that are asked for.
pub open spec fn listed(ids: Seq<&str>, n: int, domain: Seq<char>) -> bool {
    exists|i: int|
        0 <= i < n && i < preset_table().len() && asked_for(ids, (#[trigger] preset_table()[i]).id)
            && preset_table()[i].domains.contains(domain)
}

fn is_asked_for(ids: &[&str], id: &str) -> (r: bool)
    ensures
        r == asked_for(ids@, id@),
{
    let mut i: usize = 0;
    while i < ids.len()
        invariant
            i <= ids@.len(),
            forall|j: int| 0 <= j < i ==> #[trigger] ids@[j]@ != id@,
        decreases ids@.len() - i,
    {
        if same_text(ids[i], id) {
            assert(ids@[i as int]@ == id@);
            return true;
        }
        i = i + 1;
    }
    false
}

fn has_text(list: &Vec<String>, s: &str) -> (r: bool)
    ensures
        r == views(list@).contains(s@),
{
    let mut i: usize = 0;
    while i < list.len()
        invariant
            i <= list@.len(),
            forall|j: int| 0 <= j < i ==> views(list@)[j] != s@,
        decreases list@.len() - i,
    {
        if same_text(list[i].as_str(), s) {
            assert(views(list@)[i as int] == s@);
            return true;
        }
        i = i + 1;
    }
    false
}

fn push_new(out: &mut Vec<String>, s: &str)
    requires
        views(old(out)@).no_duplicates(),
    ensures
        views(final(out)@).no_duplicates(),
        forall|x: Seq<char>| #[trigger]
            views(final(out)@).contains(x) <==> views(old(out)@).contains(x) || x == s@,
        !views(old(out)@).contains(s@) ==> final(out)@.len() == old(out)@.len() + 1,
{
    let ghost before: Seq<Seq<char>> = views(out@);
    if !has_text(out, s) {
        out.push(owned(s));
        proof {
            let after = views(out@);
            assert(after =~= before.push(s@));
            assert(after[before.len() as int] == s@);
            assert forall|x: Seq<char>| #[trigger]
                after.contains(x) <==> before.contains(x) || x == s@ by {
                if before.contains(x) {
                    let j = choose|j: int| 0 <= j < before.len() && before[j] == x;
                    assert(after[j] == x);
                }
                if after.contains(x) {
                    let j = choose|j: int| 0 <= j < after.len() && after[j] == x;
                    if j < before.len() {
                        assert(before[j] == x);
                    }
                }
            }
        }
    }
}

/// Whether the domains are distinct and none of them is held.
spec fn all_new(held: Seq<Seq<char>>, domains: Seq<Seq<char>>) -> bool {
    domains.no_duplicates() && forall|j: int|
        0 <= j < domains.len() ==> !held.contains(#[trigger] domains[j])
}

fn push_all_new(out: &mut Vec<String>, domains: &Vec<String>)
    requires
        views(old(out)@).no_duplicates(),
    ensures
        views(final(out)@).no_duplicates(),
        all_new(views(old(out)@), views(domains@)) ==> final(out)@.len() == old(out)@.len()
            + domains@.len(),
        forall|x: Seq<char>| #[trigger]
            views(final(out)@).contains(x) <==> views(old(out)@).contains(x) || views(
                domains@,
            ).contains(x),
{
    let ghost before: Seq<Seq<char>> = views(out@);
    let mut i: usize = 0;
    while i < domains.len()
        invariant
            i <= domains@.len(),
            views(out@).no_duplicates(),
            forall|x: Seq<char>| #[trigger]
                views(out@).contains(x) <==> before.contains(x) || views(domains@).take(
                    i as int,
                ).contains(x),
            all_new(before, views(domains@)) ==> out@.len() == before.len() + i,
        decreases domains@.len() - i,
    {
        proof {
            let all = views(domains@);
            if all_new(before, all) && views(out@).contains(all[i as int]) {
                let t0 = all.take(i as int);
                let j = choose|j: int| 0 <= j < t0.len() && t0[j] == all[i as int];
                assert(all[j] == all[i as int]);
            }
        }
        push_new(out, domains[i].as_str());
        proof {
            let all = views(domains@);
            let t0 = all.take(i as int);
            let t1 = all.take(i + 1);
            assert(t1 =~= t0.push(all[i as int]));
            assert forall|x: Seq<char>| #[trigger]
                t1.contains(x) <==> t0.contains(x) || x == all[i as int] by {
                if t0.contains(x) {
                    let j = choose|j: int| 0 <= j < t0.len() && t0[j] == x;
                    assert(t1[j] == x);
                }
                if x == all[i as int] {
                    assert(t1[i as int] == x);
                }
                if t1.contains(x) {
                    let j = choose|j: int| 0 <= j < t1.len() && t1[j] == x;
                    if j < i {
                        assert(t0[j] == x);
                    }
                }
            }
        }
        i = i + 1;
    }
    assert(views(domains@).take(i as int) =~= views(domains@));
}

/// How many entries the first `n` lists have together.
pub open spec fn entries(table: Seq<PresetView>, n: int) -> nat
    decreases n,
{
    if n <= 0 {
        0
    } else {
        entries(table, n - 1) + table[n - 1].domains.len()
    }
}

/// How many entries those of the first `n` lists have together that are asked
/// for.
pub open spec fn asked_entries(ids: Seq<&str>, n: int) -> nat
    decreases n,
{
    if n <= 0 {
        0
    } else if asked_for(ids, preset_table()[n - 1].id) {
        asked_entries(ids, n - 1) + preset_table()[n - 1].domains.len()
    } else {
        asked_entries(ids, n - 1)
    }
}

proof fn next_list_is_new(ids: Seq<&str>, i: int, held: Seq<Seq<char>>)
    requires
        0 <= i < preset_table().len(),
        forall|x: Seq<char>| #[trigger] held.contains(x) <==> listed(ids, i, x),
    ensures
        all_new(held, preset_table()[i].domains),
{
    let here = preset_table()[i].domains;
    assert forall|a: int, b: int| 0 <= a < here.len() && 0 <= b < here.len() && a != b implies here[a]
        != here[b] by {
        if here[a] == here[b] {
            no_domain_stands_twice(i, a, i, b);
        }
    }
    assert forall|a: int| 0 <= a < here.len() implies !held.contains(#[trigger] here[a]) by {
        if held.contains(here[a]) {
            let k = choose|k: int|
                0 <= k < i && k < preset_table().len() && asked_for(
                    ids,
                    (#[trigger] preset_table()[k]).id,
                ) && preset_table()[k].domains.contains(here[a]);
            let there = preset_table()[k].domains;
            let b = choose|b: int| 0 <= b < there.len() && there[b] == here[a];
            no_domain_stands_twice(i, a, k, b);
        }
    }
}

/// The domains of the lists with the given ids, each once, in no promised
/// order.
pub fn get_domains_by_ids(ids: &[&str]) -> (r: Vec<String>)
    ensures
        views(r@).no_duplicates(),
        forall|x: Seq<char>| #[trigger]
            views(r@).contains(x) <==> listed(ids@, preset_table().len() as int, x),
        r@.len() == asked_entries(ids@, preset_table().len() as int),
{
    let all: Vec<PresetDomainList> = all_presets();
    let mut r: Vec<String> = Vec::new();
    let mut i: usize = 0;
    assert(views(r@) =~= Seq::<Seq<char>>::empty());
    while i < all.len()
        invariant
            i <= all@.len(),
            preset_views(all@) == preset_table(),
            all@.len() == preset_table().len(),
            views(r@).no_duplicates(),
            forall|x: Seq<char>| #[trigger] views(r@).contains(x) <==> listed(ids@, i as int, x),
            r@.len() == asked_entries(ids@, i as int),
        decreases all@.len() - i,
    {
        let ghost held: Seq<Seq<char>> = views(r@);
        let ghost here: PresetView = preset_table()[i as int];
        assert(all@[i as int]@ == preset_views(all@)[i as int]);
        proof {
            next_list_is_new(ids@, i as int, held);
        }
        let wanted: bool = is_asked_for(ids, all[i].id.as_str());
        if wanted {
            push_all_new(&mut r, &all[i].domains);
        }
        proof {
            assert forall|x: Seq<char>| #[trigger] views(r@).contains(x) <==> listed(
                ids@,
                i + 1,
                x,
            ) by {
                if listed(ids@, i as int, x) {
                    let j = choose|j: int|
                        0 <= j < i && j < preset_table().len() && asked_for(
                            ids@,
                            (#[trigger] preset_table()[j]).id,
                        ) && preset_table()[j].domains.contains(x);
                    assert(asked_for(ids@, preset_table()[j].id));
                    assert(listed(ids@, i + 1, x));
                }
                if wanted && here.domains.contains(x) {
                    assert(asked_for(ids@, preset_table()[i as int].id));
                    assert(listed(ids@, i + 1, x));
                }
                if listed(ids@, i + 1, x) {
                    let j = choose|j: int|
                        0 <= j < i + 1 && j < preset_table().len() && asked_for(
                            ids@,
                            (#[trigger] preset_table()[j]).id,
                        ) && preset_table()[j].domains.contains(x);
                    if j < i {
                        assert(asked_for(ids@, preset_table()[j].id));
                        assert(listed(ids@, i as int, x));
                    }
                }
            }
        }
        i = i + 1;
    }
    r
}

/// How many entries all lists have together.
pub fn total_domain_count() -> (r: usize)
    ensures
        r == entries(preset_table(), preset_table().len() as int),
        r == 139,
{
    let all: Vec<PresetDomainList> = all_presets();
    assert(preset_views(all@).len() == preset_table().len());
    let mut sum: usize = 0;
    let mut i: usize = 0;
    while i < all.len()
        invariant
            i <= all@.len(),
            all@.len() == 8,
            preset_views(all@) == preset_table(),
            sum == entries(preset_table(), i as int),
            sum <= 100 * i,
        decreases all@.len() - i,
    {
        assert(all@[i as int]@ == preset_views(all@)[i as int]);
        assert(all@[i as int].domains@.len() == preset_table()[i as int].domains.len());
        sum = sum + all[i].domains.len();
        i = i + 1;
    }
    proof {
        reveal_with_fuel(entries, 9);
    }
    sum
}

/// Whoever asks for every list gets as many domains as the lists have entries.
pub proof fn asking_for_all_gives_all(ids: Seq<&str>)
    requires
        forall|i: int|
            0 <= i < preset_table().len() ==> asked_for(ids, (#[trigger] preset_table()[i]).id),
    ensures
        asked_entries(ids, preset_table().len() as int) == entries(
            preset_table(),
            preset_table().len() as int,
        ),
        asked_entries(ids, preset_table().len() as int) == 139,
{
    all_entries_are_asked(ids, preset_table().len() as int);
    reveal_with_fuel(entries, 9);
}

proof fn all_entries_are_asked(ids: Seq<&str>, n: int)
    requires
        0 <= n <= preset_table().len(),
        forall|i: int|
            0 <= i < preset_table().len() ==> asked_for(ids, (#[trigger] preset_table()[i]).id),
    ensures
        asked_entries(ids, n) == entries(preset_table(), n),
    decreases n,
{
    if n > 0 {
        all_entries_are_asked(ids, n - 1);
    }
}

/// The ids of the lists are distinct, so that every list can be found by its
/// id.
pub proof fn every_list_is_found(i: int)
    requires
        0 <= i < preset_table().len(),
    ensures
        preset_with_id(preset_table(), preset_table()[i].id, 0) == Some(preset_table()[i]),
{
    reveal_strlit("youtube");
    assert("youtube"@.len() == 7 && "youtube"@[0] == 'y');
    reveal_strlit("googlevideo");
    assert("googlevideo"@.len() == 11 && "googlevideo"@[0] == 'g');
    reveal_strlit("telegram");
    assert("telegram"@.len() == 8 && "telegram"@[0] == 't');
    reveal_strlit("discord");
    assert("discord"@.len() == 7 && "discord"@[0] == 'd');
    reveal_strlit("social");
    assert("social"@.len() == 6 && "social"@[0] == 's');
    reveal_strlit("general");
    assert("general"@.len() == 7 && "general"@[0] == 'g');
    reveal_strlit("cloudflare");
    assert("cloudflare"@.len() == 10 && "cloudflare"@[0] == 'c');
    reveal_strlit("turkiye");
    assert("turkiye"@.len() == 7 && "turkiye"@[0] == 't');
    reveal_with_fuel(preset_with_id, 9);
}

} // verus!
