use byebyedpi_core::probe::presets::{all_presets, get_domains_by_ids, get_preset, total_domain_count};

#[test]
fn test_all_presets_count() {
    let presets = all_presets();
    assert_eq!(presets.len(), 8);
}

#[test]
fn test_get_preset_existing() {
    let yt = get_preset("youtube");
    assert!(yt.is_some());
    assert_eq!(yt.unwrap().name, "YouTube");
}

#[test]
fn test_get_preset_missing() {
    assert!(get_preset("nonexistent").is_none());
}

#[test]
fn test_get_domains_by_ids() {
    let domains = get_domains_by_ids(&["youtube", "cloudflare"]);
    assert!(domains.contains(&"youtube.com".to_string()));
    assert!(domains.contains(&"cloudflare.com".to_string()));
}

#[test]
fn test_telegram_domain_count() {
    let tg = get_preset("telegram").unwrap();
    assert_eq!(tg.domains.len(), 52, "Telegram should have 52 domains");
}

#[test]
fn test_discord_domain_count() {
    let dc = get_preset("discord").unwrap();
    assert_eq!(dc.domains.len(), 21, "Discord should have 21 domains");
}

#[test]
fn test_social_domain_count() {
    let social = get_preset("social").unwrap();
    assert_eq!(social.domains.len(), 16, "Social should have 16 domains");
}

#[test]
fn test_total_domain_count() {
    let count = total_domain_count();
    assert!(
        count >= 139,
        "Total should be at least 139 domains, got {}",
        count
    );
}

#[test]
fn every_list_is_found_by_its_id() {
    for p in all_presets() {
        let found = get_preset(&p.id).unwrap();
        assert_eq!(found.name, p.name);
        assert_eq!(found.domains, p.domains);
    }
}

#[test]
fn unknown_ids_add_no_domains() {
    assert!(get_domains_by_ids(&["nonexistent"]).is_empty());
    assert_eq!(total_domain_count(), 139);
}

#[test]
fn all_lists_together_give_every_domain_once() {
    let presets = all_presets();
    let ids: Vec<&str> = presets.iter().map(|p| p.id.as_str()).collect();
    let domains = get_domains_by_ids(&ids);
    assert_eq!(domains.len(), 139);
    for p in &presets {
        for d in &p.domains {
            assert_eq!(domains.iter().filter(|x| *x == d).count(), 1);
        }
    }
    assert_eq!(get_domains_by_ids(&["general", "cloudflare", "general"]).len(), 10);
}
