use geist_vpn::profile::{most_recent, AuthMethod, ProfileManager, VpnProfile, VpnProtocol};

fn named(name: &str, host: &str) -> VpnProfile {
    VpnProfile::new(name.into(), host.into(), 443, VpnProtocol::SslVpn)
}

#[test]
fn test_profile_metadata() {
    let profile = named("Test Profile", "test.example.com");
    assert_eq!(profile.metadata.version, 1);
    assert!(profile.metadata.created_at <= chrono::Utc::now().timestamp_micros());
    assert!(profile.metadata.updated_at <= chrono::Utc::now().timestamp_micros());
    assert!(profile.metadata.last_used_at.is_none());
    assert_eq!(profile.metadata.usage_count, 0);
    assert!(!profile.metadata.favorite);
    assert!(profile.metadata.tags.is_empty());
}

#[test]
fn test_profile_usage_tracking() {
    let mut profile = named("Usage Test", "usage.example.com");
    let original_updated_at = profile.metadata.updated_at;
    profile.mark_as_used();
    assert_eq!(profile.metadata.usage_count, 1);
    assert!(profile.metadata.last_used_at.is_some());
    assert!(profile.metadata.updated_at >= original_updated_at);
}

#[test]
fn test_profile_tags() {
    let mut profile = named("Tag Test", "tag.example.com");
    profile.add_tag("work".to_string());
    profile.add_tag("production".to_string());
    assert_eq!(profile.metadata.tags.len(), 2);
    assert!(profile.metadata.tags.contains(&"work".to_string()));
    assert!(profile.metadata.tags.contains(&"production".to_string()));

    profile.add_tag("work".into());
    assert_eq!(profile.metadata.tags.len(), 2);

    profile.remove_tag("work");
    assert_eq!(profile.metadata.tags.len(), 1);
    assert!(!profile.metadata.tags.contains(&"work".to_string()));
}

#[test]
fn test_profile_favorites() {
    let mut profile = named("Favorite Test", "fav.example.com");
    assert!(!profile.metadata.favorite);
    profile.toggle_favorite();
    assert!(profile.metadata.favorite);
    profile.toggle_favorite();
    assert!(!profile.metadata.favorite);
}

#[test]
fn test_profile_manager_basic() {
    let profile = named("Basic Test", "basic.example.com");
    assert!(!profile.id.is_empty());
    assert!(profile.id.contains("basic_test"));
    assert!(profile.id.contains("basic.example.com"));
    assert!(profile.id.contains("443"));
}

#[test]
fn test_profile_search_logic() {
    let mut profiles = Vec::new();
    let mut profile1 = named("Work VPN", "work.company.com");
    profile1.add_tag("production".to_string());
    let mut profile2 = named("Home VPN", "home.example.com");
    profile2.add_tag("personal".to_string());
    let mut profile3 = named("Backup VPN", "backup.server.com");
    profile3.description = "Backup connection".into();
    profiles.push(profile1);
    profiles.push(profile2);
    profiles.push(profile3);

    let work_results: Vec<_> = profiles.iter().filter(|p| p.name.to_lowercase().contains("work")).collect();
    assert_eq!(work_results.len(), 1);

    let production_results: Vec<_> =
        profiles.iter().filter(|p| p.metadata.tags.contains(&"production".to_string())).collect();
    assert_eq!(production_results.len(), 1);

    let backup_results: Vec<_> =
        profiles.iter().filter(|p| p.description.to_lowercase().contains("backup")).collect();
    assert_eq!(backup_results.len(), 1);
}

#[test]
fn test_profile_recent_usage_logic() {
    let mut profiles = Vec::new();
    let mut profile1 = named("Recent Profile 1", "recent1.example.com");
    let mut profile2 = named("Recent Profile 2", "recent2.example.com");
    let profile3 = named("Recent Profile 3", "recent3.example.com");

    profile1.mark_as_used();
    profile2.mark_as_used();
    profile1.mark_as_used();

    profiles.push(profile1);
    profiles.push(profile2);
    profiles.push(profile3);

    let mut recent: Vec<_> = profiles.into_iter().filter(|p| p.metadata.last_used_at.is_some()).collect();
    recent.sort_by(|a, b| b.metadata.last_used_at.unwrap().cmp(&a.metadata.last_used_at.unwrap()));

    assert_eq!(recent.len(), 2);
    assert_eq!(recent[0].name, "Recent Profile 1");
    assert_eq!(recent[1].name, "Recent Profile 2");
    assert_eq!(recent[0].metadata.usage_count, 2);
    assert_eq!(recent[1].metadata.usage_count, 1);
}

#[test]
fn profile_id_lowercases_and_underscores() {
    let p = VpnProfile::new("My Office VPN".into(), "vpn.corp.test".into(), 8443, VpnProtocol::OpenVpn);
    assert_eq!(p.id, "my_office_vpn_vpn.corp.test_8443");
    assert_eq!(p.timeout, 30);
    assert_eq!(p.metadata.created_at, p.metadata.updated_at);
}

#[test]
fn validation_messages() {
    let mut p = named("P", "h");
    assert!(p.validate().is_ok());
    p.auth = AuthMethod::Password { username: String::new(), password: String::new() };
    assert_eq!(p.validate().unwrap_err().to_string(), "Profile error: Username cannot be empty");
    p.auth = AuthMethod::Password { username: "u".into(), password: String::new() };
    assert_eq!(p.validate().unwrap_err().to_string(), "Profile error: Password cannot be empty");
    p.auth = AuthMethod::Radius;
    assert!(p.validate().is_ok());
    p.port = 0;
    assert_eq!(p.validate().unwrap_err().to_string(), "Profile error: Invalid port number");
    p.port = 1;
    p.host = String::new();
    assert_eq!(p.validate().unwrap_err().to_string(), "Profile error: Host cannot be empty");
    p.host = "h".into();
    p.auth = AuthMethod::Certificate {
        cert_path: "/nonexistent/geist/cert.pem".into(),
        key_path: "/nonexistent/geist/key.pem".into(),
    };
    assert_eq!(
        p.validate().unwrap_err().to_string(),
        "Profile error: Certificate file not found: /nonexistent/geist/cert.pem"
    );
    assert!(p.validate_with(true, true).is_ok());
    assert_eq!(
        p.validate_with(true, false).unwrap_err().to_string(),
        "Profile error: Key file not found: /nonexistent/geist/key.pem"
    );
}

#[test]
fn protocol_names() {
    assert_eq!(VpnProtocol::SslVpn.display_name(), "SSL VPN");
    assert_eq!(VpnProtocol::L2tpIpsec.variant_name(), "L2tpIpsec");
}

#[test]
fn options_keep_one_value_per_name() {
    let mut p = named("P", "h");
    assert_eq!(p.options.insert("a".into(), "1".into()), None);
    assert_eq!(p.options.insert("a".into(), "2".into()), Some("1".to_string()));
    assert_eq!(p.options.len(), 1);
    assert_eq!(p.options.get("a"), Some(&"2".to_string()));
    assert_eq!(p.options.get("b"), None);
}

#[test]
fn test_profile_manager() {
    let mut m = ProfileManager::new("/tmp/profiles".to_string());
    assert!(m.needs_reload());
    let mut p = named("Integration Test VPN", "integration.test.com");
    p.port = 4443;
    m.save_profile(&p);
    let loaded = m.get_profile(&p.id).unwrap();
    assert_eq!(loaded.name, p.name);
    assert_eq!(loaded.host, p.host);
    assert_eq!(loaded.port, p.port);
    assert_eq!(m.load_profiles().len(), 1);
    // Saving again replaces in place.
    p.description = "changed".into();
    m.save_profile(&p);
    assert_eq!(m.load_profiles().len(), 1);
    assert_eq!(m.get_profile(&p.id).unwrap().description, "changed");
    m.delete_profile(&p.id);
    let e = m.get_profile(&p.id).unwrap_err();
    assert_eq!(e.to_string(), format!("Profile error: Profile '{}' not found", p.id));
    assert!(m.load_profiles().is_empty());
}

#[test]
fn manager_fill_cache_dedupes_ids() {
    let mut m = ProfileManager::new("/tmp/profiles".to_string());
    let a = named("A", "a.test");
    let mut a2 = named("A", "a.test");
    a2.description = "second".into();
    let b = named("B", "b.test");
    m.fill_cache(vec![a, b, a2]);
    assert!(!m.needs_reload());
    let all = m.load_profiles();
    assert_eq!(all.len(), 2);
    assert_eq!(all[0].description, "second");
    assert_eq!(all[1].name, "B");
    m.invalidate_cache();
    assert!(m.needs_reload());
}

#[test]
fn manager_queries() {
    let mut m = ProfileManager::new("/tmp/profiles".to_string());
    let mut work = named("Work VPN", "work.company.com");
    work.add_tag("production".into());
    work.toggle_favorite();
    let mut home = named("Home VPN", "home.example.com");
    home.add_tag("personal".into());
    home.add_tag("alpha".into());
    let mut backup = named("Backup VPN", "backup.server.com");
    backup.description = "Backup connection".into();
    m.fill_cache(vec![work, home, backup]);

    assert_eq!(m.search_profiles("WORK").len(), 1);
    assert_eq!(m.search_profiles("backup")[0].name, "Backup VPN");
    assert_eq!(m.search_profiles("vpn").len(), 3);
    assert_eq!(m.get_favorite_profiles()[0].name, "Work VPN");
    assert_eq!(m.get_profiles_by_tag("personal")[0].name, "Home VPN");
    assert_eq!(m.get_all_tags(), vec!["alpha".to_string(), "personal".to_string(), "production".to_string()]);
    assert!(m.get_recent_profiles(10).is_empty());
}

#[test]
fn recent_profiles_order_and_limit() {
    let mut a = named("A", "a");
    let mut b = named("B", "b");
    let mut c = named("C", "c");
    a.mark_as_used();
    a.metadata.last_used_at = Some(100);
    b.mark_as_used();
    b.metadata.last_used_at = Some(300);
    c.mark_as_used();
    c.metadata.last_used_at = Some(200);
    let d = named("D", "d");
    let list = vec![a, b, c, d];
    let r = most_recent(&list, 10);
    let names: Vec<_> = r.iter().map(|p| p.name.clone()).collect();
    assert_eq!(names, vec!["B", "C", "A"]);
    let top = most_recent(&list, 2);
    assert_eq!(top.len(), 2);
    assert_eq!(top[1].name, "C");
    let mut m = ProfileManager::new("/tmp/p".into());
    m.fill_cache(list);
    assert_eq!(m.get_recent_profiles(1)[0].name, "B");
}

#[test]
fn profile_file_names() {
    assert_eq!(ProfileManager::profile_file_name("abc"), "abc.yaml");
    assert!(ProfileManager::is_profile_file("abc.yaml"));
    assert!(!ProfileManager::is_profile_file(".yaml"));
    assert!(!ProfileManager::is_profile_file("abc.yml"));
}

#[test]
fn profiles_dir_is_under_data_dir() {
    if let Ok(dir) = ProfileManager::get_profiles_dir() {
        let p = std::path::Path::new(&dir);
        assert!(p.ends_with("geist-vpn/profiles"));
    }
}

#[test]
fn profiles_dir_in_data_dir() {
    let d = ProfileManager::profiles_dir_in("/data");
    assert_eq!(std::path::Path::new(&d), std::path::Path::new("/data").join("geist-vpn").join("profiles"));
}

fn profile_yaml(p: &VpnProfile) -> Result<String, serde_yaml::Error> {
    let mut m = serde_yaml::Mapping::new();
    m.insert("id".into(), p.id.clone().into());
    m.insert("name".into(), p.name.clone().into());
    m.insert("description".into(), p.description.clone().into());
    m.insert("host".into(), p.host.clone().into());
    m.insert("port".into(), u64::from(p.port).into());
    m.insert("protocol".into(), p.protocol.variant_name().into());
    m.insert("timeout".into(), u64::from(p.timeout).into());
    serde_yaml::to_string(&m)
}

#[test]
fn test_profile_operations() {
    let profile = VpnProfile::new("Test VPN".into(), "test.vpn.server.com".into(), 443, VpnProtocol::SslVpn);
    assert!(profile.validate().is_ok());
    let yaml = profile_yaml(&profile).expect("Failed to serialize profile");
    assert!(yaml.contains("Test VPN"));
    assert!(yaml.contains("test.vpn.server.com"));
}
