use tachy_daemon::marketplace::{
    is_valid_semver, AgentTemplate, ListingVisibility, Marketplace, MarketplaceError, MarketplaceListing,
};

fn test_template(name: &str) -> AgentTemplate {
    AgentTemplate {
        name: name.to_string(),
        description: format!("{name} description"),
        system_prompt: "You are a test agent.".to_string(),
        allowed_tools: vec!["read_file".to_string(), "bash".to_string()],
        model: "test-model".to_string(),
        max_iterations: 5,
        requires_approval: false,
        use_planning: true,
    }
}

fn listing<'a>(mp: &'a Marketplace, id: &str) -> &'a MarketplaceListing {
    mp.listings().get(id).unwrap()
}

fn average(l: &MarketplaceListing) -> f64 {
    if l.rating_count == 0 {
        0.0
    } else {
        l.rating_total as f64 / f64::from(l.rating_count)
    }
}

#[test]
fn publish_creates_listing() {
    let mut mp = Marketplace::new();
    let id = mp.publish(test_template("my-agent"), "A cool agent", "1.0.0", "user-1").unwrap();

    let listing = listing(&mp, &id);
    assert_eq!(listing.name, "my-agent");
    assert_eq!(listing.description, "A cool agent");
    assert_eq!(listing.author_id, "user-1");
    assert_eq!(listing.default_version, "1.0.0");
    assert_eq!(listing.versions.len(), 1);
    assert_eq!(listing.versions[0].template.name, "my-agent");
}

#[test]
fn valid_semver_accepted() {
    assert!(is_valid_semver("0.0.0"));
    assert!(is_valid_semver("1.2.3"));
    assert!(is_valid_semver("10.20.30"));
}

#[test]
fn invalid_semver_rejected() {
    assert!(!is_valid_semver(""));
    assert!(!is_valid_semver("1.0"));
    assert!(!is_valid_semver("1.0.0.0"));
    assert!(!is_valid_semver("v1.0.0"));
    assert!(!is_valid_semver("1.0.0-beta"));
    assert!(!is_valid_semver("a.b.c"));
    assert!(!is_valid_semver("1..0"));
    assert!(!is_valid_semver(".1.0"));
}

#[test]
fn publish_rejects_invalid_semver() {
    let mut mp = Marketplace::new();
    let err = mp.publish(test_template("agent"), "desc", "not-semver", "user-1").unwrap_err();
    assert_eq!(err, MarketplaceError::InvalidSemver);
}

#[test]
fn publish_rejects_duplicate_name_version() {
    let mut mp = Marketplace::new();
    mp.publish(test_template("agent"), "desc", "1.0.0", "user-1").unwrap();

    let err = mp.publish(test_template("agent"), "desc v2", "1.0.0", "user-2").unwrap_err();
    assert_eq!(err, MarketplaceError::ConflictVersion);
}

#[test]
fn publish_allows_different_version_same_name() {
    let mut mp = Marketplace::new();
    let id1 = mp.publish(test_template("agent"), "desc", "1.0.0", "user-1").unwrap();
    let id2 = mp.publish(test_template("agent"), "desc", "1.1.0", "user-1").unwrap();

    assert_eq!(id1, id2);
    assert_eq!(listing(&mp, &id1).versions.len(), 2);
}

#[test]
fn version_history_is_append_only_with_latest_default() {
    let mut mp = Marketplace::new();
    let id = mp.publish(test_template("agent"), "desc", "1.0.0", "user-1").unwrap();
    mp.publish(test_template("agent"), "desc", "2.0.0", "user-1").unwrap();
    mp.publish(test_template("agent"), "desc", "3.0.0", "user-1").unwrap();

    let listing = listing(&mp, &id);
    assert_eq!(listing.versions.len(), 3);
    assert_eq!(listing.versions[0].version, "1.0.0");
    assert_eq!(listing.versions[1].version, "2.0.0");
    assert_eq!(listing.versions[2].version, "3.0.0");
    assert_eq!(listing.default_version, "3.0.0");
}

#[test]
fn search_returns_sorted_by_rating_descending() {
    let mut mp = Marketplace::new();
    let id_a = mp.publish(test_template("alpha"), "desc", "1.0.0", "user-1").unwrap();
    let id_b = mp.publish(test_template("beta"), "desc", "1.0.0", "user-1").unwrap();
    let id_c = mp.publish(test_template("gamma"), "desc", "1.0.0", "user-1").unwrap();

    mp.rate(&id_a, "u1", 2).unwrap();
    mp.rate(&id_b, "u1", 5).unwrap();
    mp.rate(&id_c, "u1", 3).unwrap();

    let results = mp.search(None, 0, 10);
    assert_eq!(results.len(), 3);
    assert_eq!(results[0].name, "beta");
    assert_eq!(results[1].name, "gamma");
    assert_eq!(results[2].name, "alpha");
}

#[test]
fn search_filters_by_query() {
    let mut mp = Marketplace::new();
    mp.publish(test_template("react-checker"), "desc", "1.0.0", "u1").unwrap();
    mp.publish(test_template("python-linter"), "desc", "1.0.0", "u1").unwrap();

    let results = mp.search(Some("react"), 0, 10);
    assert_eq!(results.len(), 1);
    assert_eq!(results[0].name, "react-checker");
}

#[test]
fn search_pagination() {
    let mut mp = Marketplace::new();
    for i in 0..5 {
        mp.publish(test_template(&format!("agent-{i}")), "desc", "1.0.0", "u1").unwrap();
    }

    let page0 = mp.search(None, 0, 2);
    assert_eq!(page0.len(), 2);

    let page1 = mp.search(None, 1, 2);
    assert_eq!(page1.len(), 2);

    let page2 = mp.search(None, 2, 2);
    assert_eq!(page2.len(), 1);

    let page3 = mp.search(None, 3, 2);
    assert!(page3.is_empty());
}

#[test]
fn install_returns_default_version_template() {
    let mut mp = Marketplace::new();
    let id = mp.publish(test_template("agent"), "desc", "1.0.0", "user-1").unwrap();
    mp.publish(test_template("agent"), "desc", "2.0.0", "user-1").unwrap();

    let result = mp.install(&id, None).unwrap();
    assert_eq!(result.template.name, "agent");
}

#[test]
fn install_returns_specific_version() {
    let mut mp = Marketplace::new();
    let id = mp.publish(test_template("agent"), "desc", "1.0.0", "user-1").unwrap();
    mp.publish(test_template("agent"), "desc", "2.0.0", "user-1").unwrap();

    let result = mp.install(&id, Some("1.0.0")).unwrap();
    assert_eq!(result.template.name, "agent");
}

#[test]
fn install_listing_not_found() {
    let mp = Marketplace::new();
    let err = mp.install("nonexistent", None).unwrap_err();
    assert_eq!(err, MarketplaceError::ListingNotFound);
}

#[test]
fn install_version_not_found() {
    let mut mp = Marketplace::new();
    let id = mp.publish(test_template("agent"), "desc", "1.0.0", "user-1").unwrap();

    let err = mp.install(&id, Some("9.9.9")).unwrap_err();
    assert_eq!(err, MarketplaceError::VersionNotFound);
}

#[test]
fn install_warns_about_missing_tools() {
    let mut mp = Marketplace::new();
    let id = mp.publish(test_template("agent"), "desc", "1.0.0", "user-1").unwrap();

    let result = mp.install_with_tools_check(&id, None, &["read_file".to_string()]).unwrap();
    assert_eq!(result.warnings.len(), 1);
    assert!(result.warnings[0].contains("bash"));
}

#[test]
fn install_no_warnings_when_all_tools_available() {
    let mut mp = Marketplace::new();
    let id = mp.publish(test_template("agent"), "desc", "1.0.0", "user-1").unwrap();

    let result = mp
        .install_with_tools_check(&id, None, &["read_file".to_string(), "bash".to_string()])
        .unwrap();
    assert!(result.warnings.is_empty());
}

#[test]
fn rate_calculates_average() {
    let mut mp = Marketplace::new();
    let id = mp.publish(test_template("agent"), "desc", "1.0.0", "user-1").unwrap();

    mp.rate(&id, "u1", 4).unwrap();
    mp.rate(&id, "u2", 2).unwrap();

    let listing = listing(&mp, &id);
    assert_eq!(listing.rating_count, 2);
    assert!((average(listing) - 3.0).abs() < f64::EPSILON);
}

#[test]
fn rate_updates_existing_user_rating() {
    let mut mp = Marketplace::new();
    let id = mp.publish(test_template("agent"), "desc", "1.0.0", "user-1").unwrap();

    mp.rate(&id, "u1", 1).unwrap();
    mp.rate(&id, "u1", 5).unwrap();

    let listing = listing(&mp, &id);
    assert_eq!(listing.rating_count, 1);
    assert!((average(listing) - 5.0).abs() < f64::EPSILON);
}

#[test]
fn rate_rejects_invalid_values() {
    let mut mp = Marketplace::new();
    let id = mp.publish(test_template("agent"), "desc", "1.0.0", "user-1").unwrap();

    assert_eq!(mp.rate(&id, "u1", 0).unwrap_err(), MarketplaceError::InvalidRating);
    assert_eq!(mp.rate(&id, "u1", 6).unwrap_err(), MarketplaceError::InvalidRating);
}

#[test]
fn rate_listing_not_found() {
    let mut mp = Marketplace::new();
    let err = mp.rate("nonexistent", "u1", 3).unwrap_err();
    assert_eq!(err, MarketplaceError::ListingNotFound);
}

// --- further cases ---

#[test]
fn publish_at_names_listings_in_sequence_and_stamps_time() {
    let mut mp = Marketplace::new();
    let a = mp.publish_at(test_template("a"), "d", "1.0.0", "u", 100).unwrap();
    let b = mp.publish_at(test_template("b"), "d", "1.0.0", "u", 200).unwrap();
    assert_eq!(a, "listing-1");
    assert_eq!(b, "listing-2");
    let la = listing(&mp, &a);
    assert_eq!(la.created_at, 100);
    assert_eq!(la.versions[0].published_at, 100);
    mp.publish_at(test_template("a"), "d", "1.1.0", "u", 300).unwrap();
    let la = listing(&mp, &a);
    assert_eq!(la.created_at, 100);
    assert_eq!(la.updated_at, 300);
    assert_eq!(la.default_version, "1.1.0");
}

#[test]
fn publish_to_team_restricts_visibility() {
    let mut mp = Marketplace::new();
    let id = mp.publish_to_team(test_template("t"), "d", "1.0.0", "u", "team-7").unwrap();
    let l = listing(&mp, &id);
    assert_eq!(l.visibility, ListingVisibility::Team);
    assert_eq!(l.team_id.as_deref(), Some("team-7"));
    let err = mp.publish_to_team(test_template("t"), "d", "1.0.0", "u", "team-7").unwrap_err();
    assert_eq!(err, MarketplaceError::ConflictVersion);
}

#[test]
fn search_is_case_insensitive_and_ties_keep_id_order() {
    let mut mp = Marketplace::new();
    let a = mp.publish(test_template("Alpha-Bot"), "d", "1.0.0", "u").unwrap();
    let b = mp.publish(test_template("beta-bot"), "d", "1.0.0", "u").unwrap();
    mp.rate(&a, "x", 3).unwrap();
    mp.rate(&b, "x", 3).unwrap();
    let r = mp.search(Some("BOT"), 0, 10);
    assert_eq!(r.len(), 2);
    assert_eq!(r[0].id, a);
    assert_eq!(r[1].id, b);
    // an unrated listing sorts after rated ones
    mp.publish(test_template("gamma-bot"), "d", "1.0.0", "u").unwrap();
    let r = mp.search(Some("bot"), 0, 10);
    assert_eq!(r[2].name, "gamma-bot");
}

#[test]
fn search_orders_by_exact_average() {
    let mut mp = Marketplace::new();
    let a = mp.publish(test_template("a"), "d", "1.0.0", "u").unwrap();
    let b = mp.publish(test_template("b"), "d", "1.0.0", "u").unwrap();
    // a: (5 + 4) / 2 = 4.5, b: (5 + 5 + 3) / 3 = 4.33
    mp.rate(&a, "x", 5).unwrap();
    mp.rate(&a, "y", 4).unwrap();
    mp.rate(&b, "x", 5).unwrap();
    mp.rate(&b, "y", 5).unwrap();
    mp.rate(&b, "z", 3).unwrap();
    let r = mp.search(None, 0, 10);
    assert_eq!(r[0].id, a);
    assert_eq!(listing(&mp, &b).rating_total, 13);
}

#[test]
fn install_warnings_name_each_missing_tool_in_order() {
    let mut mp = Marketplace::new();
    let id = mp.publish(test_template("agent"), "desc", "1.0.0", "user-1").unwrap();
    let result = mp.install_with_tools_check(&id, Some("1.0.0"), &[]).unwrap();
    assert_eq!(result.warnings, vec!["missing tool: read_file".to_string(), "missing tool: bash".to_string()]);
    assert_eq!(
        mp.install_with_tools_check(&id, Some("2.0.0"), &[]).unwrap_err(),
        MarketplaceError::VersionNotFound
    );
}

#[test]
fn error_messages() {
    assert_eq!(MarketplaceError::InvalidSemver.message(), "invalid version format");
    assert_eq!(MarketplaceError::ConflictVersion.message(), "version already exists");
    assert_eq!(MarketplaceError::ListingNotFound.message(), "listing not found");
    assert_eq!(MarketplaceError::VersionNotFound.message(), "version not found");
    assert_eq!(MarketplaceError::InvalidRating.message(), "rating must be 1-5");
}
