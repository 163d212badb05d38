use modrinth_api::projects::DonationLink;
use modrinth_api::projects::License;
use modrinth_api::projects::MonetizationStatus;
use modrinth_api::projects::Project;
use modrinth_api::projects::ProjectStatus;
use modrinth_api::projects::ProjectSupportRange;
use modrinth_api::projects::ProjectType;
use modrinth_api::search::search_request;
use modrinth_api::search::Response;
use modrinth_api::search::SearchHit;
use modrinth_api::search::Sort;
use modrinth_api::versions::Dependencies;
use modrinth_api::versions::DependencyType;
use modrinth_api::versions::File;
use modrinth_api::versions::ProjectVersionParams;
use modrinth_api::versions::ProjectVersionsFilter;
use modrinth_api::versions::Version;
use modrinth_api::versions::VersionType;

fn sample_hit(slug: &str, title: &str) -> SearchHit {
    SearchHit {
        slug: Some(slug.to_string()),
        title: title.to_string(),
        description: "A minimap mod".to_string(),
        categories: vec!["adventure".to_string()],
        client_side: ProjectSupportRange::Required,
        server_side: ProjectSupportRange::Unsupported,
        project_type: ProjectType::Mod,
        downloads: 1000,
        icon_url: None,
        color: None,
        thread_id: None,
        monetization_status: Some(MonetizationStatus::Monetized),
        project_id: "1bokaNcj".to_string(),
        author: "xaero96".to_string(),
        display_categories: vec!["adventure".to_string(), "utility".to_string()],
        game_versions: vec!["1.20.1".to_string()],
        follows: 12,
        date_created: "2023-01-01T00:00:00Z".to_string(),
        date_modified: "2023-06-01T00:00:00Z".to_string(),
        latest_version: "1.20.1".to_string(),
        license: "MIT".to_string(),
        gallery: vec![],
        featured_gallery: None,
        project_info: None,
    }
}

fn sample_project(slug: &str, title: &str) -> Project {
    Project {
        slug: slug.to_string(),
        title: title.to_string(),
        description: "A minimap mod".to_string(),
        categories: vec!["adventure".to_string()],
        client_side: ProjectSupportRange::Required,
        server_side: ProjectSupportRange::Unsupported,
        body: "Long description".to_string(),
        status: ProjectStatus::Approved,
        requested_status: None,
        additional_categories: vec![],
        issues_url: None,
        source_url: None,
        wiki_url: None,
        discord_url: None,
        donation_urls: vec![DonationLink {
            id: "patreon".to_string(),
            platform: "Patreon".to_string(),
            url: "https://www.patreon.com/xaero96".to_string(),
        }],
        project_type: "mod".to_string(),
        downloads: 1000,
        icon_url: None,
        color: None,
        thread_id: "thread".to_string(),
        monetization_status: MonetizationStatus::Monetized,
        id: "1bokaNcj".to_string(),
        team: "team".to_string(),
        published: "2023-01-01T00:00:00Z".to_string(),
        updated: "2023-06-01T00:00:00Z".to_string(),
        approved: None,
        queued: None,
        followers: 12,
        license: License { id: "MIT".to_string(), name: "MIT License".to_string(), url: None },
        versions: vec!["IYSvjCFJ".to_string()],
        game_versions: vec!["1.20.1".to_string()],
        loaders: vec!["fabric".to_string()],
    }
}

fn sample_version(name: &str, featured: bool, loaders: &[&str]) -> Version {
    Version {
        name: name.to_string(),
        version_number: "0.5.13".to_string(),
        changelog: None,
        dependencies: vec![Dependencies {
            version_id: None,
            project_id: Some("P7dR8mSH".to_string()),
            file_name: None,
            dependency_type: DependencyType::Required,
        }],
        game_versions: vec!["1.20.1".to_string()],
        version_type: VersionType::Release,
        loaders: loaders.iter().map(|l| l.to_string()).collect(),
        featured,
        status: None,
        requested_status: None,
        id: "IYSvjCFJ".to_string(),
        project_id: "AANobbMI".to_string(),
        author_id: "TEZXhE2U".to_string(),
        date_published: "2023-06-01T00:00:00Z".to_string(),
        downloads: 500,
        files: vec![File {
            hashes: modrinth_api::versions::Hash { sha512: "s512".to_string(), sha1: "s1".to_string() },
            url: "https://cdn.modrinth.com/data/AANobbMI/file.jar".to_string(),
            filename: "sodium.jar".to_string(),
            primary: true,
            size: 1024,
            file_type: None,
        }],
    }
}

#[test]
fn search_scenario_first_hit_is_the_expected_slug() {
    // The request that would be sent for this search, byte for byte.
    let url = search_request("xaeros", &Sort::Downloads, None, None);
    assert_eq!(
        url.as_str(),
        "https://api.modrinth.com/v2/search?query=xaeros&index=downloads&limit=20&offset=0"
    );

    // The decoded response body for that request, as a fixture.
    let response = Response {
        hits: vec![sample_hit("xaeros-minimap", "Xaero's Minimap")],
        offset: 0,
        limit: 20,
        total_hits: 1,
    };
    let first = response.hits.first().unwrap();
    assert!(first.slug.is_some());
    assert_eq!(first.slug.as_ref().unwrap(), "xaeros-minimap");
}

#[test]
fn version_filter_scenario_keeps_featured_fabric_versions() {
    let fixture = vec![
        sample_version("Sodium 0.5.13", true, &["fabric"]),
        sample_version("Sodium 0.5.12", false, &["fabric"]),
        sample_version("Sodium Forge port", true, &["forge"]),
    ];
    let filter = ProjectVersionsFilter {
        loaders: Some(vec!["fabric".to_string()]),
        game_versions: Some(vec!["1.20.1".to_string()]),
        featured: Some(true),
    };
    let kept: Vec<&Version> = fixture.iter().filter(|v| filter.selects(v)).collect();
    assert_eq!(kept.len(), 1);
    assert_eq!(kept[0].name, "Sodium 0.5.13");
    for version in &kept {
        assert!(version.featured);
        assert!(version.loaders.contains(&"fabric".to_string()));
    }
}

#[test]
fn filter_with_no_constraints_selects_everything() {
    let filter = ProjectVersionsFilter::default();
    let version = sample_version("Sodium 0.5.12", false, &["forge"]);
    assert!(filter.selects(&version));
}

#[test]
fn with_project_attaches_detail_and_keeps_fields() {
    let hit = sample_hit("xaeros-minimap", "Xaero's Minimap");
    let project = sample_project("xaeros-minimap", "Xaero's Minimap");
    let enriched = hit.clone().with_project(project.clone());
    assert_eq!(enriched.project_info, Some(project));
    assert_eq!(enriched.slug, hit.slug);
    assert_eq!(enriched.title, hit.title);
    assert_eq!(enriched.project_id, hit.project_id);
}

#[test]
fn hit_display_text_is_exact() {
    let hit = sample_hit("xaeros-minimap", "Xaero's Minimap");
    assert_eq!(
        hit.display_text(),
        "Title: Xaero's Minimap (1000 downloads)\nAuthor: xaero96\nCategories: adventure,utility"
    );
}

#[test]
fn donation_links_alias_the_field() {
    let project = sample_project("xaeros-minimap", "Xaero's Minimap");
    assert_eq!(project.donation_links(), &project.donation_urls);
    assert_eq!(project.donation_links()[0].platform, "Patreon");
}

#[test]
fn filter_defaults_are_absent() {
    let filter = ProjectVersionsFilter::default();
    assert!(filter.loaders.is_none());
    assert!(filter.game_versions.is_none());
    assert!(filter.featured.is_none());
}

#[test]
fn params_default_to_an_empty_number() {
    let params = ProjectVersionParams::default();
    assert_eq!(params.number, Some(String::new()));
    assert!(params.loaders.is_none());
    assert!(params.game_versions.is_none());
    assert!(params.featured.is_none());
}
