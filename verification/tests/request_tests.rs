use modrinth_api::projects::project_request;
use modrinth_api::search::search_request;
use modrinth_api::search::ExtendedSearch;
use modrinth_api::search::Facet;
use modrinth_api::search::Sort;
use modrinth_api::projects::ProjectType;
use modrinth_api::user_agent;
use modrinth_api::versions::project_version_request;
use modrinth_api::versions::project_versions_request;
use modrinth_api::versions::version_request;
use modrinth_api::versions::ProjectVersionParams;
use modrinth_api::versions::ProjectVersionsFilter;
use modrinth_api::Error;

#[test]
fn project_url_joins_segments_once() {
    let url = project_request("abc123").unwrap();
    assert_eq!(url.as_str(), "https://api.modrinth.com/v2/project/abc123");
}

#[test]
fn project_url_build_is_idempotent() {
    let first = project_request("AANobbMI").unwrap();
    let second = project_request("AANobbMI").unwrap();
    assert_eq!(first.as_str(), second.as_str());
}

#[test]
fn project_request_rejects_bad_identifiers() {
    assert!(matches!(project_request("ab"), Err(Error::InvalidIDorSlug)));
    assert!(matches!(project_request("has space"), Err(Error::InvalidIDorSlug)));
}

#[test]
fn path_segments_percent_encode_quotes_and_backticks() {
    let url = project_request("ab\"cd").unwrap();
    assert_eq!(url.as_str(), "https://api.modrinth.com/v2/project/ab%22cd");
    let url = project_request("ab`cd").unwrap();
    assert_eq!(url.as_str(), "https://api.modrinth.com/v2/project/ab%60cd");
}

#[test]
fn version_url_is_exact() {
    let url = version_request("IYSvjCFJ").unwrap();
    assert_eq!(url.as_str(), "https://api.modrinth.com/v2/version/IYSvjCFJ");
}

#[test]
fn search_url_with_defaults() {
    let url = search_request("xaeros", &Sort::Downloads, None, None);
    assert_eq!(
        url.as_str(),
        "https://api.modrinth.com/v2/search?query=xaeros&index=downloads&limit=20&offset=0"
    );
}

#[test]
fn search_url_with_facets() {
    let extended = ExtendedSearch {
        offset: None,
        facets: vec![vec![Facet::ProjectType(ProjectType::Mod)]],
    };
    let url = search_request("xaeros", &Sort::Downloads, None, Some(extended));
    assert_eq!(
        url.as_str(),
        "https://api.modrinth.com/v2/search?query=xaeros&index=downloads&limit=20&offset=0\
         &facets=%5B%5B%22project_type%3AMod%22%5D%5D"
    );
}

#[test]
fn search_url_form_encodes_the_query() {
    let url = search_request("caf\u{e9} au lait", &Sort::Relevance, Some(5), None);
    assert_eq!(
        url.as_str(),
        "https://api.modrinth.com/v2/search?query=caf%C3%A9+au+lait&index=relevance&limit=5&offset=0"
    );
}

#[test]
fn search_url_encodes_multibyte_characters() {
    let url = search_request("\u{2603}", &Sort::Relevance, Some(1), None);
    assert_eq!(
        url.as_str(),
        "https://api.modrinth.com/v2/search?query=%E2%98%83&index=relevance&limit=1&offset=0"
    );
    let url = search_request("\u{1f389}", &Sort::Relevance, Some(1), None);
    assert_eq!(
        url.as_str(),
        "https://api.modrinth.com/v2/search?query=%F0%9F%8E%89&index=relevance&limit=1&offset=0"
    );
}

#[test]
fn search_url_omits_facets_when_all_groups_are_empty() {
    let extended = ExtendedSearch { offset: Some(40), facets: vec![vec![], vec![]] };
    let url = search_request("sodium", &Sort::Newest, Some(10), Some(extended));
    assert_eq!(
        url.as_str(),
        "https://api.modrinth.com/v2/search?query=sodium&index=newest&limit=10&offset=40"
    );
}

#[test]
fn project_versions_url_without_filters() {
    let url = project_versions_request("AANobbMI", None).unwrap();
    assert_eq!(url.as_str(), "https://api.modrinth.com/v2/project/AANobbMI/version");
}

#[test]
fn project_versions_url_with_filters() {
    let filter = ProjectVersionsFilter {
        loaders: Some(vec!["fabric".to_string()]),
        game_versions: Some(vec!["1.20.1".to_string()]),
        featured: Some(true),
    };
    let url = project_versions_request("AANobbMI", Some(&filter)).unwrap();
    assert_eq!(
        url.as_str(),
        "https://api.modrinth.com/v2/project/AANobbMI/version\
         ?loaders=%5B%22fabric%22%5D&game_versions=%5B%221.20.1%22%5D&featured=true"
    );
}

#[test]
fn project_versions_url_with_partial_filters() {
    let filter = ProjectVersionsFilter {
        loaders: None,
        game_versions: Some(vec!["1.20.1".to_string()]),
        featured: None,
    };
    let url = project_versions_request("AANobbMI", Some(&filter)).unwrap();
    assert_eq!(
        url.as_str(),
        "https://api.modrinth.com/v2/project/AANobbMI/version?game_versions=%5B%221.20.1%22%5D"
    );
}

#[test]
fn project_version_url_with_number() {
    let params = ProjectVersionParams {
        number: Some("mc1.20.1-0.5.13-fabric".to_string()),
        loaders: Some(vec!["fabric".to_string()]),
        game_versions: Some(vec!["1.20.1".to_string()]),
        featured: Some(true),
    };
    let url = project_version_request("AANobbMI", Some(&params)).unwrap();
    assert_eq!(
        url.as_str(),
        "https://api.modrinth.com/v2/project/AANobbMI/version/mc1.20.1-0.5.13-fabric\
         ?loaders=%5B%22fabric%22%5D&game_versions=%5B%221.20.1%22%5D&featured=true"
    );
}

#[test]
fn project_version_request_rejects_a_bad_number() {
    let params = ProjectVersionParams {
        number: Some("2".to_string()),
        loaders: Some(vec!["fabric".to_string()]),
        game_versions: Some(vec!["1.20.1".to_string()]),
        featured: Some(true),
    };
    let result = project_version_request("AANobbMI", Some(&params));
    assert!(result.is_err());
}

#[test]
fn extended_search_default_is_empty() {
    let extended = ExtendedSearch::default();
    assert!(extended.offset.is_none());
    assert!(extended.facets.is_empty());
}

#[test]
fn default_extended_search_matches_none() {
    let plain = search_request("sodium", &Sort::Relevance, None, None);
    let defaulted = search_request("sodium", &Sort::Relevance, None, Some(ExtendedSearch::default()));
    assert_eq!(plain.as_str(), defaulted.as_str());
}

#[test]
fn user_agent_composition() {
    assert_eq!(user_agent("test-app", None, None), "test-app");
    assert_eq!(user_agent("test-app", Some("0.1.0"), None), "test-app/0.1.0");
    assert_eq!(
        user_agent("test-app", Some("0.1.0"), Some("contact@example.com")),
        "test-app/0.1.0 (contact@example.com)"
    );
}
