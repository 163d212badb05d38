use modrinth_api::projects::ProjectType;
use modrinth_api::search::encode_facets;
use modrinth_api::search::Facet;

#[test]
fn facet_tokens_render_per_variant() {
    assert_eq!(Facet::Categories("fabric".to_string()).token(), "categories: fabric");
    assert_eq!(Facet::Versions("1.20.1".to_string()).token(), "versions: 1.20.1");
    assert_eq!(Facet::ProjectType(ProjectType::Mod).token(), "project_type:Mod");
    assert_eq!(Facet::ProjectType(ProjectType::ResourcePack).token(), "project_type:ResourcePack");
    assert_eq!(Facet::OpenSource(true).token(), "open_source: true");
    assert_eq!(Facet::OpenSource(false).token(), "open_source: false");
    assert_eq!(Facet::License("MIT".to_string()).token(), "license: MIT");
    assert_eq!(Facet::Title("Sodium".to_string()).token(), "title: Sodium");
    assert_eq!(Facet::Author("jellysquid3".to_string()).token(), "author: jellysquid3");
    assert_eq!(Facet::ProjectID("AANobbMI".to_string()).token(), "project_id: AANobbMI");
}

#[test]
fn custom_facet_token_uses_the_operator_form() {
    let facet = Facet::Custom {
        _type: "downloads".to_string(),
        operation: ">".to_string(),
        value: "100".to_string(),
    };
    assert_eq!(facet.token(), "downloads > 100");
}

#[test]
fn empty_inner_groups_are_dropped() {
    let groups = vec![vec![Facet::Categories("fabric".to_string())], vec![]];
    assert_eq!(encode_facets(&groups), Some("[[\"categories: fabric\"]]".to_string()));

    let only_kept = vec![vec![Facet::Categories("fabric".to_string())]];
    assert_eq!(encode_facets(&groups), encode_facets(&only_kept));
}

#[test]
fn all_empty_groups_omit_the_parameter() {
    let groups: Vec<Vec<Facet>> = vec![vec![], vec![]];
    assert_eq!(encode_facets(&groups), None);
    let no_groups: Vec<Vec<Facet>> = vec![];
    assert_eq!(encode_facets(&no_groups), None);
}

#[test]
fn facet_json_escapes_quotes() {
    let groups = vec![vec![Facet::Title("say \"hi\"".to_string())]];
    assert_eq!(encode_facets(&groups), Some("[[\"title: say \\\"hi\\\"\"]]".to_string()));
}

#[test]
fn facet_json_escapes_control_characters() {
    let groups = vec![vec![Facet::Title("a\tb".to_string())]];
    assert_eq!(encode_facets(&groups), Some("[[\"title: a\\tb\"]]".to_string()));
}

#[test]
fn multiple_groups_serialize_in_order() {
    let groups = vec![
        vec![
            Facet::Categories("fabric".to_string()),
            Facet::Categories("forge".to_string()),
        ],
        vec![Facet::Versions("1.20.1".to_string())],
    ];
    assert_eq!(
        encode_facets(&groups),
        Some(
            "[[\"categories: fabric\",\"categories: forge\"],[\"versions: 1.20.1\"]]".to_string()
        )
    );
}
