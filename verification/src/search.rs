//! Search records, facets and the search request.

use vstd::prelude::*;

use crate::encode::bool_text;
use crate::encode::dec_str;
use crate::encode::json_string_matrix;
use crate::encode::u64_to_string;
use crate::projects::MonetizationStatus;
use crate::projects::Project;
use crate::projects::ProjectSupportRange;
use crate::projects::ProjectType;
use crate::utils::base_text;
use crate::utils::query_frag;
use crate::utils::seg_ok;
use crate::utils::seg_text;
use crate::utils::EndpointUrl;

verus! {

/// Additional search parameters: a result offset and facet groups.
/// The outer facet list is an AND across groups, each inner list an OR
/// within its group.
#[derive(Debug, Clone)]
pub struct ExtendedSearch {
    pub offset: Option<u32>,
    pub facets: Vec<Vec<Facet>>,
}

impl Default for ExtendedSearch {
    /// No offset and no facets.
    fn default() -> (r: Self)
        ensures
            r.offset is None,
            r.facets@.len() == 0,
    {
        ExtendedSearch { offset: None, facets: Vec::new() }
    }
}

/// A search response.  The counts are the server's own and are never
/// recomputed client-side.
#[derive(Debug, Clone, PartialEq)]
pub struct Response {
    pub hits: Vec<SearchHit>,
    /// The number of results that were skipped by the query
    pub offset: usize,
    /// The number of results that were returned by the query
    pub limit: usize,
    /// The total number of results that match the query
    pub total_hits: usize,
}

/// One search hit: a summarized view of a project.  Timestamps are
/// carried as the RFC 3339 text the API sent.
#[derive(Debug, Clone, PartialEq)]
pub struct SearchHit {
    /// The project's slug, used for vanity URLs.
    pub slug: Option<String>,
    pub title: String,
    pub description: String,
    pub categories: Vec<String>,
    pub client_side: ProjectSupportRange,
    pub server_side: ProjectSupportRange,
    pub project_type: ProjectType,
    pub downloads: usize,
    pub icon_url: Option<String>,
    /// The RGB color of the project, automatically generated from the project icon
    pub color: Option<usize>,
    /// The ID of the moderation thread associated with this project
    pub thread_id: Option<String>,
    pub monetization_status: Option<MonetizationStatus>,
    pub project_id: String,
    /// Author
    pub author: String,
    /// A list of the project's primary/featured categories
    pub display_categories: Vec<String>,
    /// A list of all the game versions supported by the project
    pub game_versions: Vec<String>,
    pub follows: usize,
    pub date_created: String,
    pub date_modified: String,
    /// The latest game version that this project supports
    pub latest_version: String,
    /// The SPDX license ID of a project
    pub license: String,
    pub gallery: Vec<String>,
    pub featured_gallery: Option<String>,
    /// Full project detail, attached only by an explicit enrichment.
    pub project_info: Option<Project>,
}

/// Strings joined with commas, without a trailing separator.
pub open spec fn comma_join(items: Seq<Seq<char>>) -> Seq<char>
    decreases items.len(),
{
    if items.len() == 0 {
        seq![]
    } else if items.len() == 1 {
        items[0]
    } else {
        comma_join(items.drop_last()) + seq![','] + items.last()
    }
}

/// The one-line description of a search hit: title, download count,
/// author and the primary categories.
pub open spec fn hit_text(h: &SearchHit) -> Seq<char> {
    "Title: "@ + h.title@ + " ("@ + dec_str(h.downloads as nat) + " downloads)\nAuthor: "@
        + h.author@ + "\nCategories: "@ + comma_join(h.display_categories.deep_view())
}

impl SearchHit {
    /// Returns this hit with the full project detail attached; every
    /// other field is kept.
    pub fn with_project(self, project: Project) -> (r: SearchHit)
        ensures
            r == (SearchHit { project_info: Some(project), ..self }),
    {
        SearchHit { project_info: Some(project), ..self }
    }

    /// A human-readable description of this hit.
    pub fn display_text(&self) -> (r: String)
        ensures
            r@ == hit_text(self),
    {
        let mut text = String::from_str("Title: ");
        text.append(self.title.as_str());
        text.append(" (");
        let downloads = u64_to_string(self.downloads as u64);
        text.append(downloads.as_str());
        text.append(" downloads)\nAuthor: ");
        text.append(self.author.as_str());
        text.append("\nCategories: ");
        let ghost prefix = text@;
        let n = self.display_categories.len();
        proof {
            assert(self.display_categories.deep_view().take(0) =~= Seq::<Seq<char>>::empty());
        }
        for i in 0..n
            invariant
                n == self.display_categories@.len(),
                text@ == prefix + comma_join(self.display_categories.deep_view().take(i as int)),
        {
            if i > 0 {
                text.append(",");
                proof {
                    reveal_strlit(",");
                    assert(","@ =~= seq![',']);
                }
            }
            text.append(self.display_categories[i].as_str());
            proof {
                let dv = self.display_categories.deep_view();
                assert(dv.take(i + 1).drop_last() =~= dv.take(i as int));
                assert(dv.take(i + 1).last() == dv[i as int]);
                assert(dv[i as int] == self.display_categories@[i as int]@);
                assert(text@ =~= prefix + comma_join(dv.take(i + 1)));
            }
        }
        proof {
            let dv = self.display_categories.deep_view();
            assert(dv.take(n as int) =~= dv);
        }
        text
    }
}

/// The sort key for search results.
#[derive(Debug, Clone, Copy, PartialEq, Eq)]
pub enum Sort {
    Relevance,
    /// Sorts matches by downloads
    Downloads,
    /// Sorts matches by followers
    Follows,
    /// Sorts by the time of initial creation
    Newest,
    /// Sorts by the time of the latest update
    Updated,
}

/// The query value for a sort key: its name in lowercase.
pub open spec fn sort_text(s: Sort) -> Seq<char> {
    match s {
        Sort::Relevance => "relevance"@,
        Sort::Downloads => "downloads"@,
        Sort::Follows => "follows"@,
        Sort::Newest => "newest"@,
        Sort::Updated => "updated"@,
    }
}

impl Sort {
    /// The query value for this sort key.
    pub fn as_str(&self) -> (r: &'static str)
        ensures
            r@ == sort_text(*self),
    {
        match self {
            Sort::Relevance => "relevance",
            Sort::Downloads => "downloads",
            Sort::Follows => "follows",
            Sort::Newest => "newest",
            Sort::Updated => "updated",
        }
    }
}

/// A single filter predicate of the search query language.
#[derive(Debug, Clone, PartialEq)]
pub enum Facet {
    ProjectType(ProjectType),
    /// Mod loader or category to filter
    Categories(String),
    /// Game versions to filter
    Versions(String),
    OpenSource(bool),
    /// License ID to filter
    License(String),
    /// Title
    Title(String),
    /// Author
    Author(String),
    /// Project ID
    ProjectID(String),
    Custom {
        /// The type of metadata to filter
        _type: String,
        /// The comparison to use
        ///
        /// Can be `=`/`:`, `!=`, `>`, `>=`, `<`, `<=`
        operation: String,
        /// The value to compare against
        value: String,
    },
}

/// The label of a project type inside a facet token.
pub open spec fn project_type_label(pt: ProjectType) -> Seq<char> {
    match pt {
        ProjectType::Project => "Project"@,
        ProjectType::Mod => "Mod"@,
        ProjectType::Shader => "Shader"@,
        ProjectType::Plugin => "Plugin"@,
        ProjectType::Modpack => "Modpack"@,
        ProjectType::Datapack => "Datapack"@,
        ProjectType::ResourcePack => "ResourcePack"@,
    }
}

/// The token a facet renders to: `<field>: <value>` for most variants,
/// `project_type:<label>` without a space, and `<field> <op> <value>`
/// for the custom variant.
pub open spec fn facet_token_text(f: Facet) -> Seq<char> {
    match f {
        Facet::ProjectType(pt) => "project_type:"@ + project_type_label(pt),
        Facet::Categories(category) => "categories: "@ + category@,
        Facet::Versions(version) => "versions: "@ + version@,
        Facet::OpenSource(b) => "open_source: "@ + bool_text(b),
        Facet::License(license_id) => "license: "@ + license_id@,
        Facet::Title(title) => "title: "@ + title@,
        Facet::Author(author) => "author: "@ + author@,
        Facet::ProjectID(project_id) => "project_id: "@ + project_id@,
        Facet::Custom { _type, operation, value } => _type@ + " "@ + operation@ + " "@ + value@,
    }
}

fn project_type_str(pt: &ProjectType) -> (r: &'static str)
    ensures
        r@ == project_type_label(*pt),
{
    match pt {
        ProjectType::Project => "Project",
        ProjectType::Mod => "Mod",
        ProjectType::Shader => "Shader",
        ProjectType::Plugin => "Plugin",
        ProjectType::Modpack => "Modpack",
        ProjectType::Datapack => "Datapack",
        ProjectType::ResourcePack => "ResourcePack",
    }
}

impl Facet {
    /// Renders this facet to its token.
    pub fn token(&self) -> (r: String)
        ensures
            r@ == facet_token_text(*self),
    {
        match self {
            Facet::ProjectType(pt) => {
                let mut s = String::from_str("project_type:");
                s.append(project_type_str(pt));
                s
            },
            Facet::Categories(category) => {
                let mut s = String::from_str("categories: ");
                s.append(category.as_str());
                s
            },
            Facet::Versions(version) => {
                let mut s = String::from_str("versions: ");
                s.append(version.as_str());
                s
            },
            Facet::OpenSource(b) => {
                let mut s = String::from_str("open_source: ");
                let b_text = crate::encode::bool_to_string(*b);
                s.append(b_text.as_str());
                s
            },
            Facet::License(license_id) => {
                let mut s = String::from_str("license: ");
                s.append(license_id.as_str());
                s
            },
            Facet::Title(title) => {
                let mut s = String::from_str("title: ");
                s.append(title.as_str());
                s
            },
            Facet::Author(author) => {
                let mut s = String::from_str("author: ");
                s.append(author.as_str());
                s
            },
            Facet::ProjectID(project_id) => {
                let mut s = String::from_str("project_id: ");
                s.append(project_id.as_str());
                s
            },
            Facet::Custom { _type, operation, value } => {
                let mut s = _type.clone();
                s.append(" ");
                s.append(operation.as_str());
                s.append(" ");
                s.append(value.as_str());
                s
            },
        }
    }
}

// ---------------------------------------------------------------------
// Facet group encoding
// ---------------------------------------------------------------------
/// The facet groups as sequences.
pub open spec fn groups_view(groups: Seq<Vec<Facet>>) -> Seq<Seq<Facet>> {
    Seq::new(groups.len(), |i: int| groups[i]@)
}

/// The groups that survive encoding: those with at least one facet.
pub open spec fn non_empty_groups(groups: Seq<Seq<Facet>>) -> Seq<Seq<Facet>> {
    groups.filter(|g: Seq<Facet>| g.len() > 0)
}

/// The tokens of one facet group.
pub open spec fn group_tokens(g: Seq<Facet>) -> Seq<Seq<char>> {
    Seq::new(g.len(), |i: int| facet_token_text(g[i]))
}

/// The tokens of every facet group.
pub open spec fn groups_tokens(groups: Seq<Seq<Facet>>) -> Seq<Seq<Seq<char>>> {
    Seq::new(groups.len(), |i: int| group_tokens(groups[i]))
}

/// The JSON text sent for the facets parameter: the array of arrays of
/// tokens of the non-empty groups.
pub open spec fn facets_json_text(groups: Seq<Seq<Facet>>) -> Seq<char> {
    json_string_matrix(groups_tokens(non_empty_groups(groups)))
}

proof fn lemma_filter_all_kept<A>(s: Seq<A>, pred: spec_fn(A) -> bool)
    requires
        forall|i: int| 0 <= i < s.len() ==> pred(#[trigger] s[i]),
    ensures
        s.filter(pred) == s,
    decreases s.len(),
{
    reveal(Seq::filter);
    if s.len() == 0 {
        assert(s.filter(pred) =~= s);
    } else {
        lemma_filter_all_kept(s.drop_last(), pred);
        assert(s.filter(pred) =~= s);
    }
}

/// Dropping the empty inner groups changes nothing about the encoding:
/// the facets JSON of any group list equals that of its non-empty
/// groups alone, so encoding proceeds as if only those had been given.
pub proof fn lemma_empty_groups_dropped(groups: Seq<Seq<Facet>>)
    ensures
        facets_json_text(groups) == facets_json_text(non_empty_groups(groups)),
{
    let kept = non_empty_groups(groups);
    assert forall|i: int| 0 <= i < kept.len() implies #[trigger] kept[i].len() > 0 by {
        groups.lemma_filter_pred(|g: Seq<Facet>| g.len() > 0, i);
    }
    lemma_filter_all_kept(kept, |g: Seq<Facet>| g.len() > 0);
}

/// Encodes facet groups for transmission.  Every empty inner group is
/// dropped first; when nothing remains the parameter is omitted
/// altogether (`None`) rather than sent as an empty array.
pub fn encode_facets(groups: &Vec<Vec<Facet>>) -> (r: Option<String>)
    ensures
        r is None <==> non_empty_groups(groups_view(groups@)).len() == 0,
        r matches Some(s) ==> s@ == facets_json_text(groups_view(groups@)),
{
    let mut tokens: Vec<Vec<String>> = Vec::new();
    proof {
        assert(groups_view(groups@).take(0) =~= Seq::<Seq<Facet>>::empty());
        assert(non_empty_groups(Seq::<Seq<Facet>>::empty()) =~= Seq::<Seq<Facet>>::empty()) by {
            reveal(Seq::filter);
        }
        assert(tokens.deep_view() =~~= groups_tokens(
            non_empty_groups(groups_view(groups@).take(0)),
        ));
    }
    for i in 0..groups.len()
        invariant
            tokens.deep_view() == groups_tokens(non_empty_groups(groups_view(groups@).take(
                i as int,
            ))),
    {
        let g = &groups[i];
        let ghost gv = groups_view(groups@);
        proof {
            assert(gv.take(i + 1).drop_last() =~= gv.take(i as int));
            assert(gv.take(i + 1).last() == g@);
            reveal(Seq::filter);
        }
        if g.len() > 0 {
            let mut group_strings: Vec<String> = Vec::new();
            proof {
                assert(group_strings.deep_view() =~~= group_tokens(g@).take(0));
            }
            for j in 0..g.len()
                invariant
                    group_strings.deep_view() == group_tokens(g@).take(j as int),
            {
                let ghost before = group_strings;
                proof {
                    assert(group_strings.deep_view() == group_tokens(g@).take(j as int));
                    assert(j <= g@.len());
                    assert(group_tokens(g@).take(j as int).len() == j);
                    assert(group_strings.deep_view().len() == j);
                    assert(group_strings@.len() == j);
                }
                let token = g[j].token();
                proof {
                    assert(token@ == facet_token_text(g@[j as int]));
                }
                group_strings.push(token);
                proof {
                    assert(group_strings@ == before@.push(token));
                    assert(group_strings@.len() == j + 1);
                    assert forall|k: int| 0 <= k < j + 1 implies group_strings.deep_view()[k]
                        == group_tokens(g@).take(j + 1)[k] by {
                        assert(group_strings.deep_view()[k] == group_strings@[k]@);
                        if k < j {
                            assert(group_strings@[k] == before@[k]);
                            assert(before.deep_view()[k] == before@[k]@);
                            assert(before.deep_view()[k] == group_tokens(g@).take(j as int)[k]);
                        } else {
                            assert(group_strings@[k] == token);
                        }
                    }
                    assert(group_strings.deep_view() =~~= group_tokens(g@).take(j + 1));
                }
            }
            proof {
                assert(group_strings.deep_view() =~~= group_tokens(g@));
            }
            let ghost tokens_before = tokens;
            tokens.push(group_strings);
            proof {
                assert(non_empty_groups(gv.take(i + 1)) =~= non_empty_groups(gv.take(i as int)).push(
                    g@,
                ));
                let kept = non_empty_groups(gv.take(i as int));
                assert(tokens_before.deep_view() == groups_tokens(kept));
                assert(tokens_before@.len() == kept.len()) by {
                    assert(tokens_before.deep_view().len() == groups_tokens(kept).len());
                }
                assert(tokens@ == tokens_before@.push(group_strings));
                assert forall|k: int| 0 <= k < tokens@.len() implies tokens.deep_view()[k]
                    == groups_tokens(kept.push(g@))[k] by {
                    assert(tokens.deep_view()[k] == tokens@[k].deep_view());
                    assert(groups_tokens(kept.push(g@))[k] == group_tokens(kept.push(g@)[k]));
                    if k < kept.len() {
                        assert(tokens@[k] == tokens_before@[k]);
                        assert(tokens_before.deep_view()[k] == tokens_before@[k].deep_view());
                        assert(tokens_before.deep_view()[k] == groups_tokens(kept)[k]);
                        assert(groups_tokens(kept)[k] == group_tokens(kept[k]));
                        assert(kept.push(g@)[k] == kept[k]);
                    } else {
                        assert(tokens@[k] == group_strings);
                        assert(kept.push(g@)[k] == g@);
                    }
                }
                assert(tokens.deep_view() =~~= groups_tokens(non_empty_groups(gv.take(i + 1))));
            }
        } else {
            proof {
                assert(non_empty_groups(gv.take(i + 1)) =~= non_empty_groups(gv.take(i as int)));
            }
        }
    }
    proof {
        assert(groups_view(groups@).take(groups@.len() as int) =~= groups_view(groups@));
    }
    if tokens.is_empty() {
        proof {
            assert(non_empty_groups(groups_view(groups@)).len() == 0);
        }
        None
    } else {
        let json = crate::encode::json_of_string_groups(&tokens);
        Some(json)
    }
}

// ---------------------------------------------------------------------
// The search request
// ---------------------------------------------------------------------
/// The limit actually sent: the caller's, or twenty by default.
pub open spec fn effective_limit(limit: Option<u32>) -> u32 {
    match limit {
        Some(l) => l,
        None => 20,
    }
}

/// The offset actually sent: the caller's, or zero by default.
pub open spec fn effective_offset(extended_search: Option<ExtendedSearch>) -> u32 {
    match extended_search {
        Some(e) => match e.offset {
            Some(o) => o,
            None => 0,
        },
        None => 0,
    }
}

/// The facet groups actually considered: the caller's, or none.
pub open spec fn effective_groups(extended_search: Option<ExtendedSearch>) -> Seq<Seq<Facet>> {
    match extended_search {
        Some(e) => groups_view(e.facets@),
        None => Seq::empty(),
    }
}

/// The complete search request target: path `search` with the query,
/// sort key, limit and offset attached, and the facets JSON attached
/// only when a non-empty facet group exists.
pub open spec fn search_url_text(
    query: Seq<char>,
    sort: Sort,
    limit: u32,
    offset: u32,
    groups: Seq<Seq<Facet>>,
) -> Seq<char> {
    let without_facets = base_text() + "search"@ + query_frag(false, "query"@, query) + query_frag(
        true,
        "index"@,
        sort_text(sort),
    ) + query_frag(true, "limit"@, dec_str(limit as nat)) + query_frag(
        true,
        "offset"@,
        dec_str(offset as nat),
    );
    if non_empty_groups(groups).len() == 0 {
        without_facets
    } else {
        without_facets + query_frag(true, "facets"@, facets_json_text(groups))
    }
}

/// Builds the search request target.  The query text is sent as it is
/// (form-encoded); the limit defaults to twenty, the offset to zero,
/// and the facets parameter is omitted when no non-empty group exists.
pub fn search_request(
    query: &str,
    sort: &Sort,
    limit: Option<u32>,
    extended_search: Option<ExtendedSearch>,
) -> (r: EndpointUrl)
    ensures
        r@ == search_url_text(
            query@,
            *sort,
            effective_limit(limit),
            effective_offset(extended_search),
            effective_groups(extended_search),
        ),
        r.query_started(),
{
    let ghost given_extended = extended_search;
    let limit_value: u32 = match limit {
        Some(l) => l,
        None => 20,
    };
    let mut offset_value: u32 = 0;
    let mut facets: Vec<Vec<Facet>> = Vec::new();
    match extended_search {
        Some(e) => {
            offset_value = match e.offset {
                Some(o) => o,
                None => 0,
            };
            facets = e.facets;
        },
        None => {},
    }
    proof {
        assert(limit_value == effective_limit(limit));
        assert(offset_value == effective_offset(given_extended));
        assert(groups_view(facets@) =~= effective_groups(given_extended));
    }
    let segments = vec![String::from_str("search")];
    proof {
        assert(segments.deep_view() =~= seq!["search"@]);
        reveal_strlit("search");
        assert(seg_ok("search"@));
        crate::utils::lemma_seg_identity("search"@);
    }
    let url = EndpointUrl::api_base().join_all(&segments);
    proof {
        assert(crate::utils::joined_text(seq!["search"@]) == seg_text("search"@));
        assert(url@ =~= base_text() + "search"@);
    }
    let url = url.with_query("query", query);
    let url = url.with_query("index", sort.as_str());
    let limit_text = u64_to_string(limit_value as u64);
    let url = url.with_query("limit", limit_text.as_str());
    let offset_text = u64_to_string(offset_value as u64);
    let url = url.with_query("offset", offset_text.as_str());
    let url = match encode_facets(&facets) {
        Some(json) => url.with_query("facets", json.as_str()),
        None => url,
    };
    proof {
        assert(url@ =~= search_url_text(
            query@,
            *sort,
            effective_limit(limit),
            effective_offset(given_extended),
            effective_groups(given_extended),
        ));
    }
    url
}

/// Building a request twice from the same inputs yields identical
/// text: the search builder's contract equates its result with a
/// function of the inputs alone, so any two results for the same
/// query, sort key, limit, offset and facet groups coincide.
pub proof fn lemma_search_build_deterministic(
    query: Seq<char>,
    sort: Sort,
    limit: u32,
    offset: u32,
    groups: Seq<Seq<Facet>>,
    first: Seq<char>,
    second: Seq<char>,
)
    requires
        first == search_url_text(query, sort, limit, offset, groups),
        second == search_url_text(query, sort, limit, offset, groups),
    ensures
        first == second,
{
}

} // verus!
