//! Version records, version filters and the version-related requests.

use vstd::prelude::*;

use crate::encode::bool_text;
use crate::encode::json_string_array;
use crate::utils::base_text;
use crate::utils::check_id_slug;
use crate::utils::joined_text;
use crate::utils::query_frag;
use crate::utils::seg_ok;
use crate::utils::seg_text;
use crate::utils::valid_identifier;
use crate::utils::EndpointUrl;
use crate::Error;

verus! {

/// A version record, produced by decoding a successful response body.
/// Timestamps are carried as the RFC 3339 text the API sent.
#[derive(Debug, Clone, PartialEq)]
pub struct Version {
    pub name: String,
    pub version_number: String,
    pub changelog: Option<String>,
    pub dependencies: Vec<Dependencies>,
    pub game_versions: Vec<String>,
    pub version_type: VersionType,
    pub loaders: Vec<String>,
    pub featured: bool,
    pub status: Option<Status>,
    pub requested_status: Option<RequestedStatus>,
    pub id: String,
    pub project_id: String,
    pub author_id: String,
    pub date_published: String,
    pub downloads: usize,
    pub files: Vec<File>,
}

#[derive(Debug, Clone, PartialEq)]
pub struct Dependencies {
    pub version_id: Option<String>,
    pub project_id: Option<String>,
    pub file_name: Option<String>,
    pub dependency_type: DependencyType,
}

#[derive(Debug, Clone, Copy, PartialEq, Eq)]
pub enum DependencyType {
    Required,
    Optional,
    Incompatible,
    Embedded,
}

#[derive(Debug, Clone, Copy, PartialEq, Eq)]
pub enum VersionType {
    Release,
    Beta,
    Alpha,
}

#[derive(Debug, Clone, Copy, PartialEq, Eq)]
pub enum Status {
    Listed,
    Archived,
    Draft,
    Unlisted,
    Scheduled,
    Unknown,
}

#[derive(Debug, Clone, Copy, PartialEq, Eq)]
pub enum RequestedStatus {
    Listed,
    Archived,
    Draft,
    Unlisted,
}

#[derive(Debug, Clone, PartialEq)]
pub struct File {
    pub hashes: Hash,
    pub url: String,
    pub filename: String,
    pub primary: bool,
    pub size: usize,
    pub file_type: Option<FileType>,
}

#[derive(Debug, Clone, PartialEq)]
pub struct Hash {
    pub sha512: String,
    pub sha1: String,
}

#[derive(Debug, Clone, Copy, PartialEq, Eq)]
pub enum FileType {
    RequiredResourcePack,
    OptionalResourcePack,
}

/// Optional filters for listing the versions of a project.  Absent
/// filters are omitted from the request, not sent as empty values.
#[derive(Debug, Clone, PartialEq)]
pub struct ProjectVersionsFilter {
    pub loaders: Option<Vec<String>>,
    pub game_versions: Option<Vec<String>>,
    pub featured: Option<bool>,
}

impl Default for ProjectVersionsFilter {
    /// No filters: every version of the project is requested.
    fn default() -> (r: Self)
        ensures
            r.loaders is None,
            r.game_versions is None,
            r.featured is None,
    {
        ProjectVersionsFilter { loaders: None, game_versions: None, featured: None }
    }
}

/// Optional parameters for requesting one version of a project by a
/// version number or ID.
#[derive(Debug, Clone, PartialEq)]
pub struct ProjectVersionParams {
    /// Get a version given a version number or ID.
    ///
    /// Note:
    ///   * if the version number provided matches multiple versions,
    ///     only the oldest matching version will be returned.
    pub number: Option<String>,
    pub loaders: Option<Vec<String>>,
    pub game_versions: Option<Vec<String>>,
    pub featured: Option<bool>,
}

impl Default for ProjectVersionParams {
    /// An empty version number and no filters.
    fn default() -> (r: Self)
        ensures
            (r.number matches Some(n) && n@ == Seq::<char>::empty()),
            r.loaders is None,
            r.game_versions is None,
            r.featured is None,
    {
        ProjectVersionParams {
            number: Some(String::new()),
            loaders: None,
            game_versions: None,
            featured: None,
        }
    }
}

// ---------------------------------------------------------------------
// Filter semantics
// ---------------------------------------------------------------------
/// Whether a list of strings holds the given string.
pub open spec fn contains_text(hay: Seq<Seq<char>>, needle: Seq<char>) -> bool {
    exists|i: int| 0 <= i < hay.len() && hay[i] == needle
}

/// Whether two lists of strings share an element.
pub open spec fn texts_intersect(wanted: Seq<Seq<char>>, offered: Seq<Seq<char>>) -> bool {
    exists|i: int| 0 <= i < wanted.len() && contains_text(offered, #[trigger] wanted[i])
}

/// What the filter selects: the version must carry the requested
/// featured flag, support one of the requested loaders, and support one
/// of the requested game versions; an absent filter constrains nothing.
pub open spec fn filter_selects(f: &ProjectVersionsFilter, v: &Version) -> bool {
    &&& (match f.featured {
        Some(b) => v.featured == b,
        None => true,
    })
    &&& (match f.loaders {
        Some(ls) => texts_intersect(ls.deep_view(), v.loaders.deep_view()),
        None => true,
    })
    &&& (match f.game_versions {
        Some(gs) => texts_intersect(gs.deep_view(), v.game_versions.deep_view()),
        None => true,
    })
}

fn vec_contains_string(hay: &Vec<String>, needle: &String) -> (r: bool)
    ensures
        r == contains_text(hay.deep_view(), needle@),
{
    for i in 0..hay.len()
        invariant
            forall|j: int| 0 <= j < i ==> hay.deep_view()[j] != needle@,
    {
        if hay[i] == *needle {
            proof {
                assert(hay.deep_view()[i as int] == hay@[i as int]@);
                assert(hay.deep_view()[i as int] == needle@);
            }
            return true;
        }
    }
    false
}

fn vecs_intersect(wanted: &Vec<String>, offered: &Vec<String>) -> (r: bool)
    ensures
        r == texts_intersect(wanted.deep_view(), offered.deep_view()),
{
    for i in 0..wanted.len()
        invariant
            forall|j: int| 0 <= j < i ==> !contains_text(
                offered.deep_view(),
                #[trigger] wanted.deep_view()[j],
            ),
    {
        if vec_contains_string(offered, &wanted[i]) {
            proof {
                assert(contains_text(offered.deep_view(), wanted.deep_view()[i as int]));
            }
            return true;
        }
    }
    false
}

impl ProjectVersionsFilter {
    /// Whether this filter selects the given version.
    pub fn selects(&self, version: &Version) -> (r: bool)
        ensures
            r == filter_selects(self, version),
    {
        let featured_ok = match &self.featured {
            Some(b) => version.featured == *b,
            None => true,
        };
        let loaders_ok = match &self.loaders {
            Some(ls) => vecs_intersect(ls, &version.loaders),
            None => true,
        };
        let game_versions_ok = match &self.game_versions {
            Some(gs) => vecs_intersect(gs, &version.game_versions),
            None => true,
        };
        featured_ok && loaders_ok && game_versions_ok
    }
}

// ---------------------------------------------------------------------
// Request targets
// ---------------------------------------------------------------------
/// The path for listing the versions of a project:
/// `project/{id}/version` under the base.
pub open spec fn project_versions_path(id: Seq<char>) -> Seq<char> {
    base_text() + "project/"@ + seg_text(id) + "/version"@
}

/// The query text for the optional version filters, in the order
/// loaders, game versions, featured; each attached only when present.
pub open spec fn filter_query_text(
    loaders: Option<Seq<Seq<char>>>,
    game_versions: Option<Seq<Seq<char>>>,
    featured: Option<bool>,
) -> Seq<char> {
    let loaders_part = match loaders {
        Some(ls) => query_frag(false, "loaders"@, json_string_array(ls)),
        None => seq![],
    };
    let started_after_loaders = loaders is Some;
    let game_versions_part = match game_versions {
        Some(gs) => query_frag(started_after_loaders, "game_versions"@, json_string_array(gs)),
        None => seq![],
    };
    let started_after_game_versions = started_after_loaders || game_versions is Some;
    let featured_part = match featured {
        Some(b) => query_frag(started_after_game_versions, "featured"@, bool_text(b)),
        None => seq![],
    };
    loaders_part + game_versions_part + featured_part
}

/// The request target for listing the versions of a project, with the
/// optional filters attached.
pub open spec fn project_versions_url_text(
    id: Seq<char>,
    filter: Option<&ProjectVersionsFilter>,
) -> Seq<char> {
    match filter {
        None => project_versions_path(id),
        Some(f) => project_versions_path(id) + filter_query_text(
            f.loaders.deep_view(),
            f.game_versions.deep_view(),
            f.featured,
        ),
    }
}

/// The request target for one version of a project, addressed by a
/// version number or ID, with the optional filters attached.
pub open spec fn project_version_url_text(
    id: Seq<char>,
    number: Seq<char>,
    p: &ProjectVersionParams,
) -> Seq<char> {
    base_text() + "project/"@ + seg_text(id) + "/version/"@ + seg_text(number)
        + filter_query_text(p.loaders.deep_view(), p.game_versions.deep_view(), p.featured)
}

/// The request target for a version lookup: `version/{id}` under the
/// base.
pub open spec fn version_url_text(id: Seq<char>) -> Seq<char> {
    base_text() + "version/"@ + seg_text(id)
}

proof fn lemma_version_literals()
    ensures
        seg_ok("project"@),
        seg_ok("version"@),
        seg_text("project"@) == "project"@,
        seg_text("version"@) == "version"@,
        "project"@ + seq!['/'] == "project/"@,
        "version"@ + seq!['/'] == "version/"@,
        seq!['/'] + "version"@ == "/version"@,
        seq!['/'] + "version"@ + seq!['/'] == "/version/"@,
{
    reveal_strlit("project");
    reveal_strlit("version");
    reveal_strlit("project/");
    reveal_strlit("version/");
    reveal_strlit("/version");
    reveal_strlit("/version/");
    assert(seg_ok("project"@));
    assert(seg_ok("version"@));
    crate::utils::lemma_seg_identity("project"@);
    crate::utils::lemma_seg_identity("version"@);
    assert("project"@ + seq!['/'] =~= "project/"@);
    assert("version"@ + seq!['/'] =~= "version/"@);
    assert(seq!['/'] + "version"@ =~= "/version"@);
    assert(seq!['/'] + "version"@ + seq!['/'] =~= "/version/"@);
}

fn attach_filter_queries(
    url: EndpointUrl,
    loaders: &Option<Vec<String>>,
    game_versions: &Option<Vec<String>>,
    featured: &Option<bool>,
) -> (r: EndpointUrl)
    requires
        !url.query_started(),
    ensures
        r@ == url@ + filter_query_text(
            loaders.deep_view(),
            game_versions.deep_view(),
            *featured,
        ),
{
    let u = url.add_optional_query_json("loaders", loaders);
    let u = u.add_optional_query_json("game_versions", game_versions);
    let u = u.add_optional_query_bool("featured", featured);
    proof {
        assert(u@ =~= url@ + filter_query_text(
            loaders.deep_view(),
            game_versions.deep_view(),
            *featured,
        ));
    }
    u
}

/// Builds the request target for listing a project's versions, with the
/// optional filters attached only when supplied.  A malformed project
/// identifier is rejected before any URL is built.
pub fn project_versions_request(project_id: &str, filter: Option<&ProjectVersionsFilter>) -> (r:
    Result<EndpointUrl, Error>)
    ensures
        valid_identifier(project_id@) ==> (r matches Ok(u) && u@ == project_versions_url_text(
            project_id@,
            filter,
        )),
        !valid_identifier(project_id@) ==> r == Err::<EndpointUrl, Error>(Error::InvalidIDorSlug),
{
    let ids = vec![String::from_str(project_id)];
    proof {
        assert(ids.deep_view() =~= seq![project_id@]);
    }
    if let Err(e) = check_id_slug(&ids) {
        proof {
            assert(!valid_identifier(project_id@));
        }
        return Err(e);
    }
    proof {
        assert(valid_identifier(project_id@)) by {
            assert(ids.deep_view()[0] == project_id@);
        }
        lemma_version_literals();
    }
    let segments = vec![
        String::from_str("project"),
        String::from_str(project_id),
        String::from_str("version"),
    ];
    proof {
        assert(segments.deep_view() =~= seq!["project"@, project_id@, "version"@]);
    }
    let url = EndpointUrl::api_base().join_all(&segments);
    proof {
        crate::utils::lemma_joined3("project"@, project_id@, "version"@);
        assert(url@ =~= project_versions_path(project_id@));
    }
    match filter {
        None => Ok(url),
        Some(f) => {
            let u = attach_filter_queries(url, &f.loaders, &f.game_versions, &f.featured);
            Ok(u)
        },
    }
}

/// Builds the request target for one version of a project, addressed by
/// a version number or ID.  Both the project identifier and the version
/// number are validated before any URL is built.
pub fn project_version_request(project_id: &str, params: Option<&ProjectVersionParams>) -> (r:
    Result<EndpointUrl, Error>)
    requires
        (match params {
            Some(p) => p.number is Some,
            None => true,
        }),
    ensures
        (match params {
            None => {
                &&& valid_identifier(project_id@) ==> (r matches Ok(u) && u@
                    == project_versions_path(project_id@))
                &&& !valid_identifier(project_id@) ==> r == Err::<EndpointUrl, Error>(
                    Error::InvalidIDorSlug,
                )
            },
            Some(p) => {
                let number = p.number->0@;
                &&& (valid_identifier(project_id@) && valid_identifier(number)) ==> (r matches Ok(u)
                    && u@ == project_version_url_text(project_id@, number, p))
                &&& !(valid_identifier(project_id@) && valid_identifier(number)) ==> r == Err::<
                    EndpointUrl,
                    Error,
                >(Error::InvalidIDorSlug)
            },
        }),
{
    match params {
        None => {
            let ids = vec![String::from_str(project_id)];
            proof {
                assert(ids.deep_view() =~= seq![project_id@]);
            }
            if let Err(e) = check_id_slug(&ids) {
                proof {
                    assert(!valid_identifier(project_id@));
                }
                return Err(e);
            }
            proof {
                assert(valid_identifier(project_id@)) by {
                    assert(ids.deep_view()[0] == project_id@);
                }
                lemma_version_literals();
            }
            let segments = vec![
                String::from_str("project"),
                String::from_str(project_id),
                String::from_str("version"),
            ];
            proof {
                assert(segments.deep_view() =~= seq!["project"@, project_id@, "version"@]);
            }
            let url = EndpointUrl::api_base().join_all(&segments);
            proof {
                crate::utils::lemma_joined3("project"@, project_id@, "version"@);
                assert(url@ =~= project_versions_path(project_id@));
            }
            Ok(url)
        },
        Some(p) => {
            // The precondition guarantees a version number is present.
            let number = match &p.number {
                Some(n) => n.as_str(),
                None => "",
            };
            let ids = vec![String::from_str(project_id), String::from_str(number)];
            proof {
                assert(ids.deep_view() =~= seq![project_id@, number@]);
            }
            if let Err(e) = check_id_slug(&ids) {
                proof {
                    assert(!(valid_identifier(project_id@) && valid_identifier(number@))) by {
                        assert(ids.deep_view()[0] == project_id@);
                        assert(ids.deep_view()[1] == number@);
                    }
                }
                return Err(e);
            }
            proof {
                assert(valid_identifier(project_id@) && valid_identifier(number@)) by {
                    assert(ids.deep_view()[0] == project_id@);
                    assert(ids.deep_view()[1] == number@);
                }
                lemma_version_literals();
            }
            let segments = vec![
                String::from_str("project"),
                String::from_str(project_id),
                String::from_str("version"),
                String::from_str(number),
            ];
            proof {
                assert(segments.deep_view() =~= seq![
                    "project"@,
                    project_id@,
                    "version"@,
                    number@,
                ]);
            }
            let url = EndpointUrl::api_base().join_all(&segments);
            proof {
                crate::utils::lemma_joined4("project"@, project_id@, "version"@, number@);
                assert(url@ =~= base_text() + "project/"@ + seg_text(project_id@) + "/version/"@
                    + seg_text(number@));
            }
            let u = attach_filter_queries(url, &p.loaders, &p.game_versions, &p.featured);
            proof {
                assert(u@ =~= project_version_url_text(project_id@, number@, p));
            }
            Ok(u)
        },
    }
}

/// Builds the request target for a version lookup by version ID.  A
/// malformed identifier is rejected before any URL is built.
pub fn version_request(version_id: &str) -> (r: Result<EndpointUrl, Error>)
    ensures
        valid_identifier(version_id@) ==> (r matches Ok(u) && u@ == version_url_text(version_id@)
            && !u.query_started()),
        !valid_identifier(version_id@) ==> r == Err::<EndpointUrl, Error>(Error::InvalidIDorSlug),
{
    let ids = vec![String::from_str(version_id)];
    proof {
        assert(ids.deep_view() =~= seq![version_id@]);
    }
    if let Err(e) = check_id_slug(&ids) {
        proof {
            assert(!valid_identifier(version_id@));
        }
        return Err(e);
    }
    proof {
        assert(valid_identifier(version_id@)) by {
            assert(ids.deep_view()[0] == version_id@);
        }
        lemma_version_literals();
    }
    let segments = vec![String::from_str("version"), String::from_str(version_id)];
    proof {
        assert(segments.deep_view() =~= seq!["version"@, version_id@]);
    }
    let url = EndpointUrl::api_base().join_all(&segments);
    proof {
        let segs = segments.deep_view();
        assert(segs.drop_last() =~= seq!["version"@]);
        assert(joined_text(seq!["version"@]) == seg_text("version"@));
        assert(url@ =~= version_url_text(version_id@));
    }
    Ok(url)
}

} // verus!
