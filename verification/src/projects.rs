//! Project records and the get-project request.

use vstd::prelude::*;

use crate::utils::base_text;
use crate::utils::check_id_slug;
use crate::utils::seg_ok;
use crate::utils::seg_text;
use crate::utils::valid_identifier;
use crate::utils::EndpointUrl;
use crate::Error;

verus! {

/// A project record, produced by decoding a successful response body.
/// Timestamps are carried as the RFC 3339 text the API sent.
#[derive(Debug, Clone, PartialEq)]
pub struct Project {
    /// The slug of a project, used for vanity URLs
    pub slug: String,
    /// Title of the project
    pub title: String,
    /// A short description of the project
    pub description: String,
    /// A list of the categories that the project has
    pub categories: Vec<String>,
    /// The client side support of the project
    pub client_side: ProjectSupportRange,
    /// The server side support of the project
    pub server_side: ProjectSupportRange,
    /// A long form description of the project
    pub body: String,
    /// The status of the project
    pub status: ProjectStatus,
    /// The requested status when submitting for review or scheduling the project for release
    pub requested_status: Option<RequestedStatus>,
    /// A list of categories which are searchable but non-primary
    pub additional_categories: Vec<String>,
    /// An optional link to where to submit bugs or issues with the project
    pub issues_url: Option<String>,
    /// An optional link to the source code of the project
    pub source_url: Option<String>,
    /// An optional link to the project's wiki page or other relevant information
    pub wiki_url: Option<String>,
    /// An optional invite link to the project's discord
    pub discord_url: Option<String>,
    /// Donation links / urls
    pub donation_urls: Vec<DonationLink>,
    pub project_type: String,
    pub downloads: usize,
    /// Project icon URL
    pub icon_url: Option<String>,
    /// The RGB color of the project, automatically generated from the project icon
    pub color: Option<usize>,
    /// The ID of the moderation thread associated with this project
    pub thread_id: String,
    pub monetization_status: MonetizationStatus,
    pub id: String,
    /// The ID of the team that has ownership of this project
    pub team: String,
    pub published: String,
    pub updated: String,
    /// The date the project's status was approved
    pub approved: Option<String>,
    pub queued: Option<String>,
    pub followers: usize,
    pub license: License,
    /// A list of the version IDs of the project (will never be empty unless draft status)
    pub versions: Vec<String>,
    /// A list of all the game versions supported by the project
    pub game_versions: Vec<String>,
    /// A list of all the loaders supported by the project
    pub loaders: Vec<String>,
}

impl Project {
    /// A read-only alias for the [`Project::donation_urls`] field.
    pub fn donation_links(&self) -> (r: &Vec<DonationLink>)
        ensures
            r == &self.donation_urls,
    {
        &self.donation_urls
    }
}

#[derive(Debug, Clone, Copy, PartialEq, Eq)]
pub enum ProjectType {
    /// Can be a mod, plugin, or data pack
    Project,
    Mod,
    Shader,
    Plugin,
    Modpack,
    Datapack,
    ResourcePack,
}

#[derive(Debug, Clone, Copy, PartialEq, Eq)]
pub enum MonetizationStatus {
    Monetized,
    Demonetized,
    ForceDemonetized,
}

#[derive(Debug, Clone, PartialEq)]
pub struct License {
    pub id: String,
    pub name: String,
    pub url: Option<String>,
}

#[derive(Debug, Clone, Copy, PartialEq, Eq)]
pub enum ProjectSupportRange {
    Required,
    Optional,
    Unsupported,
    Unknown,
}

#[derive(Debug, Clone, Copy, PartialEq, Eq)]
pub enum ProjectStatus {
    Approved,
    Archived,
    Rejected,
    Draft,
    Unlisted,
    Processing,
    Withheld,
    Scheduled,
    Private,
    Unknown,
}

#[derive(Debug, Clone, Copy, PartialEq, Eq)]
pub enum RequestedStatus {
    Approved,
    Archived,
    Unlisted,
    Private,
    Draft,
}

#[derive(Debug, Clone, PartialEq)]
pub struct DonationLink {
    pub id: String,
    pub platform: String,
    pub url: String,
}

/// The request target for one project: `project/{id}` under the base.
pub open spec fn project_url_text(id: Seq<char>) -> Seq<char> {
    base_text() + "project/"@ + seg_text(id)
}

proof fn lemma_project_literal()
    ensures
        seg_ok("project"@),
        seg_text("project"@) == "project"@,
        "project"@ + seq!['/'] == "project/"@,
{
    reveal_strlit("project");
    reveal_strlit("project/");
    assert(seg_ok("project"@));
    crate::utils::lemma_seg_identity("project"@);
    assert("project"@ + seq!['/'] =~= "project/"@);
}

/// An identifier free of `"` and backticks is embedded verbatim: the
/// request target is exactly the base, then `project/`, then the
/// identifier, with no slash duplicated or dropped.
pub proof fn lemma_project_url_verbatim(id: Seq<char>)
    requires
        forall|i: int| 0 <= i < id.len() ==> #[trigger] id[i] != '"' && id[i] != '`',
    ensures
        project_url_text(id) == base_text() + "project/"@ + id,
{
    crate::utils::lemma_seg_identity(id);
}

/// Builds the request target for a project lookup.  A malformed
/// identifier is rejected before any URL is built.
pub fn project_request(project_id: &str) -> (r: Result<EndpointUrl, Error>)
    ensures
        valid_identifier(project_id@) ==> (r matches Ok(u) && u@ == project_url_text(project_id@)
            && !u.query_started()),
        !valid_identifier(project_id@) ==> r == Err::<EndpointUrl, Error>(Error::InvalidIDorSlug),
{
    let ids = vec![String::from_str(project_id)];
    proof {
        assert(ids.deep_view() =~= seq![project_id@]);
    }
    if let Err(e) = check_id_slug(&ids) {
        proof {
            assert(!valid_identifier(project_id@));
        }
        return Err(e);
    }
    proof {
        assert(valid_identifier(project_id@)) by {
            assert(ids.deep_view()[0] == project_id@);
        }
        lemma_project_literal();
    }
    let segments = vec![String::from_str("project"), String::from_str(project_id)];
    proof {
        assert(segments.deep_view() =~= seq!["project"@, project_id@]);
    }
    let url = EndpointUrl::api_base().join_all(&segments);
    proof {
        let segs = segments.deep_view();
        assert(segs.drop_last() =~= seq!["project"@]);
        assert(crate::utils::joined_text(seq!["project"@]) == seg_text("project"@));
        assert(url@ =~= project_url_text(project_id@));
    }
    Ok(url)
}

} // verus!
