//! Self-update decisions: whether a newer release is ready to download, and
//! whether a downloaded binary matches its recorded hash. Fetching,
//! unpacking and replacing files happen outside.

use vstd::prelude::*;
use core::cmp::Ordering;
use crate::text::{trim_trailing, chars_of, trim_trailing_end};

verus! {

#[derive(Debug)]
pub struct Author {
    pub login: String,
    pub id: i64,
    pub node_id: String,
    pub avatar_url: String,
    pub gravatar_id: String,
    pub url: String,
    pub html_url: String,
    pub followers_url: String,
    pub following_url: String,
    pub gists_url: String,
    pub starred_url: String,
    pub subscriptions_url: String,
    pub organizations_url: String,
    pub repos_url: String,
    pub events_url: String,
    pub received_events_url: String,
    pub author_type: String,
    pub site_admin: bool,
}

/// A file attached to a release.
#[derive(Debug)]
pub struct Asset {
    pub url: String,
    pub id: i64,
    pub node_id: String,
    pub name: String,
    pub label: String,
    pub uploader: Author,
    pub content_type: String,
    pub state: String,
    pub size: i64,
    pub download_count: i64,
    pub created_at: String,
    pub updated_at: String,
    pub browser_download_url: String,
}

/// The latest published release of the bot.
#[derive(Debug)]
pub struct GithubRelease {
    pub url: String,
    pub assets_url: String,
    pub upload_url: String,
    pub html_url: String,
    pub id: i64,
    pub node_id: String,
    pub tag_name: String,
    pub target_commitish: String,
    pub name: Option<String>,
    pub draft: bool,
    pub author: Author,
    pub prerelease: bool,
    pub created_at: String,
    pub published_at: String,
    pub assets: Vec<Asset>,
    pub tarball_url: String,
    pub zipball_url: String,
    pub body: Option<String>,
}

#[derive(Debug)]
pub struct Commit {
    pub sha: String,
    pub url: String,
}

/// A tag of the repository; the newest comes first in a listing.
#[derive(Debug)]
pub struct GithubTagElement {
    pub name: String,
    pub commit: Commit,
    pub zipball_url: String,
    pub tarball_url: String,
}

#[derive(Debug)]
pub enum UpdateStep {
    /// The running version is the newest tag.
    AlreadyLatest,
    /// A newer tag exists, but its release has no build yet.
    BuildPending,
    /// Download the release's first asset from this address.
    Download(String),
}

#[derive(Debug, Clone, Copy, PartialEq, Eq, Structural)]
pub enum UpdateError {
    /// A version is not semantic-version text.
    BadVersion,
    /// The repository has no tags.
    NoTags,
}

/// How semver orders two versions written as text, `None` if either does
/// not parse.
pub uninterp spec fn version_order(a: Seq<char>, b: Seq<char>) -> Option<Ordering>;

/// Relies on semver::Version::parse and semver's `Ord` for `Version`
/// (build metadata ignored): the order of `a` and `b`.
#[verifier::external_body]
fn compare_versions(a: &str, b: &str) -> (r: Option<Ordering>)
    ensures
        r == version_order(a@, b@),
{
    match (semver::Version::parse(a), semver::Version::parse(b)) {
        (Ok(x), Ok(y)) => Some(x.cmp(&y)),
        _ => None,
    }
}

pub open spec fn step_matches(r: UpdateStep, current_vs_tag: Ordering, tag_vs_release: Ordering, release: &GithubRelease) -> bool {
    if current_vs_tag == Ordering::Equal {
        r is AlreadyLatest
    } else if release.assets@.len() == 0 || tag_vs_release == Ordering::Greater {
        r is BuildPending
    } else {
        r matches UpdateStep::Download(u) && u@ == release.assets@[0].browser_download_url@
    }
}

/// What to do, given how the running version compares with the newest tag
/// and how that tag compares with the latest release: nothing when they are
/// the same; wait when the release has no assets or lags behind the tag;
/// else download the release's first asset.
pub fn decide_update(current_vs_tag: Ordering, tag_vs_release: Ordering, release: &GithubRelease) -> (r: UpdateStep)
    ensures
        step_matches(r, current_vs_tag, tag_vs_release, release),
{
    if let Ordering::Equal = current_vs_tag {
        return UpdateStep::AlreadyLatest;
    }
    let behind = match tag_vs_release {
        Ordering::Greater => true,
        _ => false,
    };
    if release.assets.len() == 0 || behind {
        UpdateStep::BuildPending
    } else {
        UpdateStep::Download(release.assets[0].browser_download_url.clone())
    }
}

/// The update step for a bot at version `current`, given the latest
/// release and the tags, newest first.
pub fn plan_update(current: &str, release: &GithubRelease, tags: &Vec<GithubTagElement>) -> (r: Result<UpdateStep, UpdateError>)
    ensures
        tags@.len() == 0 ==> r == Err::<UpdateStep, UpdateError>(UpdateError::NoTags),
        tags@.len() > 0 ==> match (
            version_order(current@, tags@[0].name@),
            version_order(tags@[0].name@, release.tag_name@),
        ) {
            (Some(a), Some(b)) => r matches Ok(s) && step_matches(s, a, b, release),
            _ => r == Err::<UpdateStep, UpdateError>(UpdateError::BadVersion),
        },
{
    if tags.len() == 0 {
        return Err(UpdateError::NoTags);
    }
    let newest = &tags[0].name;
    let a = compare_versions(current, newest.as_str());
    let b = compare_versions(newest.as_str(), release.tag_name.as_str());
    match (a, b) {
        (Some(a), Some(b)) => Ok(decide_update(a, b, release)),
        _ => Err(UpdateError::BadVersion),
    }
}

/// The BLAKE2b digest of `data`, as lowercase hexadecimal text.
pub uninterp spec fn blake2b_hex_of(data: Seq<u8>) -> Seq<char>;

/// Relies on blake2b_simd::blake2b and `Hash::to_hex`: the default
/// 64-byte BLAKE2b digest of `data` in hexadecimal.
#[verifier::external_body]
fn blake2b_hex(data: &Vec<u8>) -> (r: String)
    ensures
        r@ == blake2b_hex_of(data@),
{
    blake2b_simd::blake2b(data.as_slice()).to_hex().to_string()
}

/// Whether a computed digest equals the recorded one, whose file may end
/// in newlines.
pub fn hash_matches(computed: &str, recorded: &str) -> (r: bool)
    ensures
        r == (computed@ == trim_trailing(recorded@, '\n')),
{
    let c = chars_of(computed);
    let v = chars_of(recorded);
    let e = trim_trailing_end(&v, 0, v.len(), '\n');
    assert(v@.subrange(0, v@.len() as int) =~= recorded@);
    let ghost t = v@.subrange(0, e as int);
    assert(t == trim_trailing(recorded@, '\n'));
    if c.len() != e {
        assert(t.len() == e);
        assert(c@.len() != t.len());
        return false;
    }
    let mut i: usize = 0;
    while i < e
        invariant
            i <= e <= v@.len(),
            c@.len() == e,
            c@ == computed@,
            t == v@.subrange(0, e as int),
            t == trim_trailing(recorded@, '\n'),
            forall|k: int| 0 <= k < i ==> c@[k] == v@[k],
        decreases e - i,
    {
        if c[i] != v[i] {
            assert(t[i as int] != c@[i as int]);
            return false;
        }
        i = i + 1;
    }
    assert(c@ =~= t);
    true
}

/// Whether `binary` hashes to the digest recorded beside it.
pub fn binary_hash_matches(binary: &Vec<u8>, recorded: &str) -> (r: bool)
    ensures
        r == (blake2b_hex_of(binary@) == trim_trailing(recorded@, '\n')),
{
    let computed = blake2b_hex(binary);
    hash_matches(computed.as_str(), recorded)
}

} // verus!
