//! Resolution of a requested version to a concrete downloadable artifact.
//!
//! Each distribution channel walks its vendor API in two metadata hops. The
//! resolver decides which URL to fetch next from what the previous hop
//! returned; the caller performs the fetches and hands back the decoded bodies.
use vstd::prelude::*;
use crate::digest::DigestMismatch;
use crate::text::{decimal, push_decimal};

verus! {

/// The supported distribution channels.
#[derive(Clone, Copy, Debug, PartialEq, Eq, Structural)]
pub enum Channel {
    /// PaperMC builds, published with a SHA-256 digest.
    A,
    /// Fabric installer, published without a digest.
    B,
}

/// Why an install did not complete.
#[derive(Clone, Debug, PartialEq, Eq)]
pub enum InstallError {
    /// Transport failure or a non-success HTTP status.
    Network(String),
    /// A metadata body that does not have the expected shape.
    MalformedMetadata(String),
    /// The version has no published builds.
    NoBuildsFound,
    /// The version has no stable loader.
    NoStableLoader,
    /// The stored artifact does not have its declared digest.
    Digest(DigestMismatch),
    /// The artifact could not be written to disk.
    Storage(String),
}

/// The resolved, installable unit.
#[derive(Clone, Debug, PartialEq, Eq)]
pub struct ArtifactDescriptor {
    pub download_url: String,
    pub expected_digest: Option<String>,
    pub destination: String,
}

/// A decoded metadata body, one variant per kind of vendor response.
#[derive(Clone, Debug, PartialEq, Eq)]
pub enum Metadata {
    /// Build numbers of a version, oldest first.
    BuildList(Vec<i32>),
    /// File name and SHA-256 digest of one build's application download.
    BuildFile { name: String, sha256: String },
    /// Stable loader versions for a game version.
    LoaderList(Vec<String>),
    /// Direct download URL of the installer.
    InstallerLink(String),
}

/// Where a resolution stands.
#[derive(Clone, Debug, PartialEq, Eq)]
pub enum Stage {
    /// Waiting for the build list (channel A).
    Builds,
    /// Waiting for the details of the chosen build (channel A).
    BuildDetails { build: i32 },
    /// Waiting for the stable loader list (channel B).
    Loaders,
    /// Waiting for the installer metadata of the chosen loader (channel B).
    Installer { loader: String },
    /// Resolution has ended.
    Done,
}

/// What the caller does next.
#[derive(Clone, Debug, PartialEq, Eq)]
pub enum ResolveStep {
    /// Fetch this URL and hand its decoded body to `advance`.
    Fetch(String),
    /// The artifact to download.
    Resolved(ArtifactDescriptor),
    /// Resolution failed; nothing is to be downloaded.
    Failed(InstallError),
}

/// A resolution in progress for one channel and version.
pub struct Resolver {
    pub channel: Channel,
    pub version: String,
    pub stage: Stage,
}

pub open spec fn paper_versions_base() -> Seq<char> {
    "https://api.papermc.io/v2/projects/paper/versions/"@
}

pub open spec fn fabric_meta_base() -> Seq<char> {
    "https://meta.fabricmc.net/v2/versions/"@
}

/// URL of the build list of a version (channel A, first hop).
pub open spec fn builds_url(version: Seq<char>) -> Seq<char> {
    paper_versions_base() + version
}

/// URL of one build's details (channel A, second hop).
pub open spec fn build_details_url(version: Seq<char>, build: int) -> Seq<char> {
    builds_url(version) + "/builds/"@ + decimal(build)
}

/// URL of a build's application file (channel A artifact).
pub open spec fn build_download_url(version: Seq<char>, build: int, name: Seq<char>) -> Seq<char> {
    build_details_url(version, build) + "/downloads/"@ + name
}

/// URL of the stable loaders of a game version (channel B, first hop).
pub open spec fn loaders_url(version: Seq<char>) -> Seq<char> {
    fabric_meta_base() + "loader/"@ + version + "/stable"@
}

/// URL of the installer metadata for a game and loader version (channel B, second hop).
pub open spec fn installer_url(version: Seq<char>, loader: Seq<char>) -> Seq<char> {
    fabric_meta_base() + "installer/"@ + version + "/"@ + loader
}

/// Where each channel's artifact is stored.
pub open spec fn destination_of(channel: Channel) -> Seq<char> {
    match channel {
        Channel::A => "minecraft_server/server.jar"@,
        Channel::B => "minecraft_server/fabric-installer.jar"@,
    }
}

/// The stage a channel's resolution starts in.
pub open spec fn first_stage(channel: Channel) -> Stage {
    match channel {
        Channel::A => Stage::Builds,
        Channel::B => Stage::Loaders,
    }
}

/// The first URL a channel's resolution fetches.
pub open spec fn first_url(channel: Channel, version: Seq<char>) -> Seq<char> {
    match channel {
        Channel::A => builds_url(version),
        Channel::B => loaders_url(version),
    }
}

/// Builds `prefix` followed by `rest`.
fn joined(prefix: &str, rest: &str) -> (r: String)
    ensures
        r@ == prefix@ + rest@,
{
    let mut s = String::from_str(prefix);
    s.append(rest);
    s
}

/// The URL of the build list of `version`.
pub fn make_builds_url(version: &str) -> (r: String)
    ensures
        r@ == builds_url(version@),
{
    joined("https://api.papermc.io/v2/projects/paper/versions/", version)
}

/// The URL of the details of build `build` of `version`.
pub fn make_build_details_url(version: &str, build: i32) -> (r: String)
    ensures
        r@ == build_details_url(version@, build as int),
{
    let mut s = make_builds_url(version);
    s.append("/builds/");
    push_decimal(&mut s, build);
    s
}

/// The download URL of file `name` of build `build` of `version`.
pub fn make_build_download_url(version: &str, build: i32, name: &str) -> (r: String)
    ensures
        r@ == build_download_url(version@, build as int, name@),
{
    let mut s = make_build_details_url(version, build);
    s.append("/downloads/");
    s.append(name);
    s
}

/// The URL of the stable loaders of game version `version`.
pub fn make_loaders_url(version: &str) -> (r: String)
    ensures
        r@ == loaders_url(version@),
{
    let mut s = joined("https://meta.fabricmc.net/v2/versions/", "loader/");
    s.append(version);
    s.append("/stable");
    s
}

/// The URL of the installer metadata for `version` and `loader`.
pub fn make_installer_url(version: &str, loader: &str) -> (r: String)
    ensures
        r@ == installer_url(version@, loader@),
{
    let mut s = joined("https://meta.fabricmc.net/v2/versions/", "installer/");
    s.append(version);
    s.append("/");
    s.append(loader);
    s
}

/// The path where a channel's artifact is stored.
pub fn destination_for(channel: Channel) -> (r: String)
    ensures
        r@ == destination_of(channel),
{
    match channel {
        Channel::A => String::from_str("minecraft_server/server.jar"),
        Channel::B => String::from_str("minecraft_server/fabric-installer.jar"),
    }
}

/// The most recent build: the last entry of the list, if any.
pub fn select_latest_build(builds: &Vec<i32>) -> (r: Option<i32>)
    ensures
        builds@.len() == 0 ==> r is None,
        builds@.len() > 0 ==> r == Some(builds@.last()),
{
    let n = builds.len();
    if n == 0 {
        None
    } else {
        Some(builds[n - 1])
    }
}

/// The stable loader to use: the first entry of the list, if any.
pub fn select_stable_loader(loaders: &Vec<String>) -> (r: Option<String>)
    ensures
        loaders@.len() == 0 ==> r is None,
        loaders@.len() > 0 ==> r == Some(loaders@[0]),
{
    if loaders.len() == 0 {
        None
    } else {
        Some(loaders[0].clone())
    }
}

impl Resolver {
    /// Starts resolving `version` on `channel`; returns the resolver and the
    /// first URL to fetch.
    pub fn begin(channel: Channel, version: &str) -> (r: (Resolver, String))
        ensures
            r.0.channel == channel,
            r.0.version@ == version@,
            r.0.stage == first_stage(channel),
            r.1@ == first_url(channel, version@),
    {
        match channel {
            Channel::A => (
                Resolver { channel, version: String::from_str(version), stage: Stage::Builds },
                make_builds_url(version),
            ),
            Channel::B => (
                Resolver { channel, version: String::from_str(version), stage: Stage::Loaders },
                make_loaders_url(version),
            ),
        }
    }

    /// Takes the outcome of the last fetch and decides the next step.
    ///
    /// A failed fetch ends the resolution with that error. An empty build or
    /// loader list ends it with `NoBuildsFound` or `NoStableLoader`. A body of
    /// a kind the current stage does not expect ends it as malformed.
    pub fn advance(&mut self, reply: Result<Metadata, InstallError>) -> (r: ResolveStep)
        ensures
            final(self).channel == old(self).channel,
            final(self).version == old(self).version,
            match reply {
                Err(e) => r == ResolveStep::Failed(e) && final(self).stage == Stage::Done,
                Ok(m) => match (old(self).stage, m) {
                    (Stage::Builds, Metadata::BuildList(bs)) => if bs@.len() == 0 {
                        r == ResolveStep::Failed(InstallError::NoBuildsFound)
                            && final(self).stage == Stage::Done
                    } else {
                        final(self).stage == (Stage::BuildDetails { build: bs@.last() })
                            && (r matches ResolveStep::Fetch(u)
                            && u@ == build_details_url(old(self).version@, bs@.last() as int))
                    },
                    (Stage::BuildDetails { build }, Metadata::BuildFile { name, sha256 }) =>
                        final(self).stage == Stage::Done
                            && (r matches ResolveStep::Resolved(d)
                            && d.download_url@ == build_download_url(old(self).version@, build as int, name@)
                            && d.expected_digest == Some(sha256)
                            && d.destination@ == destination_of(Channel::A)),
                    (Stage::Loaders, Metadata::LoaderList(ls)) => if ls@.len() == 0 {
                        r == ResolveStep::Failed(InstallError::NoStableLoader)
                            && final(self).stage == Stage::Done
                    } else {
                        final(self).stage == (Stage::Installer { loader: ls@[0] })
                            && (r matches ResolveStep::Fetch(u)
                            && u@ == installer_url(old(self).version@, ls@[0]@))
                    },
                    (Stage::Installer { loader }, Metadata::InstallerLink(url)) =>
                        final(self).stage == Stage::Done
                            && (r matches ResolveStep::Resolved(d)
                            && d.download_url == url
                            && d.expected_digest is None
                            && d.destination@ == destination_of(Channel::B)),
                    _ => final(self).stage == Stage::Done
                        && (r matches ResolveStep::Failed(InstallError::MalformedMetadata(_))),
                },
            },
    {
        let reply = match reply {
            Err(e) => {
                self.stage = Stage::Done;
                return ResolveStep::Failed(e);
            },
            Ok(m) => m,
        };
        let step = match (&self.stage, reply) {
            (Stage::Builds, Metadata::BuildList(bs)) => match select_latest_build(&bs) {
                None => ResolveStep::Failed(InstallError::NoBuildsFound),
                Some(build) => {
                    let url = make_build_details_url(self.version.as_str(), build);
                    self.stage = Stage::BuildDetails { build };
                    return ResolveStep::Fetch(url);
                },
            },
            (Stage::BuildDetails { build }, Metadata::BuildFile { name, sha256 }) => {
                let url = make_build_download_url(self.version.as_str(), *build, name.as_str());
                ResolveStep::Resolved(ArtifactDescriptor {
                    download_url: url,
                    expected_digest: Some(sha256),
                    destination: destination_for(Channel::A),
                })
            },
            (Stage::Loaders, Metadata::LoaderList(ls)) => match select_stable_loader(&ls) {
                None => ResolveStep::Failed(InstallError::NoStableLoader),
                Some(loader) => {
                    let url = make_installer_url(self.version.as_str(), loader.as_str());
                    self.stage = Stage::Installer { loader };
                    return ResolveStep::Fetch(url);
                },
            },
            (Stage::Installer { .. }, Metadata::InstallerLink(url)) => {
                ResolveStep::Resolved(ArtifactDescriptor {
                    download_url: url,
                    expected_digest: None,
                    destination: destination_for(Channel::B),
                })
            },
            _ => ResolveStep::Failed(InstallError::MalformedMetadata(
                String::from_str("unexpected metadata for this resolution stage"),
            )),
        };
        self.stage = Stage::Done;
        step
    }
}

} // verus!
