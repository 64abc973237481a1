//! The artifact mapper: which file holds a build of the tool for a
//! platform, and where it is downloaded from.

use crate::error::{ResolveError, ResolveErrorView};
use crate::platform::{Arch, Os, Platform};
use crate::text::{replace_all, replaced, same_text, text_of, trim, trimmed};
use crate::version::{semver_parse, version_text, Version, VersionView};
use vstd::prelude::*;
use vstd::string::*;

verus! {

/// What identifies the tool: its names, the platforms it is built for, and
/// the address template of its pinned releases.
#[derive(Debug, PartialEq, Eq)]
pub struct Tool {
    /// The name that messages give the tool.
    pub name: String,
    /// The name of its executable, which also opens its artifact names.
    pub bin: String,
    /// The platforms that builds are published for.
    pub targets: Vec<Platform>,
    /// The address of a pinned release, with `{version}` for the version
    /// and `{file}` for the artifact name.
    pub dist_url: String,
}

/// The mathematical value of a [`Tool`].
pub ghost struct ToolView {
    pub name: Seq<char>,
    pub bin: Seq<char>,
    pub targets: Seq<Platform>,
    pub dist_url: Seq<char>,
}

impl View for Tool {
    type V = ToolView;

    open spec fn view(&self) -> ToolView {
        ToolView {
            name: self.name@,
            bin: self.bin@,
            targets: self.targets@,
            dist_url: self.dist_url@,
        }
    }
}

/// The platforms that Deno is built for. Linux and Windows have builds for
/// one architecture only, macOS for both.
pub open spec fn deno_targets() -> Seq<Platform> {
    seq![
        Platform { os: Os::Linux, arch: Arch::X64 },
        Platform { os: Os::MacOS, arch: Arch::X64 },
        Platform { os: Os::MacOS, arch: Arch::Arm64 },
        Platform { os: Os::Windows, arch: Arch::X64 },
    ]
}

/// Deno, as this library knows it.
pub open spec fn deno_tool() -> ToolView {
    ToolView {
        name: "Deno"@,
        bin: "deno"@,
        targets: deno_targets(),
        dist_url: "https://dl.deno.land/release/v{version}/{file}"@,
    }
}

/// Whether `tool` has a build for `platform`: its table lists the pair, and
/// both halves of the pair are known.
pub open spec fn supports(tool: ToolView, platform: Platform) -> bool {
    tool.targets.contains(platform) && platform.os != Os::Other && platform.arch != Arch::Other
}

/// The name of the artifact that holds the build of `tool` for `platform`:
/// the executable's name, the architecture's token and the operating
/// system's triple suffix, joined by hyphens, with the extension `.zip`.
pub open spec fn artifact_name(tool: ToolView, platform: Platform) -> Seq<char> {
    tool.bin + "-"@ + platform.arch.triple_token() + "-"@ + platform.os.triple_suffix() + ".zip"@
}

impl Tool {
    /// Deno with its default release address.
    pub fn deno() -> (r: Tool)
        ensures
            r@ == deno_tool(),
    {
        let mut targets: Vec<Platform> = Vec::new();
        targets.push(Platform { os: Os::Linux, arch: Arch::X64 });
        targets.push(Platform { os: Os::MacOS, arch: Arch::X64 });
        targets.push(Platform { os: Os::MacOS, arch: Arch::Arm64 });
        targets.push(Platform { os: Os::Windows, arch: Arch::X64 });
        assert(targets@ =~= deno_targets());
        Tool {
            name: String::from_str("Deno"),
            bin: String::from_str("deno"),
            targets,
            dist_url: String::from_str("https://dl.deno.land/release/v{version}/{file}"),
        }
    }

    /// Tests whether the tool has a build for `platform`.
    pub fn is_supported(&self, platform: Platform) -> (r: bool)
        ensures
            r == supports(self@, platform),
    {
        if platform.os == Os::Other || platform.arch == Arch::Other {
            return false;
        }
        let n: usize = self.targets.len();
        let mut i: usize = 0;
        while i < n
            invariant
                n == self.targets@.len(),
                i <= n,
                platform.os != Os::Other && platform.arch != Arch::Other,
                forall|j: int| 0 <= j < i ==> self.targets@[j] != platform,
            decreases n - i,
        {
            if self.targets[i] == platform {
                assert(self@.targets[i as int] == platform);
                return true;
            }
            i += 1;
        }
        false
    }

    /// Writes the name of the artifact for `platform`; `None` where the
    /// tool has no build for it.
    pub fn artifact_name(&self, platform: Platform) -> (r: Option<String>)
        ensures
            match r {
                Some(name) => supports(self@, platform) && name@ == artifact_name(self@, platform),
                None => !supports(self@, platform),
            },
    {
        if !self.is_supported(platform) {
            return None;
        }
        match (platform.arch.target_token(), platform.os.target_suffix()) {
            (Some(token), Some(suffix)) => {
                let mut out = self.bin.clone();
                out.append("-");
                out.append(token);
                out.append("-");
                out.append(suffix);
                out.append(".zip");
                Some(out)
            },
            _ => None,
        }
    }
}

/// Which build is asked for, and with it the shape of its address.
#[derive(Debug, PartialEq, Eq)]
pub enum Release {
    /// A release pinned to one version; its address follows the tool's
    /// template.
    Pinned(Version),
    /// The current release, under the tag that the release pointer holds.
    Latest(String),
    /// The rolling build, under the token that the rolling pointer holds.
    Canary(String),
}

/// The mathematical value of a [`Release`].
pub ghost enum ReleaseView {
    Pinned(VersionView),
    Latest(Seq<char>),
    Canary(Seq<char>),
}

impl View for Release {
    type V = ReleaseView;

    open spec fn view(&self) -> ReleaseView {
        match self {
            Release::Pinned(v) => ReleaseView::Pinned(v@),
            Release::Latest(tag) => ReleaseView::Latest(tag@),
            Release::Canary(token) => ReleaseView::Canary(token@),
        }
    }
}

/// The version that a user asks for: a semantic version, or one of the
/// two symbolic names.
#[derive(Debug, PartialEq, Eq)]
pub enum VersionRequest {
    /// The rolling build.
    Canary,
    /// The current release.
    Latest,
    /// One version and no other.
    Pinned(Version),
}

/// The mathematical value of a [`VersionRequest`].
pub ghost enum VersionRequestView {
    Canary,
    Latest,
    Pinned(VersionView),
}

impl View for VersionRequest {
    type V = VersionRequestView;

    open spec fn view(&self) -> VersionRequestView {
        match self {
            VersionRequest::Canary => VersionRequestView::Canary,
            VersionRequest::Latest => VersionRequestView::Latest,
            VersionRequest::Pinned(v) => VersionRequestView::Pinned(v@),
        }
    }
}

/// The request that `text` writes: the names `canary` and `latest` stand
/// for themselves, any other text for the version it writes, if any.
pub open spec fn request_of(text: Seq<char>) -> Option<VersionRequestView> {
    if text == "canary"@ {
        Some(VersionRequestView::Canary)
    } else if text == "latest"@ {
        Some(VersionRequestView::Latest)
    } else {
        match semver_parse(text) {
            Some(v) => Some(VersionRequestView::Pinned(v)),
            None => None,
        }
    }
}

/// The address of the pointer file that says what a symbolic request
/// currently stands for; a pinned request has none.
pub open spec fn pointer_address(request: VersionRequestView) -> Option<Seq<char>> {
    match request {
        VersionRequestView::Canary => Some("https://dl.deno.land/canary-latest.txt"@),
        VersionRequestView::Latest => Some("https://dl.deno.land/release-latest.txt"@),
        VersionRequestView::Pinned(_) => None,
    }
}

/// The release that `request` comes to, given the text of its pointer
/// file where one was read: a pinned request needs no pointer, and a
/// symbolic one without a pointer stands for nothing.
pub open spec fn release_of(request: VersionRequestView, pointer: Option<Seq<char>>) -> Result<
    ReleaseView,
    ResolveErrorView,
> {
    match request {
        VersionRequestView::Pinned(v) => Ok(ReleaseView::Pinned(v)),
        VersionRequestView::Latest => match pointer {
            Some(tag) => Ok(ReleaseView::Latest(tag)),
            None => Err(ResolveErrorView::UnresolvableAlias { alias: "latest"@ }),
        },
        VersionRequestView::Canary => match pointer {
            Some(token) => Ok(ReleaseView::Canary(token)),
            None => Err(ResolveErrorView::UnresolvableAlias { alias: "canary"@ }),
        },
    }
}

impl VersionRequest {
    /// Reads a request from its text.
    pub fn parse(text: &str) -> (r: Option<VersionRequest>)
        ensures
            match r {
                Some(request) => request_of(text@) == Some(request@),
                None => request_of(text@) is None,
            },
    {
        if same_text(text, "canary") {
            Some(VersionRequest::Canary)
        } else if same_text(text, "latest") {
            Some(VersionRequest::Latest)
        } else {
            match Version::parse(text) {
                Some(v) => Some(VersionRequest::Pinned(v)),
                None => None,
            }
        }
    }

    /// The address of the pointer file to read before this request can be
    /// resolved, if it needs one.
    pub fn pointer_url(&self) -> (r: Option<&'static str>)
        ensures
            match r {
                Some(url) => pointer_address(self@) == Some(url@),
                None => pointer_address(self@) is None,
            },
    {
        match self {
            VersionRequest::Canary => Some("https://dl.deno.land/canary-latest.txt"),
            VersionRequest::Latest => Some("https://dl.deno.land/release-latest.txt"),
            VersionRequest::Pinned(_) => None,
        }
    }

    /// Turns the request into the release it comes to. `pointer` is the
    /// text of the request's pointer file, `None` where none was read.
    pub fn resolve(self, pointer: Option<&str>) -> (r: Result<Release, ResolveError>)
        ensures
            match r {
                Ok(release) => release_of(self@, text_of(pointer)) == Ok::<
                    ReleaseView,
                    ResolveErrorView,
                >(release@),
                Err(e) => release_of(self@, text_of(pointer)) == Err::<
                    ReleaseView,
                    ResolveErrorView,
                >(e@),
            },
    {
        match self {
            VersionRequest::Pinned(v) => Ok(Release::Pinned(v)),
            VersionRequest::Latest => match pointer {
                Some(tag) => Ok(Release::Latest(tag.to_owned())),
                None => Err(ResolveError::UnresolvableAlias { alias: String::from_str("latest") }),
            },
            VersionRequest::Canary => match pointer {
                Some(token) => Ok(Release::Canary(token.to_owned())),
                None => Err(ResolveError::UnresolvableAlias { alias: String::from_str("canary") }),
            },
        }
    }
}

/// A downloadable file and its address.
#[derive(Debug, PartialEq, Eq)]
pub struct Artifact {
    pub filename: String,
    pub download_url: String,
}

/// The mathematical value of an [`Artifact`].
pub ghost struct ArtifactView {
    pub filename: Seq<char>,
    pub download_url: Seq<char>,
}

impl View for Artifact {
    type V = ArtifactView;

    open spec fn view(&self) -> ArtifactView {
        ArtifactView { filename: self.filename@, download_url: self.download_url@ }
    }
}

/// `template` with every `{version}` replaced by `version`, and then every
/// `{file}` by `file`.
pub open spec fn expanded(template: Seq<char>, version: Seq<char>, file: Seq<char>) -> Seq<char> {
    replaced(replaced(template, "{version}"@, version), "{file}"@, file)
}

/// The address of the file `file` of a release. A pinned release follows
/// the tool's template; the current release and the rolling build lie
/// under the text of their pointer, taken without the white space around
/// it.
pub open spec fn download_address(tool: ToolView, release: ReleaseView, file: Seq<char>) -> Seq<
    char,
> {
    match release {
        ReleaseView::Pinned(v) => expanded(tool.dist_url, version_text(v), file),
        ReleaseView::Latest(tag) => "https://dl.deno.land/release/"@ + trimmed(tag) + "/"@ + file,
        ReleaseView::Canary(token) => "https://dl.deno.land/canary/"@ + trimmed(token) + "/"@
            + file,
    }
}

/// The artifact of `release` for `platform`, which `tool` has a build for.
pub open spec fn artifact_of(tool: ToolView, platform: Platform, release: ReleaseView) -> ArtifactView {
    let file = artifact_name(tool, platform);
    ArtifactView { filename: file, download_url: download_address(tool, release, file) }
}

/// What [`download_prebuilt`] answers: the artifact where the tool has a
/// build for the platform, and else the failure that names the tool and
/// the platform.
pub open spec fn download_answer(
    tool: ToolView,
    platform: Platform,
    release: ReleaseView,
) -> Result<ArtifactView, ResolveErrorView> {
    if supports(tool, platform) {
        Ok(artifact_of(tool, platform, release))
    } else {
        Err(
            ResolveErrorView::UnsupportedPlatform {
                tool: tool.name,
                os: platform.os,
                arch: platform.arch,
            },
        )
    }
}

/// The mathematical value of what [`download_prebuilt`] returns.
pub open spec fn answer_view(r: Result<Artifact, ResolveError>) -> Result<
    ArtifactView,
    ResolveErrorView,
> {
    match r {
        Ok(a) => Ok(a@),
        Err(e) => Err(e@),
    }
}

/// Tests that `tool` has a build for `platform`, and where it has none
/// gives the failure that names the tool and the platform.
pub fn check_platform(tool: &Tool, platform: Platform) -> (r: Result<(), ResolveError>)
    ensures
        match r {
            Ok(_) => supports(tool@, platform),
            Err(e) => !supports(tool@, platform) && e@ == (ResolveErrorView::UnsupportedPlatform {
                tool: tool@.name,
                os: platform.os,
                arch: platform.arch,
            }),
        },
{
    if tool.is_supported(platform) {
        Ok(())
    } else {
        Err(
            ResolveError::UnsupportedPlatform {
                tool: tool.name.clone(),
                os: platform.os,
                arch: platform.arch,
            },
        )
    }
}

/// Fills the two placeholders of an address template.
pub fn expand_template(template: &str, version: &str, file: &str) -> (r: String)
    ensures
        r@ == expanded(template@, version@, file@),
{
    let with_version = replace_all(template, "{version}", version);
    replace_all(with_version.as_str(), "{file}", file)
}

/// Names the artifact of `release` for `platform` and its download
/// address, or fails where `tool` has no build for `platform`.
pub fn download_prebuilt(tool: &Tool, platform: Platform, release: &Release) -> (r: Result<
    Artifact,
    ResolveError,
>)
    ensures
        answer_view(r) == download_answer(tool@, platform, release@),
{
    let filename = match tool.artifact_name(platform) {
        Some(name) => name,
        None => {
            return Err(
                ResolveError::UnsupportedPlatform {
                    tool: tool.name.clone(),
                    os: platform.os,
                    arch: platform.arch,
                },
            );
        },
    };
    let download_url = match release {
        Release::Pinned(version) => expand_template(
            tool.dist_url.as_str(),
            version.to_string().as_str(),
            filename.as_str(),
        ),
        Release::Latest(tag) => {
            let mut out = String::from_str("https://dl.deno.land/release/");
            out.append(trim(tag.as_str()).as_str());
            out.append("/");
            out.append(filename.as_str());
            out
        },
        Release::Canary(token) => {
            let mut out = String::from_str("https://dl.deno.land/canary/");
            out.append(trim(token.as_str()).as_str());
            out.append("/");
            out.append(filename.as_str());
            out
        },
    };
    Ok(Artifact { filename, download_url })
}

} // verus!
