//! What holds of the library as a whole, proved from the contracts of its
//! functions.

use crate::catalog::{catalog_of, published, CatalogView};
use crate::download::{
    artifact_name, download_answer, supports, ArtifactView, ReleaseView, ToolView,
};
use crate::error::ResolveErrorView;
use crate::platform::{Os, Platform};
use crate::text::{has_prefix, has_suffix};
use crate::version::{precedes, VersionView};
use vstd::prelude::*;

verus! {

/// A catalog lists exactly the versions that the tags name: a tag that
/// names none adds nothing, and no version that a tag names is left out.
pub proof fn lemma_catalog_lists_the_published(
    tags: Seq<Seq<char>>,
    release_pointer: Option<Seq<char>>,
    canary_pointer: Option<Seq<char>>,
    catalog: CatalogView,
)
    requires
        catalog_of(tags, release_pointer, canary_pointer, catalog),
    ensures
        forall|i: int|
            0 <= i < catalog.versions.len() ==> published(tags, #[trigger] catalog.versions[i]),
        forall|v: VersionView| published(tags, v) ==> catalog.versions.contains(v),
        catalog.versions.len() == 0 <==> forall|v: VersionView| !published(tags, v),
{
    assert forall|i: int| 0 <= i < catalog.versions.len() implies published(
        tags,
        #[trigger] catalog.versions[i],
    ) by {
        assert(catalog.versions.contains(catalog.versions[i]));
    }
    if catalog.versions.len() > 0 {
        assert(catalog.versions.contains(catalog.versions[0]));
    }
}

/// Where the tag source has no release pointer, `latest` is the maximum of
/// the published versions: it is one of them, and every other one comes
/// before it. It is absent only where no version is published.
pub proof fn lemma_latest_is_the_maximum(
    tags: Seq<Seq<char>>,
    canary_pointer: Option<Seq<char>>,
    catalog: CatalogView,
)
    requires
        catalog_of(tags, None, canary_pointer, catalog),
    ensures
        catalog.latest is None <==> forall|v: VersionView| !published(tags, v),
        catalog.latest matches Some(latest) ==> published(tags, latest) && forall|v: VersionView|
            published(tags, v) ==> v == latest || precedes(v, latest),
{
    lemma_catalog_lists_the_published(tags, None, canary_pointer, catalog);
    if catalog.versions.len() > 0 {
        let latest = catalog.versions.last();
        assert(catalog.latest == Some(latest));
        assert(catalog.versions.contains(latest));
        assert forall|v: VersionView| published(tags, v) implies v == latest || precedes(
            v,
            latest,
        ) by {
            assert(catalog.versions.contains(v));
            let k = choose|k: int| 0 <= k < catalog.versions.len() && catalog.versions[k] == v;
            if k < catalog.versions.len() - 1 {
                assert(precedes(catalog.versions[k], catalog.versions[catalog.versions.len() - 1]));
            }
        }
    }
}

/// For a platform that the tool has a build for, the download is answered
/// with an artifact, never with a failure; and the artifact's name opens
/// with the executable's name and closes with the triple suffix of the
/// operating system and the extension.
pub proof fn lemma_supported_platform_resolves(
    tool: ToolView,
    platform: Platform,
    release: ReleaseView,
)
    requires
        supports(tool, platform),
    ensures
        download_answer(tool, platform, release) matches Ok(artifact) && artifact.filename
            == artifact_name(tool, platform) && has_prefix(artifact.filename, tool.bin)
            && has_suffix(artifact.filename, "-"@ + platform.os.triple_suffix() + ".zip"@),
{
    let name = artifact_name(tool, platform);
    let head = tool.bin + "-"@ + platform.arch.triple_token();
    let tail = "-"@ + platform.os.triple_suffix() + ".zip"@;
    assert(name =~= head + tail);
    assert(name.subrange(name.len() - tail.len(), name.len() as int) =~= tail);
    assert(name.subrange(0, tool.bin.len() as int) =~= tool.bin);
}

/// For a platform that the tool has no build for, the download fails, and
/// the failure names the tool and exactly that operating system and
/// architecture.
pub proof fn lemma_unsupported_platform_fails(
    tool: ToolView,
    platform: Platform,
    release: ReleaseView,
)
    requires
        !supports(tool, platform),
    ensures
        download_answer(tool, platform, release) == Err::<ArtifactView, ResolveErrorView>(
            ResolveErrorView::UnsupportedPlatform {
                tool: tool.name,
                os: platform.os,
                arch: platform.arch,
            },
        ),
{
}

/// Two downloads asked with the same tool, platform and release are
/// answered alike, character for character.
pub proof fn lemma_download_is_repeatable(
    tool: ToolView,
    platform: Platform,
    release: ReleaseView,
    first: Result<ArtifactView, ResolveErrorView>,
    second: Result<ArtifactView, ResolveErrorView>,
)
    requires
        first == download_answer(tool, platform, release),
        second == download_answer(tool, platform, release),
    ensures
        first == second,
{
}

/// The name of an executable carries the suffix `.exe` on Windows, and is
/// the bare name on every other operating system.
pub proof fn lemma_exe_suffix_on_windows_only(os: Os, name: Seq<char>)
    ensures
        os == Os::Windows ==> name + os.exe_suffix() == name + ".exe"@ && has_suffix(
            name + os.exe_suffix(),
            ".exe"@,
        ),
        os != Os::Windows ==> name + os.exe_suffix() == name,
{
    if os == Os::Windows {
        let full = name + ".exe"@;
        assert(full.subrange(full.len() - ".exe"@.len(), full.len() as int) =~= ".exe"@);
    } else {
        assert(name + Seq::<char>::empty() =~= name);
    }
}

} // verus!
