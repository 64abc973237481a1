//! The version catalog: the versions that a tag source publishes, kept as
//! an ascending set, and what the aliases `latest` and `canary` stand for.

use crate::error::{ResolveError, ResolveErrorView};
use crate::text::{
    ends_with, has_prefix, has_suffix, same_text, starts_with, tail_from, text_of, trim, trimmed,
};
use crate::version::{is_semver, precedes, semver_parse, Version, VersionView};
use vstd::prelude::*;
use vstd::string::*;

verus! {

/// What is left of a tag once its leading `v` is taken off; `None` for a tag
/// without that prefix, and for one that carries the marker `^{}` of a
/// dereferenced tag.
pub open spec fn stripped_tag(tag: Seq<char>) -> Option<Seq<char>> {
    if has_suffix(tag, seq!['^', '{', '}']) || !has_prefix(tag, seq!['v']) {
        None
    } else {
        Some(tag.skip(1))
    }
}

/// The version that a tag names, if it names one.
pub open spec fn tag_version(tag: Seq<char>) -> Option<VersionView> {
    match stripped_tag(tag) {
        Some(text) => semver_parse(text),
        None => None,
    }
}

/// Takes the leading `v` off a tag, and refuses dereferenced tags.
pub fn strip_tag(tag: &str) -> (r: Option<String>)
    ensures
        match r {
            Some(text) => stripped_tag(tag@) == Some(text@),
            None => stripped_tag(tag@) is None,
        },
{
    proof {
        reveal_strlit("^{}");
        reveal_strlit("v");
        assert("^{}"@ =~= seq!['^', '{', '}']);
        assert("v"@ =~= seq!['v']);
    }
    if ends_with(tag, "^{}") || !starts_with(tag, "v") {
        None
    } else {
        Some(tail_from(tag, 1))
    }
}

/// Reads the version that a tag names.
pub fn parse_tag(tag: &str) -> (r: Option<Version>)
    ensures
        match r {
            Some(v) => tag_version(tag@) == Some(v@) && is_semver(v@),
            None => tag_version(tag@) is None,
        },
{
    match strip_tag(tag) {
        Some(text) => Version::parse(text.as_str()),
        None => None,
    }
}

/// The mathematical values of a list of versions, in the same order.
pub open spec fn views(items: Seq<Version>) -> Seq<VersionView> {
    items.map_values(|v: Version| v@)
}

/// Whether each entry of `vs` comes strictly before every later one.
pub open spec fn ascending(vs: Seq<VersionView>) -> bool {
    forall|i: int, j: int| 0 <= i < j < vs.len() ==> precedes(vs[i], vs[j])
}

/// Whether every entry of `vs` is a semantic version.
pub open spec fn all_semver(vs: Seq<VersionView>) -> bool {
    forall|i: int| 0 <= i < vs.len() ==> is_semver(vs[i])
}

/// A set of semantic versions, held in ascending order.
pub struct VersionSet {
    items: Vec<Version>,
}

impl View for VersionSet {
    type V = Seq<VersionView>;

    closed spec fn view(&self) -> Seq<VersionView> {
        views(self.items@)
    }
}

impl VersionSet {
    #[verifier::type_invariant]
    spec fn ordered(&self) -> bool {
        ascending(views(self.items@)) && all_semver(views(self.items@))
    }

    /// The empty set.
    pub fn new() -> (r: VersionSet)
        ensures
            r@ == Seq::<VersionView>::empty(),
    {
        let r = VersionSet { items: Vec::new() };
        assert(views(r.items@) =~= Seq::<VersionView>::empty());
        r
    }

    /// The number of versions in the set.
    pub fn len(&self) -> (r: usize)
        ensures
            r == self@.len(),
            ascending(self@),
            all_semver(self@),
    {
        proof {
            use_type_invariant(self);
        }
        self.items.len()
    }

    /// The version at place `i`, counted from the lowest.
    pub fn get(&self, i: usize) -> (r: &Version)
        requires
            i < self@.len(),
        ensures
            r@ == self@[i as int],
    {
        &self.items[i]
    }

    /// The highest version of the set, if it holds any.
    pub fn highest(&self) -> (r: Option<&Version>)
        ensures
            match r {
                Some(v) => self@.len() > 0 && v@ == self@.last(),
                None => self@.len() == 0,
            },
    {
        let n: usize = self.items.len();
        if n == 0 {
            None
        } else {
            Some(&self.items[n - 1])
        }
    }

    /// Copies of the versions of the set, in ascending order.
    pub fn to_vec(&self) -> (r: Vec<Version>)
        ensures
            views(r@) == self@,
    {
        let n: usize = self.items.len();
        let mut out: Vec<Version> = Vec::new();
        let mut i: usize = 0;
        while i < n
            invariant
                n == self.items@.len(),
                i <= n,
                out@.len() == i,
                forall|j: int| 0 <= j < i ==> out@[j]@ == self.items@[j]@,
            decreases n - i,
        {
            out.push(self.items[i].duplicate());
            i += 1;
        }
        assert(views(out@) =~= views(self.items@));
        out
    }

    /// Puts `version` at its place in the order. Leaves the set as it is
    /// where it holds that version already, or where `version` is no
    /// semantic version.
    pub fn insert(&mut self, version: Version) -> (added: bool)
        ensures
            ascending(final(self)@),
            all_semver(final(self)@),
            added <==> (is_semver(version@) && !old(self)@.contains(version@)),
            !added ==> final(self)@ == old(self)@,
            added ==> final(self)@.len() == old(self)@.len() + 1,
            added ==> forall|v: VersionView|
                final(self)@.contains(v) <==> (old(self)@.contains(v) || v == version@),
    {
        proof {
            use_type_invariant(&*self);
        }
        if version.before(&version).is_none() {
            return false;
        }
        let ghost before = views(self.items@);
        let n: usize = self.items.len();
        let mut i: usize = 0;
        let mut found = false;
        while i < n && !found
            invariant
                n == self.items@.len(),
                before == views(self.items@),
                i <= n,
                is_semver(version@),
                all_semver(before),
                forall|j: int| 0 <= j < i ==> precedes(before[j], version@) && before[j] != version@,
                found ==> i < n && !precedes(before[i as int], version@),
            decreases n - i + (if found { 0int } else { 1int }),
        {
            let r = self.items[i].before(&version);
            match r {
                Some(true) => {
                    i += 1;
                },
                _ => {
                    found = true;
                },
            }
        }
        if found {
            let r = version.before(&self.items[i]);
            assert(before[i as int] == self.items@[i as int]@ && is_semver(before[i as int]));
            match r {
                Some(true) => {},
                _ => {
                    assert(r == Some(false));
                    assert(!precedes(before[i as int], version@));
                    assert(before[i as int] == version@);
                    return false;
                },
            }
        }
        proof {
            assert forall|j: int| 0 <= j < before.len() implies before[j] != version@ by {
                if j > i {
                    assert(precedes(before[i as int], before[j]));
                }
            }
        }
        let mut taken = VersionSet::new();
        std::mem::swap(self, &mut taken);
        let mut items = taken.items;
        items.insert(i, version);
        proof {
            let after = views(items@);
            assert(after =~= before.insert(i as int, version@));
            assert forall|a: int, b: int| 0 <= a < b < after.len() implies precedes(
                after[a],
                after[b],
            ) by {
                if a == i {
                    assert(after[b] == before[b - 1]);
                    if b - 1 > i {
                        assert(precedes(before[i as int], before[b - 1]));
                    }
                } else if b == i {
                    assert(after[a] == before[a]);
                } else {
                    let a0 = if a < i { a } else { a - 1 };
                    let b0 = if b < i { b } else { b - 1 };
                    assert(after[a] == before[a0] && after[b] == before[b0]);
                }
            }
            assert forall|a: int| 0 <= a < after.len() implies is_semver(after[a]) by {
                if a != i {
                    let a0 = if a < i { a } else { a - 1 };
                    assert(after[a] == before[a0]);
                }
            }
        }
        *self = VersionSet { items };
        proof {
            let after = self@;
            assert(after == before.insert(i as int, version@));
            assert forall|v: VersionView| after.contains(v) <==> (before.contains(v) || v
                == version@) by {
                if after.contains(v) {
                    let k = choose|k: int| 0 <= k < after.len() && after[k] == v;
                    if k < i {
                        assert(before[k] == v);
                    } else if k > i {
                        assert(before[k - 1] == v);
                    }
                }
                if before.contains(v) {
                    let k = choose|k: int| 0 <= k < before.len() && before[k] == v;
                    if k < i {
                        assert(after[k] == v);
                    } else {
                        assert(after[k + 1] == v);
                    }
                }
                if v == version@ {
                    assert(after[i as int] == v);
                }
            }
        }
        true
    }
}

/// The versions that a tag source publishes, and its aliases.
pub struct Catalog {
    /// Every published version, once, in ascending order.
    pub versions: VersionSet,
    /// The version that `latest` stands for.
    pub latest: Option<Version>,
    /// The token of the rolling build that `canary` stands for.
    pub canary: Option<String>,
}

/// The mathematical value of a [`Catalog`].
pub ghost struct CatalogView {
    pub versions: Seq<VersionView>,
    pub latest: Option<VersionView>,
    pub canary: Option<Seq<char>>,
}

impl View for Catalog {
    type V = CatalogView;

    open spec fn view(&self) -> CatalogView {
        CatalogView {
            versions: self.versions@,
            latest: match self.latest {
                Some(v) => Some(v@),
                None => None,
            },
            canary: match self.canary {
                Some(t) => Some(t@),
                None => None,
            },
        }
    }
}

/// The characters of each tag of a list.
pub open spec fn texts(tags: Seq<String>) -> Seq<Seq<char>> {
    tags.map_values(|t: String| t@)
}

/// Whether some tag of `tags` names the version `v`.
pub open spec fn published(tags: Seq<Seq<char>>, v: VersionView) -> bool {
    exists|i: int| 0 <= i < tags.len() && tag_version(tags[i]) == Some(v)
}

/// What `latest` stands for: the version that the release pointer names,
/// where there is a pointer and it names one; else the highest of
/// `versions`; nothing where there is neither.
pub open spec fn latest_of(versions: Seq<VersionView>, pointer: Option<Seq<char>>) -> Option<
    VersionView,
> {
    let pointed = match pointer {
        Some(text) => tag_version(trimmed(text)),
        None => None,
    };
    if pointed is Some {
        pointed
    } else if versions.len() > 0 {
        Some(versions.last())
    } else {
        None
    }
}

/// Collects the versions that `tags` name into an ascending set, dropping
/// every tag that names none.
pub fn collect_versions(tags: &Vec<String>) -> (r: VersionSet)
    ensures
        ascending(r@),
        all_semver(r@),
        forall|v: VersionView| r@.contains(v) <==> published(texts(tags@), v),
{
    let ghost all = texts(tags@);
    let mut set = VersionSet::new();
    let n: usize = tags.len();
    let mut i: usize = 0;
    while i < n
        invariant
            n == tags@.len(),
            all == texts(tags@),
            i <= n,
            ascending(set@),
            all_semver(set@),
            forall|v: VersionView|
                set@.contains(v) <==> published(all.take(i as int), v),
        decreases n - i,
    {
        let ghost before = set@;
        let ghost seen = all.take(i as int);
        let ghost next = all.take(i + 1);
        assert(all[i as int] == tags@[i as int]@);
        assert(next =~= seen.push(all[i as int]));
        let parsed = parse_tag(tags[i].as_str());
        match parsed {
            Some(version) => {
                let ghost value = version@;
                let added = set.insert(version);
                proof {
                    assert(next[i as int] == all[i as int]);
                    assert forall|v: VersionView| set@.contains(v) <==> published(next, v) by {
                        if published(next, v) {
                            let k = choose|k: int|
                                0 <= k < next.len() && tag_version(next[k]) == Some(v);
                            if k < i {
                                assert(seen[k] == next[k]);
                                assert(published(seen, v));
                            }
                        }
                        if published(seen, v) {
                            let k = choose|k: int|
                                0 <= k < seen.len() && tag_version(seen[k]) == Some(v);
                            assert(next[k] == seen[k]);
                        }
                    }
                }
            },
            None => {
                proof {
                    assert forall|v: VersionView| published(next, v) <==> published(seen, v) by {
                        if published(next, v) {
                            let k = choose|k: int|
                                0 <= k < next.len() && tag_version(next[k]) == Some(v);
                            assert(k < i);
                            assert(seen[k] == next[k]);
                        }
                        if published(seen, v) {
                            let k = choose|k: int|
                                0 <= k < seen.len() && tag_version(seen[k]) == Some(v);
                            assert(next[k] == seen[k]);
                        }
                    }
                }
            },
        }
        i += 1;
    }
    assert(all.take(n as int) =~= all);
    set
}

/// Whether `catalog` is what a tag source with these tags and pointers
/// publishes: every version that a tag names, once and in ascending order;
/// `latest` as [`latest_of`] says; and for `canary` the text of the rolling
/// pointer without the white space around it.
pub open spec fn catalog_of(
    tags: Seq<Seq<char>>,
    release_pointer: Option<Seq<char>>,
    canary_pointer: Option<Seq<char>>,
    catalog: CatalogView,
) -> bool {
    &&& ascending(catalog.versions)
    &&& all_semver(catalog.versions)
    &&& forall|v: VersionView| catalog.versions.contains(v) <==> published(tags, v)
    &&& catalog.latest == latest_of(catalog.versions, release_pointer)
    &&& catalog.canary == match canary_pointer {
        Some(text) => Some(trimmed(text)),
        None => None,
    }
}

/// Builds the catalog from what the tag source returned. `tags` is `None`
/// where the source could not be reached, which fails the call; tags that
/// name no version are dropped, and a source without any version gives an
/// empty catalog. `release_pointer` and `canary_pointer` hold the text of
/// the pointer files, where the source has them.
pub fn load_versions(
    tags: Option<&Vec<String>>,
    release_pointer: Option<&str>,
    canary_pointer: Option<&str>,
) -> (r: Result<Catalog, ResolveError>)
    ensures
        match r {
            Ok(catalog) => tags matches Some(list) && catalog_of(
                texts(list@),
                text_of(release_pointer),
                text_of(canary_pointer),
                catalog@,
            ),
            Err(e) => tags is None && e@ == ResolveErrorView::CatalogUnavailable,
        },
{
    let list = match tags {
        Some(list) => list,
        None => {
            return Err(ResolveError::CatalogUnavailable);
        },
    };
    let versions = collect_versions(list);
    let pointed = match release_pointer {
        Some(text) => parse_tag(trim(text).as_str()),
        None => None,
    };
    let latest = match pointed {
        Some(v) => Some(v),
        None => match versions.highest() {
            Some(v) => Some(v.duplicate()),
            None => None,
        },
    };
    let canary = match canary_pointer {
        Some(text) => Some(trim(text)),
        None => None,
    };
    Ok(Catalog { versions, latest, canary })
}

/// What an alias of a catalog stands for.
#[derive(Debug, PartialEq, Eq)]
pub enum AliasTarget {
    /// A published version.
    Version(Version),
    /// The token of a rolling build.
    Token(String),
}

/// The mathematical value of an [`AliasTarget`].
pub ghost enum AliasTargetView {
    Version(VersionView),
    Token(Seq<char>),
}

impl View for AliasTarget {
    type V = AliasTargetView;

    open spec fn view(&self) -> AliasTargetView {
        match self {
            AliasTarget::Version(v) => AliasTargetView::Version(v@),
            AliasTarget::Token(t) => AliasTargetView::Token(t@),
        }
    }
}

/// What `alias` stands for in `catalog`: `latest` for the latest version,
/// `canary` for the token of the rolling build, each where the catalog has
/// it; no other name stands for anything.
pub open spec fn alias_target(catalog: CatalogView, alias: Seq<char>) -> Option<AliasTargetView> {
    if alias == "latest"@ {
        match catalog.latest {
            Some(v) => Some(AliasTargetView::Version(v)),
            None => None,
        }
    } else if alias == "canary"@ {
        match catalog.canary {
            Some(t) => Some(AliasTargetView::Token(t)),
            None => None,
        }
    } else {
        None
    }
}

impl Catalog {
    /// Resolves a symbolic version name.
    pub fn resolve_alias(&self, alias: &str) -> (r: Result<AliasTarget, ResolveError>)
        ensures
            match r {
                Ok(target) => alias_target(self@, alias@) == Some(target@),
                Err(e) => alias_target(self@, alias@) is None && e@
                    == (ResolveErrorView::UnresolvableAlias { alias: alias@ }),
            },
    {
        if same_text(alias, "latest") {
            if let Some(v) = &self.latest {
                return Ok(AliasTarget::Version(v.duplicate()));
            }
        } else if same_text(alias, "canary") {
            if let Some(t) = &self.canary {
                return Ok(AliasTarget::Token(t.clone()));
            }
        }
        Err(ResolveError::UnresolvableAlias { alias: alias.to_owned() })
    }
}

} // verus!
