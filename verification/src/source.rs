//! The published list of versions, and the one to install.

use crate::failure::{Failure, FailureView};
use crate::text::{decimal_up_to, parse_u64, texts};
use vstd::prelude::*;

verus! {

/// Where the list is published.
pub const SOURCE_URL: &'static str =
    "https://gist.githubusercontent.com/gaslebossop/4d82d6b4a3adaef965765ab37937ef83/raw/apps.json";

pub const NO_APP: &'static str = "Aucune app publiee";

pub const NO_APP_STEPS: [&'static str; 1] = [
    "La liste des versions ne declare aucune app. Previens le developpeur.",
];

pub const NO_VERSION: &'static str = "Aucune version publiee";

pub const NO_VERSION_STEPS: [&'static str; 1] = [
    "L'app publiee ne declare aucune version. Previens le developpeur.",
];

#[derive(Debug)]
pub struct AltStoreSource {
    pub apps: Vec<AltStoreApp>,
}

#[derive(Debug)]
pub struct AltStoreApp {
    pub versions: Vec<AltStoreVersion>,
}

#[derive(Debug)]
pub struct AltStoreVersion {
    pub version: String,
    pub build_version: String,
    pub download_url: String,
}

pub struct VersionView {
    pub version: Seq<char>,
    pub build_version: Seq<char>,
    pub download_url: Seq<char>,
}

impl View for AltStoreVersion {
    type V = VersionView;

    open spec fn view(&self) -> VersionView {
        VersionView {
            version: self.version@,
            build_version: self.build_version@,
            download_url: self.download_url@,
        }
    }
}

impl View for AltStoreApp {
    type V = Seq<VersionView>;

    open spec fn view(&self) -> Seq<VersionView> {
        self.versions@.map_values(|v: AltStoreVersion| v@)
    }
}

/// A source, by the versions of each of its apps.
impl View for AltStoreSource {
    type V = Seq<Seq<VersionView>>;

    open spec fn view(&self) -> Seq<Seq<VersionView>> {
        self.apps@.map_values(|a: AltStoreApp| a@)
    }
}

impl VersionView {
    /// The number of the build; 0 where it is no number, or none that fits.
    pub open spec fn build(self) -> nat {
        match decimal_up_to(self.build_version, u64::MAX as nat) {
            Some(n) => n,
            None => 0,
        }
    }
}

/// The version at `i` is the latest: no build is greater, and each one after it is
/// smaller. The list need not be sorted.
pub open spec fn is_latest(versions: Seq<VersionView>, i: int) -> bool {
    &&& 0 <= i < versions.len()
    &&& forall|j: int| 0 <= j < i ==> (#[trigger] versions[j]).build() <= versions[i].build()
    &&& forall|j: int|
        i < j < versions.len() ==> (#[trigger] versions[j]).build() < versions[i].build()
}

pub open spec fn latest(versions: Seq<VersionView>) -> VersionView {
    versions[choose|i: int| is_latest(versions, i)]
}

/// The version to install: the latest of the first app.
pub open spec fn version_to_install(source: Seq<Seq<VersionView>>) -> Result<
    VersionView,
    FailureView,
> {
    if source.len() == 0 {
        Err(FailureView::plain(NO_APP@, texts(NO_APP_STEPS@)))
    } else if source[0].len() == 0 {
        Err(FailureView::plain(NO_VERSION@, texts(NO_VERSION_STEPS@)))
    } else {
        Ok(latest(source[0]))
    }
}

pub open spec fn version_outcome(r: Result<AltStoreVersion, Failure>) -> Result<
    VersionView,
    FailureView,
> {
    match r {
        Ok(v) => Ok(v@),
        Err(f) => Err(f@),
    }
}

/// There is one latest version in a list that is not empty.
pub proof fn law_one_version_is_the_latest(versions: Seq<VersionView>)
    requires
        versions.len() > 0,
    ensures
        exists|i: int| is_latest(versions, i),
        forall|i: int, j: int| is_latest(versions, i) && is_latest(versions, j) ==> i == j,
        exists|i: int| is_latest(versions, i) && latest(versions) == #[trigger] versions[i],
{
    lemma_latest_exists(versions);
    let found = choose|i: int| is_latest(versions, i);
    assert(latest(versions) == versions[found]);
    assert forall|i: int, j: int| is_latest(versions, i) && is_latest(versions, j) implies i
        == j by {
        if i < j {
            assert(versions[j].build() < versions[i].build());
            assert(versions[i].build() <= versions[j].build());
        } else if j < i {
            assert(versions[i].build() < versions[j].build());
            assert(versions[j].build() <= versions[i].build());
        }
    }
}

proof fn lemma_latest_exists(versions: Seq<VersionView>)
    requires
        versions.len() > 0,
    ensures
        exists|i: int| is_latest(versions, i),
    decreases versions.len(),
{
    let n = versions.len() - 1;
    if n == 0 {
        assert(is_latest(versions, 0));
    } else {
        let front = versions.drop_last();
        lemma_latest_exists(front);
        let i = choose|i: int| is_latest(front, i);
        assert forall|j: int| 0 <= j < n implies (#[trigger] versions[j]) == front[j] by {}
        if versions[n].build() >= versions[i].build() {
            assert forall|j: int| 0 <= j < n implies (#[trigger] versions[j]).build()
                <= versions[n].build() by {
                assert(front[j].build() <= front[i].build());
            }
            assert(is_latest(versions, n));
        } else {
            assert forall|j: int| i < j < versions.len() implies (#[trigger] versions[j]).build()
                < versions[i].build() by {
                if j < n {
                    assert(front[j].build() < front[i].build());
                }
            }
            assert(is_latest(versions, i));
        }
    }
}

impl AltStoreVersion {
    fn build(&self) -> (r: u64)
        ensures
            r == self@.build(),
    {
        match parse_u64(self.build_version.as_str()) {
            Some(n) => n,
            None => 0,
        }
    }
}

/// Picks the version to install out of the published list.
pub fn pick_version(source: &AltStoreSource) -> (r: Result<AltStoreVersion, Failure>)
    ensures
        version_outcome(r) == version_to_install(source@),
{
    if source.apps.len() == 0 {
        return Err(Failure::new(NO_APP, &NO_APP_STEPS));
    }
    assert(source@[0] == source.apps@[0]@);
    let versions: &Vec<AltStoreVersion> = &source.apps[0].versions;
    let ghost list = source@[0];
    if versions.len() == 0 {
        return Err(Failure::new(NO_VERSION, &NO_VERSION_STEPS));
    }
    let mut best: usize = 0;
    let mut best_build: u64 = versions[0].build();
    for i in 1..versions.len()
        invariant
            list == versions@.map_values(|v: AltStoreVersion| v@),
            best < i <= versions@.len(),
            best_build == list[best as int].build(),
            forall|j: int|
                0 <= j < best ==> (#[trigger] list[j]).build() <= list[best as int].build(),
            forall|j: int|
                best < j < i ==> (#[trigger] list[j]).build() < list[best as int].build(),
    {
        let build: u64 = versions[i].build();
        assert(list[i as int] == versions@[i as int]@);
        if build >= best_build {
            best = i;
            best_build = build;
        }
    }
    proof {
        assert(is_latest(list, best as int));
        law_one_version_is_the_latest(list);
    }
    let found: &AltStoreVersion = &versions[best];
    Ok(
        AltStoreVersion {
            version: found.version.clone(),
            build_version: found.build_version.clone(),
            download_url: found.download_url.clone(),
        },
    )
}

/// The version to install is one of the first app, and no version of that app has a greater
/// build number, as the numbers are written in the list; where others have the same number,
/// the last of them is taken. A build that is no number, or none that fits, counts less than
/// every number above 0.
pub proof fn law_no_published_build_is_greater(source: Seq<Seq<VersionView>>)
    requires
        source.len() > 0,
        source[0].len() > 0,
    ensures
        version_to_install(source) matches Ok(picked) && exists|i: int|
            {
                &&& 0 <= i < source[0].len()
                &&& #[trigger] source[0][i] == picked
                &&& forall|j: int|
                    0 <= j < source[0].len() ==> (decimal_up_to(
                        (#[trigger] source[0][j]).build_version,
                        u64::MAX as nat,
                    ) matches Some(m) ==> m > 0 ==> (decimal_up_to(
                        picked.build_version,
                        u64::MAX as nat,
                    ) matches Some(n) && m <= n && (j > i ==> m < n)))
                &&& i < source[0].len() - 1 ==> (decimal_up_to(
                    picked.build_version,
                    u64::MAX as nat,
                ) matches Some(n) && n > 0)
            },
{
    let list = source[0];
    law_one_version_is_the_latest(list);
    let i = choose|i: int| is_latest(list, i) && latest(list) == #[trigger] list[i];
    let picked = list[i];
    assert forall|j: int| 0 <= j < list.len() implies (decimal_up_to(
        (#[trigger] list[j]).build_version,
        u64::MAX as nat,
    ) matches Some(m) ==> m > 0 ==> (decimal_up_to(
        picked.build_version,
        u64::MAX as nat,
    ) matches Some(n) && m <= n && (j > i ==> m < n))) by {
        if j < i {
            assert(list[j].build() <= list[i].build());
        } else if j > i {
            assert(list[j].build() < list[i].build());
        }
    }
    if i < list.len() - 1 {
        assert(list[i + 1].build() < list[i].build());
    }
    assert(source[0][i] == picked);
}

/// A list without an app, or whose first app has no version, is told apart from every other,
/// and only such a list is refused.
pub proof fn law_only_empty_lists_are_refused(source: Seq<Seq<VersionView>>)
    ensures
        version_to_install(source) is Ok <==> source.len() > 0 && source[0].len() > 0,
        source.len() == 0 ==> version_to_install(source) == Err::<VersionView, FailureView>(
            FailureView::plain("Aucune app publiee"@, texts(NO_APP_STEPS@)),
        ),
        source.len() > 0 && source[0].len() == 0 ==> version_to_install(source) == Err::<
            VersionView,
            FailureView,
        >(FailureView::plain("Aucune version publiee"@, texts(NO_VERSION_STEPS@))),
{
}

/// Published versions are seen with all that they hold, in order.
pub proof fn law_versions_are_seen_whole(
    source: AltStoreSource,
    app: AltStoreApp,
    v: AltStoreVersion,
    f: Failure,
)
    ensures
        v@.version == v.version@,
        v@.build_version == v.build_version@,
        v@.download_url == v.download_url@,
        app@.len() == app.versions@.len(),
        forall|i: int| 0 <= i < app@.len() ==> #[trigger] app@[i] == app.versions@[i]@,
        source@.len() == source.apps@.len(),
        forall|i: int| 0 <= i < source@.len() ==> #[trigger] source@[i] == source.apps@[i]@,
        version_outcome(Ok(v)) == Ok::<VersionView, FailureView>(v@),
        version_outcome(Err(f)) == Err::<VersionView, FailureView>(f@),
{
}

} // verus!
