//! The update check: where the latest release is asked for, and what follows
//! from the answer.
use vstd::prelude::*;

use crate::text::{
    a_field_can_be_added, decimal, ends_ignoring_case, ends_with_ignore_ascii_case,
    eq_ignore_ascii_case, fields, is_digit, lemma_decimal, lemma_field_len, same_ignoring_case,
    split, texts, trim_end, trim_start, trimmed_end, trimmed_start,
};
use crate::version::{dotted, is_version_newer, newer, three_numbers_are_read, version_of};

verus! {

/// The value of the `Accept` header of a request for release data.
pub const GITHUB_API_ACCEPT: &'static str = "application/vnd.github+json";

/// The value of the `X-GitHub-Api-Version` header of a request for release data.
pub const GITHUB_API_VERSION: &'static str = "2022-11-28";

/// The name of the release asset that an update installs.
pub const RELEASE_ASSET_NAME: &'static str = "ai-usage-monitor.exe";

/// The ending of the assets that may stand in for it.
pub const EXECUTABLE_ENDING: &'static str = ".exe";

/// What is said where the repository address names no owner and repository.
pub const REPOSITORY_NOT_CONFIGURED: &'static str =
    "Package repository URL is not configured for GitHub releases.";

/// What is said where a newer release has nothing to install.
pub const NO_EXECUTABLE_ASSET: &'static str =
    "No Windows executable asset was found in the latest release.";

/// A release that is newer than the running program, and where to get it.
#[derive(Debug)]
pub struct ReleaseDescriptor {
    pub latest_version: String,
    pub asset_url: String,
}

/// What a [`ReleaseDescriptor`] says.
pub struct ReleaseView {
    pub latest_version: Seq<char>,
    pub asset_url: Seq<char>,
}

impl View for ReleaseDescriptor {
    type V = ReleaseView;

    open spec fn view(&self) -> ReleaseView {
        ReleaseView { latest_version: self.latest_version@, asset_url: self.asset_url@ }
    }
}

impl Clone for ReleaseDescriptor {
    fn clone(&self) -> (copy: Self)
        ensures
            copy@ == self@,
    {
        ReleaseDescriptor {
            latest_version: self.latest_version.clone(),
            asset_url: self.asset_url.clone(),
        }
    }
}

/// How an update check ended.
#[derive(Debug)]
pub enum UpdateCheckResult {
    UpToDate,
    Available(ReleaseDescriptor),
}

/// What an [`UpdateCheckResult`] says.
pub enum UpdateCheckView {
    UpToDate,
    Available(ReleaseView),
}

impl View for UpdateCheckResult {
    type V = UpdateCheckView;

    open spec fn view(&self) -> UpdateCheckView {
        match self {
            UpdateCheckResult::UpToDate => UpdateCheckView::UpToDate,
            UpdateCheckResult::Available(release) => UpdateCheckView::Available(release@),
        }
    }
}

/// One file of a release.
pub struct GitHubAsset {
    pub name: String,
    pub browser_download_url: String,
}

/// What a [`GitHubAsset`] says.
pub struct AssetView {
    pub name: Seq<char>,
    pub browser_download_url: Seq<char>,
}

impl View for GitHubAsset {
    type V = AssetView;

    open spec fn view(&self) -> AssetView {
        AssetView { name: self.name@, browser_download_url: self.browser_download_url@ }
    }
}

/// The data of a release.
pub struct GitHubRelease {
    pub tag_name: String,
    pub assets: Vec<GitHubAsset>,
}

/// What a [`GitHubRelease`] says.
pub struct GitHubReleaseView {
    pub tag_name: Seq<char>,
    pub assets: Seq<AssetView>,
}

impl View for GitHubRelease {
    type V = GitHubReleaseView;

    open spec fn view(&self) -> GitHubReleaseView {
        GitHubReleaseView {
            tag_name: self.tag_name@,
            assets: self.assets@.map_values(|asset: GitHubAsset| asset@),
        }
    }
}

/// Why there is no release data, each with the words of what failed.
pub enum FetchFailure {
    /// Secure connections are not to be had.
    Tls(String),
    /// The request failed.
    Request(String),
    /// The answer is not release data.
    Body(String),
}

/// The message for a failure to get release data.
pub open spec fn failure_text(failure: FetchFailure) -> Seq<char> {
    match failure {
        FetchFailure::Tls(e) => "Unable to initialize TLS support for update checks: "@ + e@,
        FetchFailure::Request(e) => "Unable to check GitHub releases: "@ + e@,
        FetchFailure::Body(e) => "Unable to parse GitHub release data: "@ + e@,
    }
}

/// The first asset with a property.
pub open spec fn first_asset(assets: Seq<AssetView>, wanted: spec_fn(AssetView) -> bool) -> Option<
    AssetView,
>
    decreases assets.len(),
{
    if assets.len() == 0 {
        None
    } else if wanted(assets[0]) {
        Some(assets[0])
    } else {
        first_asset(assets.drop_first(), wanted)
    }
}

/// The asset has the name that an update looks for, in whatever case.
pub open spec fn is_named_asset(asset: AssetView) -> bool {
    same_ignoring_case(asset.name, RELEASE_ASSET_NAME@)
}

/// The asset is an executable by its ending, in whatever case.
pub open spec fn is_executable_asset(asset: AssetView) -> bool {
    ends_ignoring_case(asset.name, EXECUTABLE_ENDING@)
}

/// The asset that an update installs: the one with the expected name, or else
/// the first executable.
pub open spec fn chosen_asset(assets: Seq<AssetView>) -> Option<AssetView> {
    match first_asset(assets, |a: AssetView| is_named_asset(a)) {
        Some(asset) => Some(asset),
        None => first_asset(assets, |a: AssetView| is_executable_asset(a)),
    }
}

/// The version that a tag names.
pub open spec fn tag_version(tag: Seq<char>) -> Seq<char> {
    trimmed_start(tag, 'v')
}

/// What follows from the data of the latest release for a program of version
/// `current`.
pub open spec fn offered(release: GitHubReleaseView, current: Seq<char>) -> Result<
    Option<ReleaseView>,
    Seq<char>,
> {
    let latest = tag_version(release.tag_name);
    if !newer(version_of(latest), version_of(current)) {
        Ok(None)
    } else {
        match chosen_asset(release.assets) {
            Some(asset) => Ok(
                Some(
                    ReleaseView {
                        latest_version: latest,
                        asset_url: asset.browser_download_url,
                    },
                ),
            ),
            None => Err(NO_EXECUTABLE_ASSET@),
        }
    }
}

/// What follows from the answer to a request for the latest release.
pub open spec fn fetched(
    response: Result<GitHubRelease, FetchFailure>,
    current: Seq<char>,
) -> Result<Option<ReleaseView>, Seq<char>> {
    match response {
        Ok(release) => offered(release@, current),
        Err(failure) => Err(failure_text(failure)),
    }
}

/// The views of a fetched release and of an error message.
pub open spec fn fetched_view(r: Result<Option<ReleaseDescriptor>, String>) -> Result<
    Option<ReleaseView>,
    Seq<char>,
> {
    match r {
        Ok(Some(release)) => Ok(Some(release@)),
        Ok(None) => Ok(None),
        Err(message) => Err(message@),
    }
}

/// Names the failure to get release data.
fn failure_message(failure: FetchFailure) -> (message: String)
    ensures
        message@ == failure_text(failure),
{
    match failure {
        FetchFailure::Tls(e) => "Unable to initialize TLS support for update checks: ".to_string().concat(
            e.as_str(),
        ),
        FetchFailure::Request(e) => "Unable to check GitHub releases: ".to_string().concat(
            e.as_str(),
        ),
        FetchFailure::Body(e) => "Unable to parse GitHub release data: ".to_string().concat(
            e.as_str(),
        ),
    }
}

/// Finds the asset that an update installs.
fn find_asset<'a>(assets: &'a Vec<GitHubAsset>) -> (found: Option<&'a GitHubAsset>)
    ensures
        match found {
            Some(asset) => chosen_asset(assets@.map_values(|a: GitHubAsset| a@)) == Some(asset@),
            None => chosen_asset(assets@.map_values(|a: GitHubAsset| a@)) is None,
        },
{
    let ghost all = assets@.map_values(|a: GitHubAsset| a@);
    let ghost named = |a: AssetView| is_named_asset(a);
    let ghost executable = |a: AssetView| is_executable_asset(a);
    assert(all.skip(0) == all);
    let mut i: usize = 0;
    while i < assets.len()
        invariant
            all == assets@.map_values(|a: GitHubAsset| a@),
            named == (|a: AssetView| is_named_asset(a)),
            i <= assets.len(),
            first_asset(all.skip(i as int), named) == first_asset(all, named),
        decreases assets.len() - i,
    {
        let asset: &'a GitHubAsset = &assets[i];
        assert(all.skip(i as int)[0] == asset@);
        if eq_ignore_ascii_case(asset.name.as_str(), RELEASE_ASSET_NAME) {
            return Some(asset);
        }
        assert(all.skip(i as int).drop_first() == all.skip(i + 1));
        i += 1;
    }
    let mut k: usize = 0;
    while k < assets.len()
        invariant
            all == assets@.map_values(|a: GitHubAsset| a@),
            named == (|a: AssetView| is_named_asset(a)),
            executable == (|a: AssetView| is_executable_asset(a)),
            first_asset(all, named) is None,
            k <= assets.len(),
            first_asset(all.skip(k as int), executable) == first_asset(all, executable),
        decreases assets.len() - k,
    {
        let asset: &'a GitHubAsset = &assets[k];
        assert(all.skip(k as int)[0] == asset@);
        if ends_with_ignore_ascii_case(asset.name.as_str(), EXECUTABLE_ENDING) {
            return Some(asset);
        }
        assert(all.skip(k as int).drop_first() == all.skip(k + 1));
        k += 1;
    }
    None
}

/// Takes the answer to the request for the latest release and says what it
/// offers a program of version `current_version`: a newer release, nothing, or
/// an error message.
pub fn fetch_latest_release(
    response: Result<GitHubRelease, FetchFailure>,
    current_version: &str,
) -> (res: Result<Option<ReleaseDescriptor>, String>)
    ensures
        fetched_view(res) == fetched(response, current_version@),
        response is Err ==> res is Err,
        response matches Ok(release) ==> ({
            let latest = trimmed_start(release@.tag_name, 'v');
            let a = version_of(latest);
            let b = version_of(current_version@);
            let is_newer = a.0 > b.0 || (a.0 == b.0 && (a.1 > b.1 || (a.1 == b.1 && a.2 > b.2)));
            &&& !is_newer ==> (res matches Ok(None))
            &&& is_newer && !can_be_installed(release@.assets) ==> res is Err
            &&& is_newer && can_be_installed(release@.assets) ==> (res matches Ok(Some(found))
                && found.latest_version@ == latest)
        }),
{
    proof {
        if response is Ok {
            newer_releases_are_offered(response->Ok_0@, current_version@);
        }
    }
    let release: GitHubRelease = match response {
        Ok(release) => release,
        Err(failure) => return Err(failure_message(failure)),
    };
    let latest: &str = trim_start(release.tag_name.as_str(), 'v');
    if !is_version_newer(latest, current_version) {
        return Ok(None);
    }
    match find_asset(&release.assets) {
        Some(asset) => Ok(
            Some(
                ReleaseDescriptor {
                    latest_version: latest.to_string(),
                    asset_url: asset.browser_download_url.clone(),
                },
            ),
        ),
        None => Err(NO_EXECUTABLE_ASSET.to_string()),
    }
}

/// Says how an update check ends, from the answer to the request for the latest
/// release.
pub fn check_for_updates(
    response: Result<GitHubRelease, FetchFailure>,
    current_version: &str,
) -> (res: Result<UpdateCheckResult, String>)
    ensures
        match fetched(response, current_version@) {
            Ok(Some(release)) => res matches Ok(r) && r@ == UpdateCheckView::Available(release),
            Ok(None) => res matches Ok(r) && r@ == UpdateCheckView::UpToDate,
            Err(message) => res matches Err(e) && e@ == message,
        },
{
    match fetch_latest_release(response, current_version) {
        Ok(Some(release)) => Ok(UpdateCheckResult::Available(release)),
        Ok(None) => Ok(UpdateCheckResult::UpToDate),
        Err(message) => Err(message),
    }
}

/// The owner and the repository that an address ends with.
pub open spec fn repository_of(address: Seq<char>) -> Option<(Seq<char>, Seq<char>)> {
    let parts = fields(trimmed_end(address, '/'), '/');
    let n = parts.len();
    if n < 2 || parts[n - 2].len() == 0 || parts[n - 1].len() == 0 {
        None
    } else {
        Some((parts[n - 2], parts[n - 1]))
    }
}

/// Takes the owner and the repository from the repository's address.
pub fn github_repo<'a>(repository: &'a str) -> (res: Result<(&'a str, &'a str), String>)
    ensures
        match repository_of(repository@) {
            Some((owner, repo)) => res matches Ok(pair) && pair.0@ == owner && pair.1@ == repo,
            None => res matches Err(e) && e@ == REPOSITORY_NOT_CONFIGURED@,
        },
{
    let trimmed: &'a str = trim_end(repository, '/');
    let parts: Vec<&'a str> = split(trimmed, '/');
    let n: usize = parts.len();
    if n < 2 {
        return Err(REPOSITORY_NOT_CONFIGURED.to_string());
    }
    let owner: &'a str = parts[n - 2];
    let repo: &'a str = parts[n - 1];
    assert(texts(parts@)[n - 2] == owner@ && texts(parts@)[n - 1] == repo@);
    if owner.is_empty() || repo.is_empty() {
        return Err(REPOSITORY_NOT_CONFIGURED.to_string());
    }
    Ok((owner, repo))
}

/// The address that the latest release of a repository is asked for at.
pub open spec fn release_address(owner: Seq<char>, repo: Seq<char>) -> Seq<char> {
    "https://api.github.com/repos/"@ + owner + "/"@ + repo + "/releases/latest"@
}

/// The address that the latest release of a repository is asked for at.
pub fn release_url(owner: &str, repo: &str) -> (url: String)
    ensures
        url@ == release_address(owner@, repo@),
{
    "https://api.github.com/repos/".to_string().concat(owner).concat("/").concat(repo).concat(
        "/releases/latest",
    )
}

/// The address that the latest release is asked for at, from the address of the
/// repository.
pub fn release_request(repository: &str) -> (res: Result<String, String>)
    ensures
        match repository_of(repository@) {
            Some((owner, repo)) => res matches Ok(url) && url@ == release_address(owner, repo),
            None => res matches Err(e) && e@ == REPOSITORY_NOT_CONFIGURED@,
        },
{
    match github_repo(repository) {
        Ok((owner, repo)) => Ok(release_url(owner, repo)),
        Err(message) => Err(message),
    }
}

/// The name under which the program makes its requests.
pub fn user_agent(name: &str, version: &str) -> (agent: String)
    ensures
        agent@ == name@ + "/"@ + version@,
{
    name.to_string().concat("/").concat(version)
}

/// `first_asset` finds an asset with the property, no earlier one has it, and
/// it finds none only where there is none.
pub proof fn first_asset_is_first(assets: Seq<AssetView>, wanted: spec_fn(AssetView) -> bool)
    ensures
        match first_asset(assets, wanted) {
            Some(asset) => exists|i: int|
                #![trigger assets[i]]
                0 <= i < assets.len() && assets[i] == asset && wanted(asset) && forall|j: int|
                    0 <= j < i ==> !wanted(#[trigger] assets[j]),
            None => forall|i: int| 0 <= i < assets.len() ==> !wanted(#[trigger] assets[i]),
        },
    decreases assets.len(),
{
    if assets.len() > 0 {
        if wanted(assets[0]) {
            assert(assets[0] == assets[0]);
        } else {
            let rest = assets.drop_first();
            first_asset_is_first(rest, wanted);
            match first_asset(rest, wanted) {
                Some(asset) => {
                    let k = choose|i: int|
                        #![trigger rest[i]]
                        0 <= i < rest.len() && rest[i] == asset && wanted(asset) && forall|j: int|
                            0 <= j < i ==> !wanted(#[trigger] rest[j]);
                    assert(assets[k + 1] == asset);
                    assert forall|j: int| 0 <= j < k + 1 implies !wanted(#[trigger] assets[j]) by {
                        if j > 0 {
                            assert(assets[j] == rest[j - 1]);
                        }
                    }
                },
                None => {
                    assert forall|i: int| 0 <= i < assets.len() implies !wanted(
                        #[trigger] assets[i],
                    ) by {
                        if i > 0 {
                            assert(assets[i] == rest[i - 1]);
                        }
                    }
                },
            }
        }
    }
}

/// A release is offered only if its version is newer than the running one, so
/// the same version is never offered, nor one that the running one is newer
/// than.
pub proof fn only_newer_releases_are_offered(
    response: Result<GitHubRelease, FetchFailure>,
    current: Seq<char>,
)
    requires
        fetched(response, current) matches Ok(Some(_)),
    ensures
        fetched(response, current) matches Ok(Some(release)) && newer(
            version_of(release.latest_version),
            version_of(current),
        ) && version_of(release.latest_version) != version_of(current) && !newer(
            version_of(current),
            version_of(release.latest_version),
        ),
{
}

/// The address that is offered is that of an asset of the release with the
/// expected name, or, where no asset has that name, of one that is an
/// executable.
pub proof fn offered_address_is_an_assets(release: GitHubReleaseView, current: Seq<char>)
    requires
        offered(release, current) matches Ok(Some(_)),
    ensures
        offered(release, current) matches Ok(Some(found)) && exists|i: int|
            #![trigger release.assets[i]]
            0 <= i < release.assets.len() && release.assets[i].browser_download_url
                == found.asset_url && (is_named_asset(release.assets[i]) || (is_executable_asset(
                release.assets[i],
            ) && forall|j: int|
                0 <= j < release.assets.len() ==> !is_named_asset(#[trigger] release.assets[j]))),
{
    let named = |a: AssetView| is_named_asset(a);
    let executable = |a: AssetView| is_executable_asset(a);
    first_asset_is_first(release.assets, named);
    first_asset_is_first(release.assets, executable);
    match first_asset(release.assets, named) {
        Some(asset) => {
            assert(named(asset));
        },
        None => {
            assert forall|j: int| 0 <= j < release.assets.len() implies !is_named_asset(
                #[trigger] release.assets[j],
            ) by {
                assert(!named(release.assets[j]));
            }
            let asset = first_asset(release.assets, executable)->0;
            assert(executable(asset));
        },
    }
}

/// Some asset has the expected name or is an executable.
pub open spec fn can_be_installed(assets: Seq<AssetView>) -> bool {
    exists|i: int|
        0 <= i < assets.len() && (is_named_asset(#[trigger] assets[i]) || is_executable_asset(
            assets[i],
        ))
}

proof fn lemma_chosen_where_there_is_one(assets: Seq<AssetView>)
    ensures
        chosen_asset(assets) is Some == can_be_installed(assets),
{
    let named = |a: AssetView| is_named_asset(a);
    let executable = |a: AssetView| is_executable_asset(a);
    first_asset_is_first(assets, named);
    first_asset_is_first(assets, executable);
    if can_be_installed(assets) {
        let i = choose|i: int|
            0 <= i < assets.len() && (is_named_asset(#[trigger] assets[i]) || is_executable_asset(
                assets[i],
            ));
        if chosen_asset(assets) is None {
            assert(!named(assets[i]));
            assert(!executable(assets[i]));
        }
    } else {
        if first_asset(assets, named) is Some {
            let found = first_asset(assets, named)->0;
            let k = choose|k: int|
                #![trigger assets[k]]
                0 <= k < assets.len() && assets[k] == found && named(found);
            assert(is_named_asset(assets[k]));
        }
        if first_asset(assets, executable) is Some {
            let found = first_asset(assets, executable)->0;
            let k = choose|k: int|
                #![trigger assets[k]]
                0 <= k < assets.len() && assets[k] == found && executable(found);
            assert(is_executable_asset(assets[k]));
        }
    }
}

/// Every newer release that can be installed is offered, under the version that
/// its tag names without the leading letters: newer is the one with the greater
/// first number, or with the same first and the greater second, or with the same
/// two and the greater third. One that is not newer is not offered, and only that
/// is no error; a newer one that cannot be installed is one.
pub proof fn newer_releases_are_offered(release: GitHubReleaseView, current: Seq<char>)
    ensures
        ({
            let latest = trimmed_start(release.tag_name, 'v');
            let a = version_of(latest);
            let b = version_of(current);
            let is_newer = a.0 > b.0 || (a.0 == b.0 && (a.1 > b.1 || (a.1 == b.1 && a.2 > b.2)));
            let answer = offered(release, current);
            &&& is_newer && can_be_installed(release.assets) ==> (answer matches Ok(Some(found))
                && found.latest_version == latest)
            &&& is_newer && !can_be_installed(release.assets) ==> answer == Err::<
                Option<ReleaseView>,
                Seq<char>,
            >("No Windows executable asset was found in the latest release."@)
            &&& !is_newer ==> answer == Ok::<Option<ReleaseView>, Seq<char>>(None)
        }),
{
    lemma_chosen_where_there_is_one(release.assets);
}

/// The asset to install is the first that has the expected name, in any case;
/// where none has, the first that is an executable.
pub proof fn the_first_fitting_asset_is_taken(assets: Seq<AssetView>, at: int)
    requires
        0 <= at < assets.len(),
    ensures
        (same_ignoring_case(assets[at].name, "ai-usage-monitor.exe"@) && forall|j: int|
            0 <= j < at ==> !same_ignoring_case(
                (#[trigger] assets[j]).name,
                "ai-usage-monitor.exe"@,
            )) ==> chosen_asset(assets) == Some(assets[at]),
        (ends_ignoring_case(assets[at].name, ".exe"@) && (forall|j: int|
            0 <= j < at ==> !ends_ignoring_case((#[trigger] assets[j]).name, ".exe"@)) && forall|
            j: int,
        |
            0 <= j < assets.len() ==> !same_ignoring_case(
                (#[trigger] assets[j]).name,
                "ai-usage-monitor.exe"@,
            )) ==> chosen_asset(assets) == Some(assets[at]),
{
    let named = |a: AssetView| is_named_asset(a);
    let executable = |a: AssetView| is_executable_asset(a);
    lemma_first_is_found(assets, named, at);
    lemma_first_is_found(assets, executable, at);
    first_asset_is_first(assets, named);
    assert forall|j: int| 0 <= j < assets.len() implies named(#[trigger] assets[j])
        == same_ignoring_case(assets[j].name, "ai-usage-monitor.exe"@) by {}
    assert forall|j: int| 0 <= j < assets.len() implies executable(#[trigger] assets[j])
        == ends_ignoring_case(assets[j].name, ".exe"@) by {}
}

proof fn lemma_first_is_found(assets: Seq<AssetView>, wanted: spec_fn(AssetView) -> bool, at: int)
    requires
        0 <= at < assets.len(),
    ensures
        wanted(assets[at]) && (forall|j: int| 0 <= j < at ==> !wanted(#[trigger] assets[j]))
            ==> first_asset(assets, wanted) == Some(assets[at]),
    decreases assets.len(),
{
    if wanted(assets[at]) && (forall|j: int| 0 <= j < at ==> !wanted(#[trigger] assets[j])) {
        if at > 0 {
            let rest = assets.drop_first();
            assert(!wanted(assets[0]));
            assert forall|j: int| 0 <= j < at - 1 implies !wanted(#[trigger] rest[j]) by {
                assert(rest[j] == assets[j + 1]);
            }
            assert(rest[at - 1] == assets[at]);
            lemma_first_is_found(rest, wanted, at - 1);
        }
    }
}

/// The message about a failure ends with the words of what failed, word for word,
/// and each kind of failure has an opening of its own.
pub proof fn failures_are_told_word_for_word(words: String)
    ensures
        words@.is_suffix_of(failure_text(FetchFailure::Tls(words))),
        words@.is_suffix_of(failure_text(FetchFailure::Request(words))),
        words@.is_suffix_of(failure_text(FetchFailure::Body(words))),
        "Unable to initialize TLS support for update checks: "@.is_prefix_of(
            failure_text(FetchFailure::Tls(words)),
        ),
        "Unable to check GitHub releases: "@.is_prefix_of(
            failure_text(FetchFailure::Request(words)),
        ),
        "Unable to parse GitHub release data: "@.is_prefix_of(
            failure_text(FetchFailure::Body(words)),
        ),
        failure_text(FetchFailure::Tls(words)).len()
            == "Unable to initialize TLS support for update checks: "@.len() + words@.len(),
        failure_text(FetchFailure::Request(words)).len()
            == "Unable to check GitHub releases: "@.len() + words@.len(),
        failure_text(FetchFailure::Body(words)).len()
            == "Unable to parse GitHub release data: "@.len() + words@.len(),
{
}

proof fn lemma_slashes_are_trimmed(s: Seq<char>, n: nat)
    requires
        s.len() == 0 || s.last() != '/',
    ensures
        trimmed_end(s + Seq::new(n, |i: int| '/'), '/') == s,
    decreases n,
{
    let long = s + Seq::new(n, |i: int| '/');
    if n == 0 {
        assert(long == s);
    } else {
        assert(long.last() == '/');
        assert(long.drop_last() == s + Seq::new((n - 1) as nat, |i: int| '/'));
        lemma_slashes_are_trimmed(s, (n - 1) as nat);
    }
}

/// Whatever stands before them, and however many slashes stand behind, the last
/// two parts of an address are the owner and the repository.
pub proof fn the_last_two_parts_are_the_repository(
    host: Seq<char>,
    owner: Seq<char>,
    repo: Seq<char>,
    slashes: nat,
)
    requires
        owner.len() > 0,
        repo.len() > 0,
        forall|i: int| 0 <= i < owner.len() ==> owner[i] != '/',
        forall|i: int| 0 <= i < repo.len() ==> repo[i] != '/',
    ensures
        repository_of(
            host + seq!['/'] + owner + seq!['/'] + repo + Seq::new(slashes, |i: int| '/'),
        ) == Some((owner, repo)),
        repository_of(owner + Seq::new(slashes, |i: int| '/')) is None,
{
    let front = host + seq!['/'] + owner;
    let whole = front + seq!['/'] + repo;
    assert(whole.last() == repo.last());
    lemma_slashes_are_trimmed(whole, slashes);
    a_field_can_be_added(front, repo, '/');
    a_field_can_be_added(host, owner, '/');
    let parts = fields(whole, '/');
    assert(parts == fields(host, '/').push(owner).push(repo));
    lemma_slashes_are_trimmed(owner, slashes);
    lemma_field_len(owner, '/', owner.len());
    assert(fields(owner, '/') == seq![owner]);
}

/// The view of a release tells its parts.
pub proof fn the_view_tells_the_release(
    release: ReleaseDescriptor,
    asset: GitHubAsset,
    data: GitHubRelease,
)
    ensures
        release@.latest_version == release.latest_version@,
        release@.asset_url == release.asset_url@,
        asset@.name == asset.name@,
        asset@.browser_download_url == asset.browser_download_url@,
        data@.tag_name == data.tag_name@,
        data@.assets.len() == data.assets@.len(),
        forall|i: int|
            0 <= i < data.assets@.len() ==> #[trigger] data@.assets[i] == data.assets@[i]@,
{
}

proof fn lemma_letters_are_trimmed(s: Seq<char>, n: nat)
    requires
        s.len() == 0 || s[0] != 'v',
    ensures
        trimmed_start(Seq::new(n, |i: int| 'v') + s, 'v') == s,
    decreases n,
{
    let long = Seq::new(n, |i: int| 'v') + s;
    if n == 0 {
        assert(long == s);
    } else {
        assert(long[0] == 'v');
        assert(long.drop_first() == Seq::new((n - 1) as nat, |i: int| 'v') + s);
        lemma_letters_are_trimmed(s, (n - 1) as nat);
    }
}

/// A release that can be installed is offered to a program of an earlier version,
/// and to no other, as the three numbers of the two go: the first decides, then
/// the second, then the third. It is offered under those numbers, however many
/// letters its tag has before them.
pub proof fn releases_go_by_their_three_numbers(
    letters: nat,
    a: u32,
    b: u32,
    c: u32,
    x: u32,
    y: u32,
    z: u32,
    assets: Seq<AssetView>,
)
    requires
        can_be_installed(assets),
    ensures
        ({
            let release = GitHubReleaseView {
                tag_name: Seq::new(letters, |i: int| 'v') + dotted(a, b, c),
                assets,
            };
            let answer = offered(release, dotted(x, y, z));
            if a > x || (a == x && b > y) || (a == x && b == y && c > z) {
                answer matches Ok(Some(found)) && found.latest_version == dotted(a, b, c)
            } else {
                answer == Ok::<Option<ReleaseView>, Seq<char>>(None)
            }
        }),
{
    let version = dotted(a, b, c);
    lemma_decimal(a as nat);
    assert(version[0] == decimal(a as nat)[0]);
    assert(is_digit(version[0]));
    lemma_letters_are_trimmed(version, letters);
    three_numbers_are_read(a, b, c, seq![]);
    three_numbers_are_read(x, y, z, seq![]);
    lemma_chosen_where_there_is_one(assets);
}

/// What comes of an answer is what its release offers, or the message about the
/// failure to get one.
pub proof fn answers_offer_their_release(
    release: GitHubRelease,
    failure: FetchFailure,
    current: Seq<char>,
)
    ensures
        fetched(Ok(release), current) == offered(release@, current),
        fetched(Err(failure), current) == Err::<Option<ReleaseView>, Seq<char>>(
            failure_text(failure),
        ),
{
}

/// The latest release is asked for under the owner and the repository that the
/// address ends with.
pub proof fn releases_are_asked_for_by_repository(owner: Seq<char>, repo: Seq<char>)
    ensures
        release_address(owner, repo) == "https://api.github.com/repos/"@ + owner + "/"@ + repo
            + "/releases/latest"@,
{
}

/// The view of what an answer offers tells it.
pub proof fn the_view_tells_the_offer(offer: Result<Option<ReleaseDescriptor>, String>)
    ensures
        offer matches Err(e) ==> fetched_view(offer) == Err::<Option<ReleaseView>, Seq<char>>(e@),
        offer matches Ok(None) ==> fetched_view(offer) == Ok::<Option<ReleaseView>, Seq<char>>(
            None,
        ),
        offer matches Ok(Some(release)) ==> fetched_view(offer) == Ok::<
            Option<ReleaseView>,
            Seq<char>,
        >(Some(release@)),
{
}

/// What is downloaded is the asset that was chosen.
pub proof fn the_chosen_asset_is_downloaded(release: GitHubReleaseView, current: Seq<char>)
    ensures
        offered(release, current) matches Ok(Some(found)) ==> (chosen_asset(
            release.assets,
        ) matches Some(asset) && found.asset_url == asset.browser_download_url),
{
}

} // verus!
