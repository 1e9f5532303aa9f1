//! The update coordinator: a two-phase check / install protocol over one
//! pending-update slot.
//!
//! `core_update_check` turns the kernel's answer to an update query into a
//! normalized record and stores it in the slot when an update is available.
//! `core_update_install` reads the slot and says what to post to the kernel;
//! `install_outcome` turns the kernel's reply into the result for the caller.
//! The HTTP exchange itself is the caller's business.

use crate::config::Config;
use crate::endpoints::{endpoint_text, update_execute_url, UPDATE_EXECUTE_PATH};
use crate::text::{
    is_white_space, join, lemma_stripped_wrapped, opt_text, same_text, stripped, trim,
    trim_matches, CharClass,
};
use vstd::prelude::*;

verus! {

/// What a caller is told about an available update.
#[derive(Debug)]
pub struct UpdateInfo {
    pub version: String,
    pub file_size: u64,
    pub release_notes: Option<String>,
    pub pub_date: Option<String>,
    pub download_url: Option<String>,
}

/// The model of an [`UpdateInfo`].
pub ghost struct UpdateInfoModel {
    pub version: Seq<char>,
    pub file_size: u64,
    pub release_notes: Option<Seq<char>>,
    pub pub_date: Option<Seq<char>>,
    pub download_url: Option<Seq<char>>,
}

/// The result of one update check.
#[derive(Debug)]
pub struct UpdateCheckResult {
    pub has_update: bool,
    pub update_info: Option<UpdateInfo>,
}

/// One downloadable file of a release, as the kernel lists it.
#[derive(Debug)]
pub struct ReleaseAsset {
    pub name: String,
    pub size: u64,
    pub download_url: String,
    pub content_type: Option<String>,
    pub updated_at: Option<String>,
}

/// The model of a [`ReleaseAsset`]: what the size resolution reads of it.
pub ghost struct ReleaseAssetModel {
    pub size: u64,
    pub download_url: Seq<char>,
}

/// The payload of the kernel's answer to an update query.
#[derive(Debug)]
pub struct CoreUpdateResponse {
    pub has_update: bool,
    pub current_version: String,
    pub latest_version: String,
    pub release_notes: Option<String>,
    pub published_at: Option<String>,
    pub assets: Option<Vec<ReleaseAsset>>,
    pub download_url: Option<String>,
}

/// The model of a [`CoreUpdateResponse`].
pub ghost struct CoreUpdateResponseModel {
    pub has_update: bool,
    pub current_version: Seq<char>,
    pub latest_version: Seq<char>,
    pub release_notes: Option<Seq<char>>,
    pub published_at: Option<Seq<char>>,
    pub assets: Seq<ReleaseAssetModel>,
    pub download_url: Option<Seq<char>>,
}

/// Why the kernel's answer to a query could not be had.
#[derive(Debug)]
pub enum FetchFailure {
    /// The request did not reach the kernel; the text says why.
    Connect(String),
    /// The kernel answered, but not with the expected body; the text says why.
    Parse(String),
}

/// The model of a [`FetchFailure`].
pub ghost enum FetchFailureModel {
    Connect(Seq<char>),
    Parse(Seq<char>),
}

/// Why an update operation failed.
#[derive(Debug)]
pub enum UpdateError {
    /// The update query did not reach the kernel.
    Connect(String),
    /// The kernel's answer to the update query could not be read.
    Parse(String),
    /// An install was asked for while the slot was empty.
    NoPendingUpdate,
    /// The pending update carries no download URL.
    NoDownloadUrl,
    /// The install request did not reach the kernel.
    Trigger(String),
    /// The kernel refused the install; the text is its answer, unchanged.
    Rejected(String),
}

/// The model of an [`UpdateError`].
pub ghost enum UpdateErrorModel {
    Connect(Seq<char>),
    Parse(Seq<char>),
    NoPendingUpdate,
    NoDownloadUrl,
    Trigger(Seq<char>),
    Rejected(Seq<char>),
}

/// The single pending-update slot.
#[derive(Debug)]
pub struct UpdateState {
    pub pending_update: Option<UpdateInfo>,
}

/// An install order: `download_url` and `version` are posted to `url`.
#[derive(Debug)]
pub struct InstallRequest {
    pub url: String,
    pub download_url: String,
    pub version: String,
}

/// The model of an [`InstallRequest`].
pub ghost struct InstallRequestModel {
    pub url: Seq<char>,
    pub download_url: Seq<char>,
    pub version: Seq<char>,
}

/// The kernel's reply to an install request.
#[derive(Debug)]
pub struct InstallReply {
    /// Whether the reply carried a success status.
    pub success: bool,
    /// The body of the reply, empty where it could not be read.
    pub body: String,
}

impl View for UpdateInfo {
    type V = UpdateInfoModel;

    open spec fn view(&self) -> UpdateInfoModel {
        UpdateInfoModel {
            version: self.version@,
            file_size: self.file_size,
            release_notes: opt_text(self.release_notes),
            pub_date: opt_text(self.pub_date),
            download_url: opt_text(self.download_url),
        }
    }
}

impl View for ReleaseAsset {
    type V = ReleaseAssetModel;

    open spec fn view(&self) -> ReleaseAssetModel {
        ReleaseAssetModel { size: self.size, download_url: self.download_url@ }
    }
}

/// The models of the listed assets; no list counts as an empty one.
pub open spec fn asset_models(assets: Option<Vec<ReleaseAsset>>) -> Seq<ReleaseAssetModel> {
    match assets {
        Some(list) => Seq::new(list@.len(), |i: int| list@[i]@),
        None => Seq::empty(),
    }
}

impl View for CoreUpdateResponse {
    type V = CoreUpdateResponseModel;

    open spec fn view(&self) -> CoreUpdateResponseModel {
        CoreUpdateResponseModel {
            has_update: self.has_update,
            current_version: self.current_version@,
            latest_version: self.latest_version@,
            release_notes: opt_text(self.release_notes),
            published_at: opt_text(self.published_at),
            assets: asset_models(self.assets),
            download_url: opt_text(self.download_url),
        }
    }
}

impl View for FetchFailure {
    type V = FetchFailureModel;

    open spec fn view(&self) -> FetchFailureModel {
        match self {
            FetchFailure::Connect(detail) => FetchFailureModel::Connect(detail@),
            FetchFailure::Parse(detail) => FetchFailureModel::Parse(detail@),
        }
    }
}

impl View for UpdateError {
    type V = UpdateErrorModel;

    open spec fn view(&self) -> UpdateErrorModel {
        match self {
            UpdateError::Connect(detail) => UpdateErrorModel::Connect(detail@),
            UpdateError::Parse(detail) => UpdateErrorModel::Parse(detail@),
            UpdateError::NoPendingUpdate => UpdateErrorModel::NoPendingUpdate,
            UpdateError::NoDownloadUrl => UpdateErrorModel::NoDownloadUrl,
            UpdateError::Trigger(detail) => UpdateErrorModel::Trigger(detail@),
            UpdateError::Rejected(detail) => UpdateErrorModel::Rejected(detail@),
        }
    }
}

impl View for InstallRequest {
    type V = InstallRequestModel;

    open spec fn view(&self) -> InstallRequestModel {
        InstallRequestModel {
            url: self.url@,
            download_url: self.download_url@,
            version: self.version@,
        }
    }
}

/// The model of the slot: the pending record, if there is one.
pub open spec fn pending_model(pending: Option<UpdateInfo>) -> Option<UpdateInfoModel> {
    match pending {
        Some(info) => Some(info@),
        None => None,
    }
}

impl View for UpdateState {
    type V = Option<UpdateInfoModel>;

    open spec fn view(&self) -> Option<UpdateInfoModel> {
        pending_model(self.pending_update)
    }
}

/// The model of a check result: the availability flag and the record.
pub open spec fn check_result_model(r: UpdateCheckResult) -> (bool, Option<UpdateInfoModel>) {
    (r.has_update, pending_model(r.update_info))
}

/// The model of the outcome of a query.
pub open spec fn response_model(response: Result<CoreUpdateResponse, FetchFailure>) -> Result<
    CoreUpdateResponseModel,
    FetchFailureModel,
> {
    match response {
        Ok(data) => Ok(data@),
        Err(failure) => Err(failure@),
    }
}

/// A URL as it is used: without surrounding white space, then without the
/// backticks that some kernels wrap it in.
pub open spec fn normalized_url(url: Seq<char>) -> Seq<char> {
    stripped(stripped(url, CharClass::WhiteSpace), CharClass::Exactly('`'))
}

/// The chosen URL of an answer, normalized.
pub open spec fn chosen_url(url: Option<Seq<char>>) -> Option<Seq<char>> {
    match url {
        Some(u) => Some(normalized_url(u)),
        None => None,
    }
}

/// Whether `i` is the first asset whose normalized URL is `target`.
pub open spec fn is_first_match(assets: Seq<ReleaseAssetModel>, target: Seq<char>, i: int) -> bool {
    &&& 0 <= i < assets.len()
    &&& normalized_url(assets[i].download_url) == target
    &&& forall|j: int| 0 <= j < i ==> normalized_url(#[trigger] assets[j].download_url) != target
}

/// The size reported for an update: that of the first asset whose normalized
/// URL is the chosen one; without a chosen URL or a match, that of the first
/// asset; without any asset, zero.
pub open spec fn resolved_file_size(assets: Seq<ReleaseAssetModel>, target: Option<Seq<char>>) -> u64 {
    if assets.len() == 0 {
        0
    } else if target is Some && exists|i: int| is_first_match(assets, target->0, i) {
        assets[choose|i: int| is_first_match(assets, target->0, i)].size
    } else {
        assets[0].size
    }
}

/// The record that a check returns for an answer.
pub open spec fn checked_info(data: CoreUpdateResponseModel) -> UpdateInfoModel {
    UpdateInfoModel {
        version: data.latest_version,
        file_size: resolved_file_size(data.assets, chosen_url(data.download_url)),
        release_notes: data.release_notes,
        pub_date: data.published_at,
        download_url: chosen_url(data.download_url),
    }
}

/// What a check returns.
pub open spec fn check_outcome(
    response: Result<CoreUpdateResponseModel, FetchFailureModel>,
) -> Result<(bool, Option<UpdateInfoModel>), UpdateErrorModel> {
    match response {
        Ok(data) => Ok((data.has_update, Some(checked_info(data)))),
        Err(FetchFailureModel::Connect(detail)) => Err(UpdateErrorModel::Connect(detail)),
        Err(FetchFailureModel::Parse(detail)) => Err(UpdateErrorModel::Parse(detail)),
    }
}

/// The slot after a check: overwritten when the kernel reports an update,
/// untouched otherwise.
pub open spec fn pending_after_check(
    before: Option<UpdateInfoModel>,
    response: Result<CoreUpdateResponseModel, FetchFailureModel>,
) -> Option<UpdateInfoModel> {
    match response {
        Ok(data) => if data.has_update {
            Some(checked_info(data))
        } else {
            before
        },
        Err(_) => before,
    }
}

/// What an install orders for a given slot from the kernel at `api_url`, or
/// why it cannot start.
pub open spec fn install_request(pending: Option<UpdateInfoModel>, api_url: Seq<char>) -> Result<
    InstallRequestModel,
    UpdateErrorModel,
> {
    match pending {
        None => Err(UpdateErrorModel::NoPendingUpdate),
        Some(info) => match info.download_url {
            None => Err(UpdateErrorModel::NoDownloadUrl),
            Some(url) => Ok(
                InstallRequestModel {
                    url: endpoint_text(api_url, UPDATE_EXECUTE_PATH@),
                    download_url: url,
                    version: info.version,
                },
            ),
        },
    }
}

/// Two first matches for one target are the same asset.
pub proof fn lemma_first_match_unique(
    assets: Seq<ReleaseAssetModel>,
    target: Seq<char>,
    i: int,
    j: int,
)
    requires
        is_first_match(assets, target, i),
        is_first_match(assets, target, j),
    ensures
        i == j,
{
    if i < j {
        assert(normalized_url(assets[i].download_url) != target);
    } else if j < i {
        assert(normalized_url(assets[j].download_url) != target);
    }
}

fn clone_opt(o: &Option<String>) -> (r: Option<String>)
    ensures
        r == *o,
{
    match o {
        Some(s) => Some(s.clone()),
        None => None,
    }
}

impl Clone for UpdateInfo {
    fn clone(&self) -> (r: Self)
        ensures
            r == *self,
    {
        UpdateInfo {
            version: self.version.clone(),
            file_size: self.file_size,
            release_notes: clone_opt(&self.release_notes),
            pub_date: clone_opt(&self.pub_date),
            download_url: clone_opt(&self.download_url),
        }
    }
}

/// The URL as it is used: trimmed of white space, then of backticks.
pub fn normalize_url(raw: &str) -> (r: String)
    ensures
        r@ == normalized_url(raw@),
{
    String::from_str(trim_matches(trim(raw), '`'))
}

/// The size to report for an update; see [`resolved_file_size`].
pub fn resolve_file_size(assets: &Option<Vec<ReleaseAsset>>, target: &Option<String>) -> (size: u64)
    ensures
        size == resolved_file_size(asset_models(*assets), opt_text(*target)),
{
    let ghost models = asset_models(*assets);
    match assets {
        None => 0,
        Some(list) => {
            if list.len() == 0 {
                return 0;
            }
            if let Some(wanted) = target {
                let n = list.len();
                let mut i: usize = 0;
                while i < n
                    invariant
                        n == list@.len(),
                        i <= n,
                        models == asset_models(*assets),
                        *assets == Some(*list),
                        *target == Some(*wanted),
                        forall|j: int|
                            0 <= j < i ==> normalized_url(#[trigger] models[j].download_url)
                                != wanted@,
                    decreases n - i,
                {
                    let candidate = normalize_url(list[i].download_url.as_str());
                    if same_text(candidate.as_str(), wanted.as_str()) {
                        proof {
                            assert(models[i as int] == list@[i as int]@);
                            let wanted_text: Option<Seq<char>> = Some(wanted@);
                            assert(is_first_match(models, wanted_text->0, i as int));
                            let first = choose|k: int| is_first_match(models, wanted_text->0, k);
                            lemma_first_match_unique(models, wanted@, i as int, first);
                        }
                        return list[i].size;
                    }
                    assert(models[i as int] == list@[i as int]@);
                    i = i + 1;
                }
            }
            list[0].size
        },
    }
}

/// Checks for an update.
///
/// `response` is the outcome of the query to the kernel's update-check
/// endpoint. A failed query is passed on as the matching error and leaves the
/// slot alone. An answer always gives back its normalized record; the record is
/// also stored in the slot, over whatever was there, exactly when the kernel
/// reports an update.
pub fn core_update_check(
    state: &mut UpdateState,
    response: Result<CoreUpdateResponse, FetchFailure>,
) -> (r: Result<UpdateCheckResult, UpdateError>)
    ensures
        match r {
            Ok(result) => check_outcome(response_model(response)) == Ok::<
                (bool, Option<UpdateInfoModel>),
                UpdateErrorModel,
            >(check_result_model(result)),
            Err(e) => check_outcome(response_model(response)) == Err::<
                (bool, Option<UpdateInfoModel>),
                UpdateErrorModel,
            >(e@),
        },
        final(state)@ == pending_after_check(old(state)@, response_model(response)),
{
    match response {
        Err(FetchFailure::Connect(detail)) => Err(UpdateError::Connect(detail)),
        Err(FetchFailure::Parse(detail)) => Err(UpdateError::Parse(detail)),
        Ok(data) => {
            let cleaned_download = match &data.download_url {
                Some(u) => Some(normalize_url(u.as_str())),
                None => None,
            };
            let file_size = resolve_file_size(&data.assets, &cleaned_download);
            let info = UpdateInfo {
                version: data.latest_version.clone(),
                file_size,
                release_notes: clone_opt(&data.release_notes),
                pub_date: clone_opt(&data.published_at),
                download_url: cleaned_download,
            };
            if data.has_update {
                state.pending_update = Some(info.clone());
            }
            Ok(UpdateCheckResult { has_update: data.has_update, update_info: Some(info) })
        },
    }
}

/// Starts an install: reads the slot and says what to post to the execute
/// endpoint of the configured kernel. Fails with
/// [`UpdateError::NoPendingUpdate`] on an empty slot and with
/// [`UpdateError::NoDownloadUrl`] on a record without a URL. The slot is left
/// as it is.
pub fn core_update_install(state: &UpdateState, config: &Config) -> (r: Result<
    InstallRequest,
    UpdateError,
>)
    ensures
        match r {
            Ok(request) => install_request(state@, config.api_url@) == Ok::<
                InstallRequestModel,
                UpdateErrorModel,
            >(request@),
            Err(e) => install_request(state@, config.api_url@) == Err::<
                InstallRequestModel,
                UpdateErrorModel,
            >(e@),
        },
{
    match &state.pending_update {
        None => Err(UpdateError::NoPendingUpdate),
        Some(info) => match &info.download_url {
            None => Err(UpdateError::NoDownloadUrl),
            Some(url) => Ok(
                InstallRequest {
                    url: update_execute_url(config.api_url.as_str()),
                    download_url: url.clone(),
                    version: info.version.clone(),
                },
            ),
        },
    }
}

/// The text that acknowledges a triggered install.
pub const INSTALL_TRIGGERED: &'static str = "Update triggered successfully. Service may restart.";

/// What the caller of an install is told, given the outcome of the post: the
/// acknowledgment on a success status, the kernel's own text on any other
/// status, the transport's text where the post did not go through.
pub fn install_outcome(reply: Result<InstallReply, String>) -> (r: Result<String, UpdateError>)
    ensures
        match reply {
            Ok(answer) => if answer.success {
                r matches Ok(text) && text@ == INSTALL_TRIGGERED@
            } else {
                r matches Err(UpdateError::Rejected(text)) && text@ == answer.body@
            },
            Err(detail) => r matches Err(UpdateError::Trigger(text)) && text@ == detail@,
        },
{
    match reply {
        Ok(answer) => if answer.success {
            Ok(String::from_str(INSTALL_TRIGGERED))
        } else {
            Err(UpdateError::Rejected(answer.body))
        },
        Err(detail) => Err(UpdateError::Trigger(detail)),
    }
}

/// Kept for callers that still start a download themselves: the kernel
/// downloads on its own, so this does nothing and succeeds.
pub fn core_update_download(state: &UpdateState) -> (r: Result<(), UpdateError>)
    ensures
        r is Ok,
{
    Ok(())
}

/// Kept for callers that still cancel a download: does nothing and succeeds.
pub fn core_update_cancel(state: &UpdateState) -> (r: Result<(), UpdateError>)
    ensures
        r is Ok,
{
    Ok(())
}

/// The version reported when the kernel's own cannot be had.
pub const UNKNOWN_VERSION: &'static str = "0.0.0";

/// The version the kernel runs: the current version of its answer to an update
/// query, or [`UNKNOWN_VERSION`] where the query failed.
pub fn core_update_get_version(response: Result<CoreUpdateResponse, FetchFailure>) -> (r: Result<
    String,
    UpdateError,
>)
    ensures
        r matches Ok(version) && version@ == (match response {
            Ok(data) => data.current_version@,
            Err(_) => UNKNOWN_VERSION@,
        }),
{
    match response {
        Ok(data) => Ok(data.current_version),
        Err(_) => Ok(String::from_str(UNKNOWN_VERSION)),
    }
}

/// A check that reports no update leaves the slot as it was. On a slot that
/// was empty, an install that follows finds nothing pending.
pub proof fn law_no_update_keeps_slot(before: Option<UpdateInfoModel>, data: CoreUpdateResponseModel)
    requires
        !data.has_update,
    ensures
        pending_after_check(before, Ok(data)) == before,
        forall|api_url: Seq<char>|
            #[trigger] install_request(pending_after_check(None, Ok(data)), api_url) == Err::<
                InstallRequestModel,
                UpdateErrorModel,
            >(UpdateErrorModel::NoPendingUpdate),
{
}

/// A check that reports an update stores exactly the record that it returns.
pub proof fn law_update_overwrites_slot(before: Option<UpdateInfoModel>, data: CoreUpdateResponseModel)
    requires
        data.has_update,
    ensures
        check_outcome(Ok(data)) matches Ok((available, record)) && available
            && pending_after_check(before, Ok(data)) == record,
{
}

/// The slot after a run of checks, one after the other.
pub open spec fn pending_after_checks(
    before: Option<UpdateInfoModel>,
    responses: Seq<Result<CoreUpdateResponseModel, FetchFailureModel>>,
) -> Option<UpdateInfoModel>
    decreases responses.len(),
{
    if responses.len() == 0 {
        before
    } else {
        pending_after_check(pending_after_checks(before, responses.drop_last()), responses.last())
    }
}

/// Whether a check with this outcome reports an update.
pub open spec fn reports_update(response: Result<CoreUpdateResponseModel, FetchFailureModel>) -> bool {
    response is Ok && response->Ok_0.has_update
}

/// After any run of checks, the slot holds the record of the last check that
/// reported an update.
pub proof fn law_slot_holds_latest_update(
    before: Option<UpdateInfoModel>,
    responses: Seq<Result<CoreUpdateResponseModel, FetchFailureModel>>,
    last: int,
)
    requires
        0 <= last < responses.len(),
        reports_update(responses[last]),
        forall|j: int| last < j < responses.len() ==> !reports_update(#[trigger] responses[j]),
    ensures
        pending_after_checks(before, responses) == Some(checked_info(responses[last]->Ok_0)),
    decreases responses.len(),
{
    if last < responses.len() - 1 {
        let rest = responses.drop_last();
        assert(rest[last] == responses[last]);
        assert forall|j: int| last < j < rest.len() implies !reports_update(#[trigger] rest[j]) by {
            assert(rest[j] == responses[j]);
        }
        law_slot_holds_latest_update(before, rest, last);
        assert(!reports_update(responses[responses.len() - 1]));
    }
}

/// A run of checks none of which reports an update leaves the slot as it was.
pub proof fn law_slot_survives_checks_without_update(
    before: Option<UpdateInfoModel>,
    responses: Seq<Result<CoreUpdateResponseModel, FetchFailureModel>>,
)
    requires
        forall|j: int| 0 <= j < responses.len() ==> !reports_update(#[trigger] responses[j]),
    ensures
        pending_after_checks(before, responses) == before,
    decreases responses.len(),
{
    if responses.len() > 0 {
        let rest = responses.drop_last();
        assert forall|j: int| 0 <= j < rest.len() implies !reports_update(#[trigger] rest[j]) by {
            assert(rest[j] == responses[j]);
        }
        law_slot_survives_checks_without_update(before, rest);
        assert(!reports_update(responses[responses.len() - 1]));
    }
}

/// A URL wrapped in backticks, with white space around them, is normalized to
/// the URL itself: `padding_before`, `ticks_before`, `url`, `ticks_after`,
/// `padding_after` are the five parts of the raw text, and `url` neither
/// starts nor ends with white space or a backtick.
pub proof fn law_wrapped_url_is_normalized(
    padding_before: Seq<char>,
    ticks_before: Seq<char>,
    url: Seq<char>,
    ticks_after: Seq<char>,
    padding_after: Seq<char>,
)
    requires
        forall|i: int| 0 <= i < padding_before.len() ==> is_white_space(#[trigger] padding_before[i]),
        forall|i: int| 0 <= i < padding_after.len() ==> is_white_space(#[trigger] padding_after[i]),
        forall|i: int| 0 <= i < ticks_before.len() ==> #[trigger] ticks_before[i] == '`',
        forall|i: int| 0 <= i < ticks_after.len() ==> #[trigger] ticks_after[i] == '`',
        url.len() > 0 ==> !is_white_space(url.first()) && url.first() != '`' && !is_white_space(
            url.last(),
        ) && url.last() != '`',
    ensures
        normalized_url(padding_before + ticks_before + url + ticks_after + padding_after) == url,
{
    let raw = padding_before + ticks_before + url + ticks_after + padding_after;
    let quoted = ticks_before + url + ticks_after;
    assert(raw =~= padding_before + quoted + padding_after);
    assert(!is_white_space('`'));
    lemma_stripped_wrapped(padding_before, quoted, padding_after, CharClass::WhiteSpace);
    lemma_stripped_wrapped(ticks_before, url, ticks_after, CharClass::Exactly('`'));
}

/// The record stored and returned by a check carries the chosen URL in its
/// normalized form, and its size is resolved against that form.
pub proof fn law_check_normalizes_before_use(data: CoreUpdateResponseModel, raw: Seq<char>)
    requires
        data.download_url == Some(raw),
    ensures
        checked_info(data).download_url == Some(normalized_url(raw)),
        checked_info(data).file_size == resolved_file_size(data.assets, Some(normalized_url(raw))),
{
}

/// An install on a record without a URL fails with the error of its own, which
/// is neither the error of an empty slot nor one that a transport produces.
pub proof fn law_install_without_url(info: UpdateInfoModel, api_url: Seq<char>)
    requires
        info.download_url is None,
    ensures
        install_request(Some(info), api_url) == Err::<InstallRequestModel, UpdateErrorModel>(
            UpdateErrorModel::NoDownloadUrl,
        ),
        install_request(Some(info), api_url) != install_request(None, api_url),
{
}

impl UpdateError {
    /// The text of the error, as shown to the user.
    pub open spec fn message_text(self) -> Seq<char> {
        match self {
            UpdateError::Connect(detail) => "Failed to connect to core: "@ + detail@,
            UpdateError::Parse(detail) => "Failed to parse response: "@ + detail@,
            UpdateError::NoPendingUpdate => "No pending update info"@,
            UpdateError::NoDownloadUrl => "No download URL provided by update check"@,
            UpdateError::Trigger(detail) => "Failed to trigger update: "@ + detail@,
            UpdateError::Rejected(detail) => "Update failed: "@ + detail@,
        }
    }

    /// The text of the error, as shown to the user.
    pub fn message(&self) -> (r: String)
        ensures
            r@ == self.message_text(),
    {
        match self {
            UpdateError::Connect(detail) => join("Failed to connect to core: ", detail.as_str()),
            UpdateError::Parse(detail) => join("Failed to parse response: ", detail.as_str()),
            UpdateError::NoPendingUpdate => String::from_str("No pending update info"),
            UpdateError::NoDownloadUrl => String::from_str(
                "No download URL provided by update check",
            ),
            UpdateError::Trigger(detail) => join("Failed to trigger update: ", detail.as_str()),
            UpdateError::Rejected(detail) => join("Update failed: ", detail.as_str()),
        }
    }
}

} // verus!
