//! The management API: what each endpoint answers.
//!
//! The router in front of the host reads requests and files and writes
//! responses; the functions here decide what the response is.

use crate::lifecycle::{Action, LifecycleEventView, PluginProcessView};
use crate::logs::{
    default_page_size, entries_view, level_named, lines_view, page_of, read_page, LogEntry,
    LogLevel, PageProgress, PageReader, DEFAULT_PAGE_SIZE,
};
use crate::status::{status_of, PluginStatus, PluginStatusView};
use crate::supervisor::{RegistryView, Supervisor};
use crate::text::{ends_with, has_suffix, opt_text};
use vstd::prelude::*;
use vstd::string::StringExecFns;

verus! {

/// The status of an answer that carries a body.
pub const STATUS_OK: u16 = 200;

/// The status of an enable or a disable that went through.
pub const STATUS_NO_CONTENT: u16 = 204;

/// The status for an unknown plugin.
pub const STATUS_NOT_FOUND: u16 = 404;

/// The status for everything that went wrong otherwise.
pub const STATUS_INTERNAL_ERROR: u16 = 500;

/// The status of a host that runs without a supervisor.
pub const STATUS_NOT_IMPLEMENTED: u16 = 501;

/// Why an endpoint could not do what it was asked.
#[derive(Debug, PartialEq, Eq)]
pub enum ApiError {
    /// The host runs without a supervisor.
    NotImplemented,
    /// No plugin has the id asked for, or what was asked for is not there.
    NotFound,
    /// Anything else that went wrong.
    Internal(String),
}

pub enum ApiErrorView {
    NotImplemented,
    NotFound,
    Internal(Seq<char>),
}

impl View for ApiError {
    type V = ApiErrorView;

    open spec fn view(&self) -> ApiErrorView {
        match *self {
            ApiError::NotImplemented => ApiErrorView::NotImplemented,
            ApiError::NotFound => ApiErrorView::NotFound,
            ApiError::Internal(detail) => ApiErrorView::Internal(detail@),
        }
    }
}

/// The HTTP status that goes with an error.
pub open spec fn error_status(error: ApiErrorView) -> u16 {
    match error {
        ApiErrorView::NotImplemented => STATUS_NOT_IMPLEMENTED,
        ApiErrorView::NotFound => STATUS_NOT_FOUND,
        ApiErrorView::Internal(_) => STATUS_INTERNAL_ERROR,
    }
}

/// The text that goes with an error.
pub open spec fn error_message(error: ApiErrorView) -> Seq<char> {
    match error {
        ApiErrorView::NotImplemented => "Plugin supervisor not initialized"@,
        ApiErrorView::NotFound => "Plugin not found"@,
        ApiErrorView::Internal(detail) => detail,
    }
}

impl ApiError {
    /// The HTTP status of the response that reports this error.
    pub fn status(&self) -> (code: u16)
        ensures
            code == error_status(self@),
    {
        match self {
            ApiError::NotImplemented => STATUS_NOT_IMPLEMENTED,
            ApiError::NotFound => STATUS_NOT_FOUND,
            ApiError::Internal(_) => STATUS_INTERNAL_ERROR,
        }
    }

    /// The text of the response that reports this error.
    pub fn message(&self) -> (text: String)
        ensures
            text@ == error_message(self@),
    {
        match self {
            ApiError::NotImplemented => String::from_str("Plugin supervisor not initialized"),
            ApiError::NotFound => String::from_str("Plugin not found"),
            ApiError::Internal(detail) => detail.clone(),
        }
    }
}

/// The error that reports a failed enable or disable.
pub open spec fn failure_of(verb: Seq<char>, error: Seq<char>) -> ApiErrorView {
    ApiErrorView::Internal("Failed to "@ + verb + " plugin: "@ + error)
}

/// Reports that carrying out an enable (`verb` is `enable`) or a disable
/// (`disable`) failed with `error`.
pub fn action_failed(verb: &str, error: &str) -> (failure: ApiError)
    ensures
        failure@ == failure_of(verb@, error@),
{
    ApiError::Internal(
        String::from_str("Failed to ").concat(verb).concat(" plugin: ").concat(error),
    )
}

/// The texts of a list of strings.
pub open spec fn texts(list: Seq<String>) -> Seq<Seq<char>> {
    list.map_values(|s: String| s@)
}

fn has_text(list: &Vec<String>, item: &String) -> (found: bool)
    ensures
        found == texts(list@).contains(item@),
{
    let mut i: usize = 0;
    while i < list.len()
        invariant
            i <= list@.len(),
            forall|j: int| 0 <= j < i ==> (#[trigger] texts(list@)[j]) != item@,
        decreases list@.len() - i,
    {
        if list[i] == *item {
            assert(texts(list@)[i as int] == item@);
            return true;
        }
        i = i + 1;
    }
    false
}

/// The status of a plugin, where `live_sockets` lists the socket paths
/// that were found on disk.
pub open spec fn status_with(process: PluginProcessView, live_sockets: Seq<Seq<char>>)
    -> PluginStatusView {
    status_of(process, live_sockets.contains(process.socket_path))
}

/// The views of a list of statuses.
pub open spec fn statuses_view(statuses: Seq<PluginStatus>) -> Seq<PluginStatusView> {
    statuses.map_values(|s: PluginStatus| s@)
}

/// The statuses of all plugins of a registry, in discovery order.
pub open spec fn all_statuses(registry: RegistryView, live_sockets: Seq<Seq<char>>) -> Seq<
    PluginStatusView,
> {
    Seq::new(
        registry.ids.len(),
        |i: int| status_with(registry.plugins[registry.ids[i]], live_sockets),
    )
}

/// The registry behind an optional supervisor.
pub open spec fn registry_of(supervisor: Option<Supervisor>) -> Option<RegistryView> {
    match supervisor {
        Some(s) => Some(s@),
        None => None,
    }
}

/// Whether an optional supervisor is well-formed where it is there.
pub open spec fn supervisor_wf(supervisor: Option<Supervisor>) -> bool {
    match supervisor {
        Some(s) => s.wf(),
        None => true,
    }
}

/// `GET /plugins`: the statuses of all plugins.
///
/// `live_sockets` lists the socket paths of plugins that were found on
/// disk. Without a supervisor the answer is `501`.
pub fn list_plugins(supervisor: &Option<Supervisor>, live_sockets: &Vec<String>) -> (answer: Result<
    Vec<PluginStatus>,
    ApiError,
>)
    requires
        supervisor_wf(*supervisor),
    ensures
        supervisor is None ==> answer is Err && answer->Err_0 is NotImplemented,
        supervisor is Some ==> answer is Ok && statuses_view(answer->Ok_0@) == all_statuses(
            supervisor->Some_0@,
            texts(live_sockets@),
        ),
{
    let supervisor = match supervisor {
        Some(supervisor) => supervisor,
        None => {
            return Err(ApiError::NotImplemented);
        },
    };
    let mut statuses: Vec<PluginStatus> = Vec::new();
    let n = supervisor.plugin_count();
    let mut i: usize = 0;
    while i < n
        invariant
            i <= n,
            n == supervisor@.ids.len(),
            supervisor.wf(),
            statuses@.len() == i,
            forall|j: int|
                0 <= j < i ==> (#[trigger] statuses@[j])@ == status_with(
                    supervisor@.plugins[supervisor@.ids[j]],
                    texts(live_sockets@),
                ),
        decreases n - i,
    {
        let process = supervisor.plugin_at(i);
        let live = has_text(live_sockets, &process.socket_path);
        let ghost earlier = statuses@;
        statuses.push(PluginStatus::from_process(process, live));
        assert forall|j: int| 0 <= j < i + 1 implies (#[trigger] statuses@[j])@ == status_with(
            supervisor@.plugins[supervisor@.ids[j]],
            texts(live_sockets@),
        ) by {
            if j < i {
                assert(statuses@[j] == earlier[j]);
            }
        }
        i = i + 1;
    }
    assert(statuses_view(statuses@) =~= all_statuses(supervisor@, texts(live_sockets@)));
    Ok(statuses)
}

/// `GET /plugins/:id`: the status of one plugin.
///
/// Without a supervisor the answer is `501`, for an unknown id `404`.
pub fn get_plugin(supervisor: &Option<Supervisor>, id: &str, live_sockets: &Vec<String>) -> (answer:
    Result<PluginStatus, ApiError>)
    requires
        supervisor_wf(*supervisor),
    ensures
        supervisor is None ==> answer is Err && answer->Err_0 is NotImplemented,
        supervisor is Some && !supervisor->Some_0@.plugins.contains_key(id@) ==> answer is Err
            && answer->Err_0 is NotFound,
        supervisor is Some && supervisor->Some_0@.plugins.contains_key(id@) ==> answer is Ok
            && answer->Ok_0@ == status_with(
            supervisor->Some_0@.plugins[id@],
            texts(live_sockets@),
        ),
{
    let supervisor = match supervisor {
        Some(supervisor) => supervisor,
        None => {
            return Err(ApiError::NotImplemented);
        },
    };
    match supervisor.get_plugin_status(id) {
        Some(process) => {
            let live = has_text(live_sockets, &process.socket_path);
            Ok(PluginStatus::from_process(process, live))
        },
        None => Err(ApiError::NotFound),
    }
}

/// The registry behind an optional supervisor after `event` was put to
/// the plugin `id`.
pub open spec fn registry_after(
    supervisor: Option<Supervisor>,
    id: Seq<char>,
    event: LifecycleEventView,
) -> Option<RegistryView> {
    match supervisor {
        Some(s) => Some(s@.apply(id, event, s.config())),
        None => None,
    }
}

/// What putting `event` to the plugin `id` answers: the actions to carry
/// out, `404` for an unknown id, `501` without a supervisor.
pub open spec fn change_answer(
    supervisor: Option<Supervisor>,
    id: Seq<char>,
    event: LifecycleEventView,
) -> Result<Seq<Action>, ApiErrorView> {
    match supervisor {
        Some(s) => if s@.plugins.contains_key(id) {
            Ok(s@.plugins[id].actions(event, s.config()))
        } else {
            Err(ApiErrorView::NotFound)
        },
        None => Err(ApiErrorView::NotImplemented),
    }
}

/// The view of the answer to an enable or a disable.
pub open spec fn answer_view(answer: Result<Vec<Action>, ApiError>) -> Result<
    Seq<Action>,
    ApiErrorView,
> {
    match answer {
        Ok(actions) => Ok(actions@),
        Err(error) => Err(error@),
    }
}

/// The configuration of an optional supervisor.
pub open spec fn config_of(supervisor: Option<Supervisor>) -> Option<
    crate::config::SupervisorConfig,
> {
    match supervisor {
        Some(s) => Some(s.config()),
        None => None,
    }
}

/// `POST /plugins/:id/enable`: enables a plugin.
///
/// Without a supervisor the answer is `501`, for an unknown id `404`.
/// Otherwise the plugin takes the `Enable` event and the actions that
/// start it come back; once they are carried out the response is `204`.
pub fn enable_plugin(supervisor: &mut Option<Supervisor>, id: &str) -> (answer: Result<
    Vec<Action>,
    ApiError,
>)
    requires
        supervisor_wf(*old(supervisor)),
    ensures
        supervisor_wf(*final(supervisor)),
        config_of(*final(supervisor)) == config_of(*old(supervisor)),
        registry_of(*final(supervisor)) == registry_after(
            *old(supervisor),
            id@,
            LifecycleEventView::Enable,
        ),
        answer_view(answer) == change_answer(*old(supervisor), id@, LifecycleEventView::Enable),
{
    match supervisor {
        Some(supervisor) => match supervisor.enable_plugin(id) {
            Some(actions) => Ok(actions),
            None => Err(ApiError::NotFound),
        },
        None => Err(ApiError::NotImplemented),
    }
}

/// `POST /plugins/:id/disable`: disables a plugin.
///
/// Without a supervisor the answer is `501`, for an unknown id `404`.
/// Otherwise the plugin takes the `Disable` event and the actions that
/// stop it come back; once they are carried out the response is `204`.
pub fn disable_plugin(supervisor: &mut Option<Supervisor>, id: &str) -> (answer: Result<
    Vec<Action>,
    ApiError,
>)
    requires
        supervisor_wf(*old(supervisor)),
    ensures
        supervisor_wf(*final(supervisor)),
        config_of(*final(supervisor)) == config_of(*old(supervisor)),
        registry_of(*final(supervisor)) == registry_after(
            *old(supervisor),
            id@,
            LifecycleEventView::Disable,
        ),
        answer_view(answer) == change_answer(*old(supervisor), id@, LifecycleEventView::Disable),
{
    match supervisor {
        Some(supervisor) => match supervisor.disable_plugin(id) {
            Some(actions) => Ok(actions),
            None => Err(ApiError::NotFound),
        },
        None => Err(ApiError::NotImplemented),
    }
}

/// The status of the response to an enable or a disable: `204` where the
/// request was accepted and its actions were carried out, else the status
/// of the error.
pub fn mutation_status(outcome: &Result<(), ApiError>) -> (code: u16)
    ensures
        outcome is Ok ==> code == STATUS_NO_CONTENT,
        outcome is Err ==> code == error_status(outcome->Err_0@),
{
    match outcome {
        Ok(_) => STATUS_NO_CONTENT,
        Err(error) => error.status(),
    }
}

/// The content type under which a plugin's frontend bundle is served.
pub open spec fn javascript_content_type() -> Seq<char> {
    "application/javascript"@
}

/// The content type of the answer that carries a plugin's frontend bundle.
pub fn bundle_content_type() -> (content_type: String)
    ensures
        content_type@ == javascript_content_type(),
{
    String::from_str("application/javascript")
}

/// Where the frontend bundle of the plugin `id` lies.
pub open spec fn bundle_path_of(plugins_dir: Seq<char>, id: Seq<char>) -> Seq<char> {
    plugins_dir + "/"@ + id + "/bundle.js"@
}

/// What was found where a plugin's bundle should be.
#[derive(Debug, PartialEq, Eq)]
pub enum BundleFile {
    /// There is no such file.
    Missing,
    /// The file is there and could not be read.
    Unreadable,
    /// The file, read.
    Content(String),
}

/// Whether the bundle of the plugin `id` may be asked for: the plugin is
/// known and enabled.
pub open spec fn serves_bundle(registry: RegistryView, id: Seq<char>) -> bool {
    registry.plugins.contains_key(id) && registry.plugins[id].enabled
}

/// The path of the frontend bundle of the plugin `id`.
///
/// Without a supervisor the answer is `501`; for an unknown plugin and for
/// one that is not enabled it is `404`.
pub fn bundle_path(supervisor: &Option<Supervisor>, id: &str) -> (answer: Result<String, ApiError>)
    requires
        supervisor_wf(*supervisor),
    ensures
        supervisor is None ==> answer is Err && answer->Err_0 is NotImplemented,
        supervisor is Some && !serves_bundle(supervisor->Some_0@, id@) ==> answer is Err
            && answer->Err_0 is NotFound,
        supervisor is Some && serves_bundle(supervisor->Some_0@, id@) ==> answer is Ok
            && answer->Ok_0@ == bundle_path_of(supervisor->Some_0.plugins_dir(), id@),
{
    let supervisor = match supervisor {
        Some(supervisor) => supervisor,
        None => {
            return Err(ApiError::NotImplemented);
        },
    };
    match supervisor.get_plugin_status(id) {
        Some(process) => {
            if !process.enabled {
                return Err(ApiError::NotFound);
            }
        },
        None => {
            return Err(ApiError::NotFound);
        },
    }
    Ok(supervisor.get_plugins_dir().clone().concat("/").concat(id).concat("/bundle.js"))
}

/// `GET /plugins/:id/bundle.js`: the frontend bundle of a plugin.
///
/// `file` is what was found at the plugin's [`bundle_path`]. The answer is
/// `501` without a supervisor; `404` for an unknown plugin, for one that
/// is not enabled and for a missing file; `500` for a file that could not
/// be read; and the content of the file otherwise.
pub fn get_plugin_bundle(supervisor: &Option<Supervisor>, id: &str, file: BundleFile) -> (answer:
    Result<String, ApiError>)
    requires
        supervisor_wf(*supervisor),
    ensures
        supervisor is None ==> answer is Err && answer->Err_0 is NotImplemented,
        supervisor is Some && (!serves_bundle(supervisor->Some_0@, id@) || file is Missing)
            ==> answer is Err && answer->Err_0 is NotFound,
        supervisor is Some && serves_bundle(supervisor->Some_0@, id@) && file is Unreadable
            ==> answer is Err && answer->Err_0 is Internal,
        supervisor is Some && serves_bundle(supervisor->Some_0@, id@) && file is Content
            ==> answer is Ok && answer->Ok_0@ == file->Content_0@,
{
    match bundle_path(supervisor, id) {
        Ok(_) => {},
        Err(error) => {
            return Err(error);
        },
    }
    match file {
        BundleFile::Missing => Err(ApiError::NotFound),
        BundleFile::Unreadable => Err(
            ApiError::Internal(String::from_str("Plugin bundle could not be read")),
        ),
        BundleFile::Content(content) => Ok(content),
    }
}

/// The query of a log request.
#[derive(Debug, PartialEq, Eq)]
pub struct LogQuery {
    pub page: usize,
    pub page_size: usize,
    pub level: Option<String>,
}

/// The number given, or `default` where none is given.
pub open spec fn or_default(given: Option<usize>, default: usize) -> usize {
    match given {
        Some(n) => n,
        None => default,
    }
}

impl LogQuery {
    /// The query that the parameters of a request stand for: page 0 and the
    /// default page size where the request names none.
    pub fn from_params(page: Option<usize>, page_size: Option<usize>, level: Option<String>) -> (query:
        Self)
        ensures
            query.page == or_default(page, 0),
            query.page_size == or_default(page_size, DEFAULT_PAGE_SIZE),
            opt_text(query.level) == opt_text(level),
    {
        LogQuery {
            page: match page {
                Some(n) => n,
                None => 0,
            },
            page_size: match page_size {
                Some(n) => n,
                None => default_page_size(),
            },
            level,
        }
    }
}

/// The level that a query filters by: the level it names, or none where
/// it names none or names something that is not a level.
pub open spec fn filter_of(level: Option<Seq<char>>) -> Option<LogLevel> {
    match level {
        Some(name) => level_named(name),
        None => None,
    }
}

/// The level a query filters by.
pub fn query_filter(query: &LogQuery) -> (filter: Option<LogLevel>)
    ensures
        filter == filter_of(opt_text(query.level)),
{
    match &query.level {
        Some(name) => LogLevel::from_str(name.as_str()),
        None => None,
    }
}

/// The answer to a log request.
#[derive(Debug, PartialEq, Eq)]
pub struct LogsResponse {
    pub logs: Vec<LogEntry>,
    pub page: usize,
    pub page_size: usize,
}

/// Opens a log request: the reader to offer the lines of the plugin's log
/// file to.
///
/// The answer is `501` without a supervisor and `404` for an unknown
/// plugin. Otherwise a reader comes back that is set to the page, the page
/// size and the level of the query and has seen no line yet.
pub fn plan_log_read(supervisor: &Option<Supervisor>, id: &str, query: &LogQuery) -> (answer:
    Result<PageReader, ApiError>)
    requires
        supervisor_wf(*supervisor),
    ensures
        supervisor is None ==> answer is Err && answer->Err_0 is NotImplemented,
        supervisor is Some && !supervisor->Some_0@.plugins.contains_key(id@) ==> answer is Err
            && answer->Err_0 is NotFound,
        supervisor is Some && supervisor->Some_0@.plugins.contains_key(id@) ==> answer is Ok
            && answer->Ok_0.wf() && answer->Ok_0.filter() == filter_of(opt_text(query.level))
            && answer->Ok_0.progress() == PageProgress::start(
            query.page as nat,
            query.page_size as nat,
        ),
{
    let supervisor = match supervisor {
        Some(supervisor) => supervisor,
        None => {
            return Err(ApiError::NotImplemented);
        },
    };
    if supervisor.get_plugin_status(id).is_none() {
        return Err(ApiError::NotFound);
    }
    Ok(PageReader::new(query_filter(query), query.page, query.page_size))
}

/// Closes a log request that [`plan_log_read`] opened.
///
/// `read` is the reader after the lines of the log file were offered to
/// it, or `None` if the file could not be read, which is answered with
/// `500`. The response holds the entries that the reader took.
pub fn logs_response(query: &LogQuery, read: Option<PageReader>) -> (answer: Result<
    LogsResponse,
    ApiError,
>)
    ensures
        read is None ==> answer is Err && answer->Err_0 is Internal,
        read is Some ==> answer is Ok && answer->Ok_0.page == query.page && answer->Ok_0.page_size
            == query.page_size && entries_view(answer->Ok_0.logs@) == read->Some_0.taken(),
{
    match read {
        Some(reader) => Ok(
            LogsResponse { logs: reader.finish(), page: query.page, page_size: query.page_size },
        ),
        None => Err(ApiError::Internal(String::from_str("Plugin log could not be read"))),
    }
}

/// `GET /plugins/:id/logs`: one page of a plugin's log.
///
/// `lines` holds the lines of the plugin's log file, each parsed or `None`
/// where it did not parse; it is `None` as a whole where the file could not
/// be read. The answer is `501` without a supervisor, `404` for an unknown
/// plugin, `500` for a log that could not be read, and otherwise the page
/// asked for, of the entries with the level asked for.
pub fn get_plugin_logs(
    supervisor: &Option<Supervisor>,
    id: &str,
    query: &LogQuery,
    lines: Option<&Vec<Option<LogEntry>>>,
) -> (answer: Result<LogsResponse, ApiError>)
    requires
        supervisor_wf(*supervisor),
    ensures
        supervisor is None ==> answer is Err && answer->Err_0 is NotImplemented,
        supervisor is Some && !supervisor->Some_0@.plugins.contains_key(id@) ==> answer is Err
            && answer->Err_0 is NotFound,
        supervisor is Some && supervisor->Some_0@.plugins.contains_key(id@) && lines is None
            ==> answer is Err && answer->Err_0 is Internal,
        supervisor is Some && supervisor->Some_0@.plugins.contains_key(id@) && lines is Some
            ==> answer is Ok && answer->Ok_0.page == query.page && answer->Ok_0.page_size
            == query.page_size && entries_view(answer->Ok_0.logs@) == page_of(
            lines_view(lines->Some_0@),
            filter_of(opt_text(query.level)),
            query.page as nat,
            query.page_size as nat,
        ),
{
    let supervisor = match supervisor {
        Some(supervisor) => supervisor,
        None => {
            return Err(ApiError::NotImplemented);
        },
    };
    if supervisor.get_plugin_status(id).is_none() {
        return Err(ApiError::NotFound);
    }
    let lines = match lines {
        Some(lines) => lines,
        None => {
            return Err(ApiError::Internal(String::from_str("Plugin log could not be read")));
        },
    };
    let logs = read_page(lines, query_filter(query), query.page, query.page_size);
    Ok(LogsResponse { logs, page: query.page, page_size: query.page_size })
}

/// Whether a file name is that of a script: it ends in `.sh` or `.bash`.
pub open spec fn is_script_name(name: Seq<char>) -> bool {
    ends_with(name, ".sh"@) || ends_with(name, ".bash"@)
}

/// The scripts among the entries of the scripts directory: the names that
/// end in `.sh` or `.bash`, in the order given.
pub fn list_scripts(entries: &Vec<String>) -> (scripts: Vec<String>)
    ensures
        texts(scripts@) == texts(entries@).filter(|name: Seq<char>| is_script_name(name)),
{
    let mut scripts: Vec<String> = Vec::new();
    let ghost pred = |name: Seq<char>| is_script_name(name);
    let mut i: usize = 0;
    assert(texts(entries@).take(0) =~= Seq::<Seq<char>>::empty());
    while i < entries.len()
        invariant
            i <= entries@.len(),
            pred == (|name: Seq<char>| is_script_name(name)),
            texts(scripts@) == texts(entries@).take(i as int).filter(pred),
        decreases entries@.len() - i,
    {
        let name = &entries[i];
        proof {
            let seen = texts(entries@).take(i as int);
            let next = texts(entries@).take(i as int + 1);
            assert(next =~= seen.push(name@));
            assert(next.drop_last() =~= seen);
            reveal(Seq::filter);
        }
        if has_suffix(name.as_str(), ".sh") || has_suffix(name.as_str(), ".bash") {
            let ghost before = texts(scripts@);
            scripts.push(name.clone());
            assert(texts(scripts@) =~= before.push(name@));
        }
        i = i + 1;
    }
    assert(texts(entries@).take(i as int) =~= texts(entries@));
    scripts
}

} // verus!
