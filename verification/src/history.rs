//! Live documents: watching, reloading, undoing and saving, and how people are told.
use vstd::prelude::*;

use crate::excerpt;
use crate::text;

verus! {

/// What previewing a source in the live session came to.
#[derive(Debug)]
pub enum PreviewOutcome {
    /// The source is live at this revision.
    Applied(u64),
    /// The source was refused with these diagnostics.
    Rejected(Vec<String>),
    /// The session moved on meanwhile.
    Conflict(String),
}

/// The first diagnostic message, or a word for none.
pub open spec fn summary(messages: Seq<String>) -> Seq<char> {
    if messages.len() > 0 {
        messages[0]@
    } else {
        "unknown validation failure"@
    }
}

/// How people are told of a preview.
pub open spec fn preview_message(
    outcome: PreviewOutcome,
    applied: Seq<char>,
    rejected: Seq<char>,
    conflict: Seq<char>,
) -> Seq<char> {
    match outcome {
        PreviewOutcome::Applied(revision) => applied + text::decimal_text(revision as nat),
        PreviewOutcome::Rejected(messages) => rejected + summary(messages@),
        PreviewOutcome::Conflict(message) => conflict + message@,
    }
}

fn preview_status(outcome: &PreviewOutcome, applied: &str, rejected: &str, conflict: &str) -> (out:
    String)
    ensures
        out@ == preview_message(*outcome, applied@, rejected@, conflict@),
{
    match outcome {
        PreviewOutcome::Applied(revision) => text::join2(
            applied,
            text::decimal(*revision).as_str(),
        ),
        PreviewOutcome::Rejected(messages) => text::join2(
            rejected,
            excerpt::diagnostic_summary(messages).as_str(),
        ),
        PreviewOutcome::Conflict(message) => text::join2(conflict, message.as_str()),
    }
}

/// How people are told of a reloaded shell, or that its files could not be read.
pub fn reload_shell_status(outcome: &Result<PreviewOutcome, String>) -> (out: String)
    ensures
        out@ == (match *outcome {
            Ok(preview) => preview_message(
                preview,
                "Studio shell and theme applied at revision "@,
                "Studio shell kept last-good preview: "@,
                "Studio shell conflict: "@,
            ),
            Err(error) => "Read Studio shell: "@ + error@,
        }),
{
    match outcome {
        Ok(preview) => preview_status(
            preview,
            "Studio shell and theme applied at revision ",
            "Studio shell kept last-good preview: ",
            "Studio shell conflict: ",
        ),
        Err(error) => text::join2("Read Studio shell: ", error.as_str()),
    }
}

/// How people are told of files that changed on disk.
pub fn reload_external_status(outcome: &PreviewOutcome) -> (out: String)
    ensures
        out@ == preview_message(
            *outcome,
            "External files hot reloaded at revision "@,
            "External edit rejected; keeping last-good preview: "@,
            "External reload conflict: "@,
        ),
{
    preview_status(
        outcome,
        "External files hot reloaded at revision ",
        "External edit rejected; keeping last-good preview: ",
        "External reload conflict: ",
    )
}

/// How people are told of an undo or redo.
pub fn move_history_status(undo: bool, outcome: &PreviewOutcome) -> (out: String)
    ensures
        out@ == preview_message(
            *outcome,
            if undo {
                "Undo applied at revision "@
            } else {
                "Redo applied at revision "@
            },
            "History candidate rejected: "@,
            "History conflict: "@,
        ),
{
    preview_status(
        outcome,
        if undo {
            "Undo applied at revision "
        } else {
            "Redo applied at revision "
        },
        "History candidate rejected: ",
        "History conflict: ",
    )
}

/// What an undo or redo finds.
#[derive(Clone, Copy, Debug, PartialEq, Eq, Structural)]
pub enum HistoryStep {
    /// There is no live session.
    NoSession,
    /// There is nothing to go to.
    Empty,
    /// A candidate has to be previewed.
    Preview,
}

/// Whether an undo or redo has a candidate to preview, and how people are told where not.
pub fn move_history(undo: bool, session: bool, candidate: bool) -> (out: (
    HistoryStep,
    Option<&'static str>,
))
    ensures
        if !session {
            out.0 == HistoryStep::NoSession && out.1 is Some && out.1->0@
                == "No active project session"@
        } else if !candidate {
            out.0 == HistoryStep::Empty && out.1 is Some && out.1->0@ == (if undo {
                "Nothing to undo"@
            } else {
                "Nothing to redo"@
            })
        } else {
            out.0 == HistoryStep::Preview && out.1 is None
        },
{
    if !session {
        (HistoryStep::NoSession, Some("No active project session"))
    } else if !candidate {
        (
            HistoryStep::Empty,
            if undo {
                Some("Nothing to undo")
            } else {
                Some("Nothing to redo")
            },
        )
    } else {
        (HistoryStep::Preview, None)
    }
}

/// The source of a project.
#[derive(Debug)]
pub struct SourceDocument {
    pub html: String,
    pub css: String,
    pub bindings_ron: String,
}

/// What a source holds.
#[verifier::ext_equal]
pub struct SourceView {
    pub html: Seq<char>,
    pub css: Seq<char>,
    pub bindings_ron: Seq<char>,
}

impl View for SourceDocument {
    type V = SourceView;

    open spec fn view(&self) -> SourceView {
        SourceView { html: self.html@, css: self.css@, bindings_ron: self.bindings_ron@ }
    }
}

impl SourceDocument {
    /// Whether both hold the same.
    pub fn same(&self, other: &SourceDocument) -> (result: bool)
        ensures
            result == (self@ == other@),
    {
        text::same_text(self.html.as_str(), other.html.as_str()) && text::same_text(
            self.css.as_str(),
            other.css.as_str(),
        ) && text::same_text(self.bindings_ron.as_str(), other.bindings_ron.as_str())
    }
}

/// What to do about files on disk.
#[derive(Clone, Copy, Debug, PartialEq, Eq, Structural)]
pub enum ExternalEdit {
    /// Tell people that an unsaved preview is in the way.
    Conflict,
    /// An unsaved preview is live and the disk is as it was.
    Ignore,
    /// The disk holds what is live: take it as the saved state.
    Adopt,
    /// The disk holds something new: preview it.
    Preview,
}

/// What to do about files on disk, by how the live source, the last saved source and the disk
/// compare.
pub open spec fn external_edit_of(live: SourceView, saved: SourceView, disk: SourceView) -> ExternalEdit {
    if live != saved {
        if disk != saved {
            ExternalEdit::Conflict
        } else {
            ExternalEdit::Ignore
        }
    } else if disk == live {
        ExternalEdit::Adopt
    } else {
        ExternalEdit::Preview
    }
}

/// What to do about files on disk.
pub fn external_edit(live: &SourceDocument, saved: &SourceDocument, disk: &SourceDocument) -> (edit:
    ExternalEdit)
    ensures
        edit == external_edit_of(live@, saved@, disk@),
{
    if !live.same(saved) {
        if !disk.same(saved) {
            ExternalEdit::Conflict
        } else {
            ExternalEdit::Ignore
        }
    } else if disk.same(live) {
        ExternalEdit::Adopt
    } else {
        ExternalEdit::Preview
    }
}

/// What is found where the disk is looked at.
#[derive(Debug)]
pub enum ExternalRead {
    NoSession,
    Unreadable(String),
    Read { live: SourceDocument, saved: SourceDocument, disk: SourceDocument },
}

/// What a look at the disk asks for. A preview tells its own outcome.
#[derive(Debug)]
pub struct ExternalPlan {
    pub edit: ExternalEdit,
    pub status: Option<String>,
    /// Whether people see a change.
    pub changed: bool,
}

/// Whether this is what a look at the disk asks for.
pub open spec fn external_planned(plan: ExternalPlan, read: ExternalRead) -> bool {
    match read {
        ExternalRead::NoSession => {
            &&& plan.edit == ExternalEdit::Ignore
            &&& plan.status is Some && plan.status->0@ == "No active project session"@
            &&& plan.changed
        },
        ExternalRead::Unreadable(error) => {
            &&& plan.edit == ExternalEdit::Ignore
            &&& plan.status is Some && plan.status->0@ == "Read external edit: "@ + error@
            &&& plan.changed
        },
        ExternalRead::Read { live, saved, disk } => {
            &&& plan.edit == external_edit_of(live@, saved@, disk@)
            &&& if plan.edit == ExternalEdit::Conflict {
                plan.status is Some && plan.status->0@
                    == "External edit conflicts with an unsaved preview; save, undo, or merge first"@
            } else {
                plan.status is None
            }
            &&& plan.changed == (plan.edit == ExternalEdit::Conflict || plan.edit
                == ExternalEdit::Preview)
        },
    }
}

/// What a look at the disk asks for.
pub fn reload_external_if_changed(read: &ExternalRead) -> (plan: ExternalPlan)
    ensures
        external_planned(plan, *read),
{
    match read {
        ExternalRead::NoSession => ExternalPlan {
            edit: ExternalEdit::Ignore,
            status: Some("No active project session".to_owned()),
            changed: true,
        },
        ExternalRead::Unreadable(error) => ExternalPlan {
            edit: ExternalEdit::Ignore,
            status: Some(text::join2("Read external edit: ", error.as_str())),
            changed: true,
        },
        ExternalRead::Read { live, saved, disk } => {
            let edit = external_edit(live, saved, disk);
            match edit {
                ExternalEdit::Conflict => ExternalPlan {
                    edit,
                    status: Some(
                        "External edit conflicts with an unsaved preview; save, undo, or merge first".to_owned(),
                    ),
                    changed: true,
                },
                ExternalEdit::Preview => ExternalPlan { edit, status: None, changed: true },
                ExternalEdit::Ignore | ExternalEdit::Adopt => ExternalPlan {
                    edit,
                    status: None,
                    changed: false,
                },
            }
        },
    }
}

/// Files that hold what is live are taken as saved without a repaint and without a word.
pub proof fn law_identical_files_do_not_repaint(
    plan: ExternalPlan,
    live: SourceDocument,
    saved: SourceDocument,
    disk: SourceDocument,
)
    requires
        external_planned(plan, ExternalRead::Read { live, saved, disk }),
        disk@ == live@,
        saved@ == live@,
    ensures
        plan.edit == ExternalEdit::Adopt,
        plan.status is None,
        !plan.changed,
{
}

/// An unsaved preview is never overwritten by the disk: only where the live source is the
/// saved one is anything adopted or previewed.
pub proof fn law_unsaved_preview_is_kept(live: SourceView, saved: SourceView, disk: SourceView)
    requires
        live != saved,
    ensures
        external_edit_of(live, saved, disk) == ExternalEdit::Conflict || external_edit_of(
            live,
            saved,
            disk,
        ) == ExternalEdit::Ignore,
{
}

/// Whether a live revision has to be taken into the history: there are a session and a
/// history, and the history has not seen the revision.
pub fn has_unseen_revision(live: Option<u64>, observed: Option<u64>) -> (result: bool)
    ensures
        result == (live is Some && observed is Some && live->0 != observed->0),
{
    match (live, observed) {
        (Some(live), Some(observed)) => live != observed,
        _ => false,
    }
}

/// How people are told of a preview that a tool applied.
pub fn tool_preview_status(revision: u64) -> (out: String)
    ensures
        out@ == "MCP preview applied in memory at revision "@ + text::decimal_text(
            revision as nat,
        ) + " · explicit save required"@,
{
    text::join3(
        "MCP preview applied in memory at revision ",
        text::decimal(revision).as_str(),
        " · explicit save required",
    )
}

/// How people are told that a project is ready.
pub fn ready_status(revision: u64) -> (out: String)
    ensures
        out@ == "Ready · project revision "@ + text::decimal_text(revision as nat)
            + " · native preview"@,
{
    text::join3(
        "Ready · project revision ",
        text::decimal(revision).as_str(),
        " · native preview",
    )
}

/// What saving came to, step by step.
#[derive(Debug)]
pub enum SaveOutcome {
    NoSession,
    SourceRejected(String),
    ComponentsFailed(String),
    WindowFailed(String),
    Exported { revision: u64, window_module: String },
}

/// How people are told of a save.
pub fn save_status(outcome: &SaveOutcome) -> (out: String)
    ensures
        out@ == (match *outcome {
            SaveOutcome::NoSession => "No active project session"@,
            SaveOutcome::SourceRejected(error) => "Save rejected: "@ + error@,
            SaveOutcome::ComponentsFailed(error) => {
                "Project source saved, but component document export failed: "@ + error@
            },
            SaveOutcome::WindowFailed(error) => {
                "Project source saved, but output window generation failed: "@ + error@
            },
            SaveOutcome::Exported { revision, window_module } => "Exported revision "@
                + text::decimal_text(revision as nat) + " with runnable window policy at "@
                + window_module@,
        }),
{
    match outcome {
        SaveOutcome::NoSession => "No active project session".to_owned(),
        SaveOutcome::SourceRejected(error) => text::join2("Save rejected: ", error.as_str()),
        SaveOutcome::ComponentsFailed(error) => text::join2(
            "Project source saved, but component document export failed: ",
            error.as_str(),
        ),
        SaveOutcome::WindowFailed(error) => text::join2(
            "Project source saved, but output window generation failed: ",
            error.as_str(),
        ),
        SaveOutcome::Exported { revision, window_module } => {
            let mut out = text::join3(
                "Exported revision ",
                text::decimal(*revision).as_str(),
                " with runnable window policy at ",
            );
            out.append(window_module.as_str());
            out
        },
    }
}

// ---------------------------------------------------------------------------
// Watching
// ---------------------------------------------------------------------------

/// What a file watcher reports.
#[derive(Debug)]
pub enum WatcherReport {
    Changed,
    Quiet,
    Failed(String),
}

/// What a report asks for.
#[derive(Debug)]
pub enum WatcherRequest {
    Nothing,
    Reload,
    Tell(String),
}

/// Debounces a file watcher: a change is remembered and acted on at the first quiet report;
/// a failure is told, and what is remembered stays.
pub fn debounce(pending: &mut bool, report: WatcherReport, who: &str) -> (request: WatcherRequest)
    ensures
        match report {
            WatcherReport::Changed => *final(pending) && request is Nothing,
            WatcherReport::Quiet => !*final(pending) && (if *old(pending) {
                request is Reload
            } else {
                request is Nothing
            }),
            WatcherReport::Failed(error) => *final(pending) == *old(pending) && (
            request matches WatcherRequest::Tell(status) && status@ == who@ + " watcher: "@
                + error@),
        },
{
    match report {
        WatcherReport::Changed => {
            *pending = true;
            WatcherRequest::Nothing
        },
        WatcherReport::Quiet => {
            if *pending {
                *pending = false;
                WatcherRequest::Reload
            } else {
                WatcherRequest::Nothing
            }
        },
        WatcherReport::Failed(error) => WatcherRequest::Tell(
            text::join3(who, " watcher: ", error.as_str()),
        ),
    }
}

/// What the watcher of theme catalogs reports; the catalog itself stays with the caller.
#[derive(Debug)]
pub enum ThemeReport {
    NewCatalog,
    Quiet,
    Failed(String),
}

/// What the watchers report at one tick.
#[derive(Debug)]
pub struct PollReports {
    pub project: WatcherReport,
    pub shell: WatcherReport,
    pub theme: ThemeReport,
}

/// What is remembered between ticks.
#[derive(Clone, Copy, Debug, PartialEq, Eq, Structural)]
pub struct Watching {
    pub project_reload_pending: bool,
    pub shell_reload_pending: bool,
    /// The revision of the theme that the shell shows.
    pub applied_theme_revision: u64,
}

/// What a tick asks for, in the order of the fields.
#[derive(Debug)]
pub struct PollPlan {
    /// Look at the project's files on disk.
    pub reload_project: bool,
    /// What people are told, in order; what the reloads have to tell comes in between.
    pub project_failure: Option<String>,
    pub shell_failure: Option<String>,
    pub theme_failure: Option<String>,
    /// Take the new theme catalog.
    pub replace_catalog: bool,
    /// Reload the shell.
    pub reload_shell: bool,
    /// Whether the window has to be painted, whatever the reloads come to.
    pub changed: bool,
}

/// The report is a failure, and this is how people are told.
pub open spec fn failure_told(
    told: Option<String>,
    failure: Option<Seq<char>>,
    who: Seq<char>,
) -> bool {
    match failure {
        Some(error) => told is Some && told->0@ == who + " watcher: "@ + error,
        None => told is None,
    }
}

impl WatcherReport {
    /// Why the watcher failed.
    pub open spec fn failure(self) -> Option<Seq<char>> {
        match self {
            WatcherReport::Failed(error) => Some(error@),
            _ => None,
        }
    }
}

impl ThemeReport {
    /// Why the watcher failed.
    pub open spec fn failure(self) -> Option<Seq<char>> {
        match self {
            ThemeReport::Failed(error) => Some(error@),
            _ => None,
        }
    }
}

/// What is remembered of one watcher after a report.
pub open spec fn pending_after(pending: bool, report: WatcherReport) -> bool {
    match report {
        WatcherReport::Changed => true,
        WatcherReport::Quiet => false,
        WatcherReport::Failed(_) => pending,
    }
}

impl Watching {
    /// One tick. A change of files is acted on once the watcher is quiet again. The shell is
    /// reloaded where its files changed, where a new catalog came, and where a theme was chosen
    /// that the shell does not show yet. Failures are told.
    pub fn poll(&mut self, reports: PollReports, theme_revision: u64) -> (plan: PollPlan)
        ensures
            *final(self) == (Watching {
                project_reload_pending: pending_after(
                    old(self).project_reload_pending,
                    reports.project,
                ),
                shell_reload_pending: pending_after(old(self).shell_reload_pending, reports.shell),
                applied_theme_revision: old(self).applied_theme_revision,
            }),
            plan.reload_project == (reports.project is Quiet && old(self).project_reload_pending),
            plan.replace_catalog == reports.theme is NewCatalog,
            plan.reload_shell == (old(self).applied_theme_revision != theme_revision || (
            reports.shell is Quiet && old(self).shell_reload_pending) || reports.theme is NewCatalog),
            failure_told(plan.project_failure, reports.project.failure(), "Project"@),
            failure_told(plan.shell_failure, reports.shell.failure(), "Studio shell"@),
            failure_told(plan.theme_failure, reports.theme.failure(), "Theme"@),
            plan.changed == (plan.reload_shell || reports.project is Failed
                || reports.shell is Failed || reports.theme is Failed),
    {
        let (reload_project, project_failure) = match debounce(
            &mut self.project_reload_pending,
            reports.project,
            "Project",
        ) {
            WatcherRequest::Nothing => (false, None),
            WatcherRequest::Reload => (true, None),
            WatcherRequest::Tell(status) => (false, Some(status)),
        };
        let (shell_changed, shell_failure) = match debounce(
            &mut self.shell_reload_pending,
            reports.shell,
            "Studio shell",
        ) {
            WatcherRequest::Nothing => (false, None),
            WatcherRequest::Reload => (true, None),
            WatcherRequest::Tell(status) => (false, Some(status)),
        };
        let (replace_catalog, theme_failure) = match reports.theme {
            ThemeReport::NewCatalog => (true, None),
            ThemeReport::Quiet => (false, None),
            ThemeReport::Failed(error) => (
                false,
                Some(text::join2("Theme watcher: ", error.as_str())),
            ),
        };
        proof {
            reveal_strlit("Theme");
            reveal_strlit(" watcher: ");
            reveal_strlit("Theme watcher: ");
            assert("Theme watcher: "@ =~= "Theme"@ + " watcher: "@);
        }
        let reload_shell = self.applied_theme_revision != theme_revision || shell_changed
            || replace_catalog;
        let changed = reload_shell || project_failure.is_some() || shell_failure.is_some()
            || theme_failure.is_some();
        PollPlan {
            reload_project,
            project_failure,
            shell_failure,
            theme_failure,
            replace_catalog,
            reload_shell,
            changed,
        }
    }

    /// Remembers that the shell shows the theme of this revision; a preview that was not applied
    /// leaves what the shell shows.
    pub fn shell_reloaded(&mut self, outcome: &PreviewOutcome, theme_revision: u64)
        ensures
            *final(self) == (Watching {
                applied_theme_revision: if *outcome is Applied {
                    theme_revision
                } else {
                    old(self).applied_theme_revision
                },
                ..*old(self)
            }),
    {
        match outcome {
            PreviewOutcome::Applied(_) => {
                self.applied_theme_revision = theme_revision;
            },
            _ => {},
        }
    }
}

/// What is remembered after a row of reports.
pub open spec fn pending_through(pending: bool, reports: Seq<WatcherReport>) -> bool
    decreases reports.len(),
{
    if reports.len() == 0 {
        pending
    } else {
        pending_after(pending_through(pending, reports.drop_last()), reports.last())
    }
}

/// No change is lost: from a reported change on, through any row of further reports of changes
/// and failures, the change stays remembered, so that the first quiet report acts on it.
pub proof fn law_changes_stay_remembered(pending: bool, reports: Seq<WatcherReport>)
    requires
        reports.len() > 0,
        reports[0] is Changed,
        forall|i: int| 0 <= i < reports.len() ==> (#[trigger] reports[i]) !is Quiet,
    ensures
        pending_through(pending, reports),
    decreases reports.len(),
{
    if reports.len() > 1 {
        law_changes_stay_remembered(pending, reports.drop_last());
    } else {
        assert(reports.last() == reports[0]);
    }
}

// ---------------------------------------------------------------------------
// Paths
// ---------------------------------------------------------------------------

/// Whether `c` separates the parts of a path.
pub open spec fn is_path_separator(c: char) -> bool {
    c == '\\' || c == '/'
}

/// The path without trailing separators.
pub open spec fn without_trailing_separators(s: Seq<char>) -> Seq<char>
    decreases s.len(),
{
    if s.len() > 0 && is_path_separator(s.last()) {
        without_trailing_separators(s.drop_last())
    } else {
        s
    }
}

/// The path without leading separators.
pub open spec fn without_leading_separators(s: Seq<char>) -> Seq<char>
    decreases s.len(),
{
    if s.len() > 0 && is_path_separator(s[0]) {
        without_leading_separators(s.skip(1))
    } else {
        s
    }
}

/// The path without the marker of verbatim paths.
pub open spec fn plain_path(path: Seq<char>) -> Seq<char> {
    let marker = "\\\\?\\"@;
    if text::occurs_at(path, marker, 0) {
        path.skip(marker.len() as int)
    } else {
        path
    }
}

/// The project's path as people see it: relative to the studio where it lies below it.
pub open spec fn project_path_of(root: Seq<char>, studio_root: Seq<char>) -> Seq<char> {
    let root = plain_path(root);
    let studio = without_trailing_separators(plain_path(studio_root));
    if text::occurs_at(root, studio, 0) {
        let relative = without_leading_separators(root.skip(studio.len() as int));
        if relative.len() > 0 {
            relative
        } else {
            root
        }
    } else {
        root
    }
}

fn strip_marker(path: &str) -> (out: String)
    ensures
        out@ == plain_path(path@),
{
    match text::strip_prefix(path, "\\\\?\\") {
        Some(rest) => rest,
        None => path.to_owned(),
    }
}

/// The project's path as people see it.
pub fn project_path(root: &str, studio_root: &str) -> (out: String)
    ensures
        out@ == project_path_of(root@, studio_root@),
{
    let root = strip_marker(root);
    let studio_plain = strip_marker(studio_root);
    let cs = text::chars_of(studio_plain.as_str());
    let mut end: usize = cs.len();
    proof {
        assert(studio_plain@.take(end as int) =~= studio_plain@);
    }
    while end > 0 && (cs[end - 1] == '\\' || cs[end - 1] == '/')
        invariant
            end <= cs.len(),
            cs@ == studio_plain@,
            without_trailing_separators(studio_plain@) == without_trailing_separators(
                studio_plain@.take(end as int),
            ),
        decreases end,
    {
        proof {
            assert(studio_plain@.take(end as int).drop_last() =~= studio_plain@.take(
                end as int - 1,
            ));
            assert(studio_plain@.take(end as int).last() == cs@[end as int - 1]);
        }
        end -= 1;
    }
    let studio = text::text_of(&cs, 0, end);
    proof {
        assert(studio@ =~= studio_plain@.take(end as int));
        if end > 0 {
            assert(studio@.last() == cs@[end as int - 1]);
        }
    }
    match text::strip_prefix(root.as_str(), studio.as_str()) {
        None => root,
        Some(rest) => {
            let rest_chars = text::chars_of(rest.as_str());
            let mut from: usize = 0;
            proof {
                assert(rest@.skip(0) =~= rest@);
            }
            while from < rest_chars.len() && (rest_chars[from] == '\\' || rest_chars[from] == '/')
                invariant
                    from <= rest_chars.len(),
                    rest_chars@ == rest@,
                    without_leading_separators(rest@) == without_leading_separators(
                        rest@.skip(from as int),
                    ),
                decreases rest_chars.len() - from,
            {
                proof {
                    assert(rest@.skip(from as int).skip(1) =~= rest@.skip(from as int + 1));
                }
                from += 1;
            }
            if from == rest_chars.len() {
                return root;
            }
            let relative = text::text_of(&rest_chars, from, rest_chars.len());
            proof {
                assert(relative@ =~= rest@.skip(from as int));
            }
            relative
        },
    }
}

// ---------------------------------------------------------------------------
// What the disk and the watchers bring
// ---------------------------------------------------------------------------

/// Changed files are previewed where everything live is saved, and are a conflict where it is
/// not; files that did not change since they were saved never disturb an unsaved preview.
pub proof fn law_changed_files_are_previewed_or_conflict(
    live: SourceView,
    saved: SourceView,
    disk: SourceView,
)
    ensures
        live == saved && disk != saved ==> external_edit_of(live, saved, disk) is Preview,
        live == saved && disk == saved ==> external_edit_of(live, saved, disk) is Adopt,
        live != saved && disk != saved ==> external_edit_of(live, saved, disk) is Conflict,
        live != saved && disk == saved ==> external_edit_of(live, saved, disk) is Ignore,
{
}

/// The last report but for failures decides: a change is remembered, a quiet report ends it, and
/// a failure leaves what was remembered.
pub proof fn law_last_report_decides(pending: bool, reports: Seq<WatcherReport>, error: String)
    ensures
        pending_through(pending, Seq::empty()) == pending,
        pending_through(pending, reports.push(WatcherReport::Changed)),
        !pending_through(pending, reports.push(WatcherReport::Quiet)),
        pending_through(pending, reports.push(WatcherReport::Failed(error))) == pending_through(
            pending,
            reports,
        ),
{
    assert(reports.push(WatcherReport::Changed).drop_last() =~= reports);
    assert(reports.push(WatcherReport::Quiet).drop_last() =~= reports);
    assert(reports.push(WatcherReport::Failed(error)).drop_last() =~= reports);
}

proof fn lemma_separators_go(s: Seq<char>, gap: Seq<char>)
    requires
        forall|i: int| 0 <= i < gap.len() ==> (#[trigger] gap[i] == '/' || gap[i] == '\\'),
    ensures
        without_trailing_separators(s + gap) == without_trailing_separators(s),
        without_leading_separators(gap + s) == without_leading_separators(s),
    decreases gap.len(),
{
    if gap.len() == 0 {
        assert(s + gap =~= s);
        assert(gap + s =~= s);
    } else {
        assert((s + gap).last() == gap[gap.len() - 1]);
        assert((s + gap).drop_last() =~= s + gap.drop_last());
        assert((gap + s)[0] == gap[0]);
        assert((gap + s).skip(1) =~= gap.skip(1) + s);
        lemma_trailing_go(s, gap.drop_last());
        lemma_leading_go(gap.skip(1), s);
    }
}

proof fn lemma_trailing_go(s: Seq<char>, gap: Seq<char>)
    requires
        forall|i: int| 0 <= i < gap.len() ==> (#[trigger] gap[i] == '/' || gap[i] == '\\'),
    ensures
        without_trailing_separators(s + gap) == without_trailing_separators(s),
    decreases gap.len(),
{
    if gap.len() == 0 {
        assert(s + gap =~= s);
    } else {
        assert((s + gap).last() == gap[gap.len() - 1]);
        assert((s + gap).drop_last() =~= s + gap.drop_last());
        lemma_trailing_go(s, gap.drop_last());
    }
}

proof fn lemma_leading_go(gap: Seq<char>, s: Seq<char>)
    requires
        forall|i: int| 0 <= i < gap.len() ==> (#[trigger] gap[i] == '/' || gap[i] == '\\'),
    ensures
        without_leading_separators(gap + s) == without_leading_separators(s),
    decreases gap.len(),
{
    if gap.len() == 0 {
        assert(gap + s =~= s);
    } else {
        assert((gap + s)[0] == gap[0]);
        assert((gap + s).skip(1) =~= gap.skip(1) + s);
        lemma_leading_go(gap.skip(1), s);
    }
}

/// A project below the studio is shown by its path from there, whatever separators stand between
/// or end the studio's path; the studio itself is shown whole.
pub proof fn law_projects_below_the_studio_are_relative(
    studio: Seq<char>,
    ending: Seq<char>,
    gap: Seq<char>,
    relative: Seq<char>,
)
    requires
        forall|i: int| 0 <= i < ending.len() ==> (#[trigger] ending[i] == '/' || ending[i] == '\\'),
        forall|i: int| 0 <= i < gap.len() ==> (#[trigger] gap[i] == '/' || gap[i] == '\\'),
        studio.len() > 0 && studio[0] != '\\' && studio.last() != '/' && studio.last() != '\\',
        relative.len() > 0 ==> relative[0] != '/' && relative[0] != '\\',
    ensures
        project_path_of(studio + gap + relative, studio + ending) == (if relative.len() > 0 {
            relative
        } else {
            studio + gap
        }),
        project_path_of("\\\\?\\"@ + (studio + gap + relative), studio + ending) == project_path_of(
            studio + gap + relative,
            studio + ending,
        ),
{
    let root = studio + gap + relative;
    let marker = "\\\\?\\"@;
    reveal_strlit("\\\\?\\");
    if text::occurs_at(root, marker, 0) {
        assert(root.subrange(0, marker.len() as int)[0] == '\\');
        assert(root[0] == studio[0]);
    }
    if text::occurs_at(studio + ending, marker, 0) {
        assert((studio + ending).subrange(0, marker.len() as int)[0] == '\\');
        assert((studio + ending)[0] == studio[0]);
    }
    lemma_separators_go(studio, ending);
    assert(without_trailing_separators(studio) == studio);
    assert(root.subrange(0, studio.len() as int) =~= studio);
    assert(root.skip(studio.len() as int) =~= gap + relative);
    lemma_separators_go(relative, gap);
    assert(studio + gap + Seq::<char>::empty() =~= studio + gap);
    if relative.len() == 0 {
        assert(root =~= studio + gap);
    }
    let marked = marker + root;
    assert(marked.subrange(0, marker.len() as int) =~= marker);
    assert(marked.skip(marker.len() as int) =~= root);
}

/// A project elsewhere is shown whole.
pub proof fn law_projects_elsewhere_are_whole(root: Seq<char>, studio: Seq<char>, i: int)
    requires
        0 <= i < studio.len(),
        i < root.len() ==> root[i] != studio[i],
        root.len() > 0 && root[0] != '\\',
        studio[0] != '\\',
        studio.last() != '/' && studio.last() != '\\',
    ensures
        project_path_of(root, studio) == root,
{
    let marker = "\\\\?\\"@;
    reveal_strlit("\\\\?\\");
    if text::occurs_at(root, marker, 0) {
        assert(root.subrange(0, marker.len() as int)[0] == '\\');
    }
    if text::occurs_at(studio, marker, 0) {
        assert(studio.subrange(0, marker.len() as int)[0] == '\\');
    }
    if text::occurs_at(root, studio, 0) {
        assert(root.subrange(0, studio.len() as int)[i] == studio[i]);
    }
}

/// A preview tells the revision that it was applied at, the first reason why it was rejected, or
/// the conflict; each behind its own words.
pub proof fn law_previews_are_told(
    revision: u64,
    messages: Vec<String>,
    message: String,
    applied: Seq<char>,
    rejected: Seq<char>,
    conflict: Seq<char>,
)
    ensures
        preview_message(PreviewOutcome::Applied(revision), applied, rejected, conflict) == applied
            + text::decimal_text(revision as nat),
        messages@.len() > 0 ==> preview_message(
            PreviewOutcome::Rejected(messages),
            applied,
            rejected,
            conflict,
        ) == rejected + messages@[0]@,
        messages@.len() == 0 ==> preview_message(
            PreviewOutcome::Rejected(messages),
            applied,
            rejected,
            conflict,
        ) == rejected + "unknown validation failure"@,
        preview_message(PreviewOutcome::Conflict(message), applied, rejected, conflict) == conflict
            + message@,
{
}

/// Only a failed watcher is told, with its name and its reason.
pub proof fn law_failures_are_told(told: Option<String>, report: WatcherReport, who: Seq<char>)
    requires
        failure_told(told, report.failure(), who),
    ensures
        told is Some <==> report is Failed,
        report matches WatcherReport::Failed(error) ==> told->0@ == who + " watcher: "@ + error@,
{
}

/// A look at the disk is told where it could not be taken; one that could be taken does what the
/// three sources ask for, and only a conflict is told.
pub proof fn law_looks_at_the_disk(plan: ExternalPlan, read: ExternalRead)
    requires
        external_planned(plan, read),
    ensures
        read is NoSession ==> plan.edit is Ignore && plan.changed && plan.status is Some
            && plan.status->0@ == "No active project session"@,
        read matches ExternalRead::Unreadable(error) ==> plan.edit is Ignore && plan.changed
            && plan.status is Some && plan.status->0@ == "Read external edit: "@ + error@,
        read matches ExternalRead::Read { live, saved, disk } ==> {
            &&& plan.edit is Adopt <==> live@ == saved@ && disk@ == saved@
            &&& plan.edit is Preview <==> live@ == saved@ && disk@ != saved@
            &&& plan.edit is Conflict <==> live@ != saved@ && disk@ != saved@
            &&& plan.edit is Ignore <==> live@ != saved@ && disk@ == saved@
            &&& plan.status is Some <==> plan.edit is Conflict
            &&& plan.edit is Conflict ==> plan.status->0@
                == "External edit conflicts with an unsaved preview; save, undo, or merge first"@
            &&& plan.changed <==> disk@ != saved@
        },
{
}

} // verus!
