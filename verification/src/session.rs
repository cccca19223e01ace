//! The setup session as a pure pipeline: from the collected answers and the
//! current state of the two files to what gets written and whether a health
//! probe follows.
//!
//! The surrounding binary only executes a [`SetupPlan`]: it writes exactly
//! the contents the plan holds and probes exactly the URL the plan names.
//! A session with both services declined plans nothing — no file is touched
//! and no request goes out.

use vstd::prelude::*;
use crate::answers::SetupAnswers;
use crate::envfile::env_after;
use crate::envfile::env_block;
use crate::envfile::merge_env;
use crate::envfile::render_env_block;
use crate::health::health_url;
use crate::health::health_url_of;
use crate::settings::render_settings;
use crate::settings::settings_doc;
use crate::settings::settings_written;
use crate::settings::spec_settings_written;

verus! {

/// The two persisted files, each `None` while it does not exist.
pub struct FsState {
    pub settings: Option<String>,
    pub env: Option<String>,
}

/// Mathematical view of [`FsState`]: each file's content as a character
/// sequence, when present.
pub struct FsView {
    pub settings: Option<Seq<char>>,
    pub env: Option<Seq<char>>,
}

impl View for FsState {
    type V = FsView;

    open spec fn view(&self) -> FsView {
        FsView {
            settings: (match self.settings {
                Some(s) => Some(s@),
                None => None,
            }),
            env: (match self.env {
                Some(e) => Some(e@),
                None => None,
            }),
        }
    }
}

/// What one setup session does after the answers are in: the settings
/// content to write (when the write is due), the block to add to the
/// environment file, and the URL to probe (when storage is enabled).
pub struct SetupPlan {
    pub proceed: bool,
    pub settings_write: Option<String>,
    pub env_append: Option<String>,
    pub probe_url: Option<String>,
}

/// Plans one setup session.  A session with both services declined plans no
/// write and no probe; otherwise the settings document is written unless an
/// existing copy was left unconfirmed, the assignment block is always
/// appended, and the probe happens exactly when storage is enabled.
pub fn plan_setup(answers: &SetupAnswers, settings_exists: bool, overwrite_ok: bool) -> (p:
    SetupPlan)
    ensures
        p.proceed == answers.proceeds(),
        !answers.proceeds() ==> p.settings_write is None && p.env_append is None && p.probe_url
            is None,
        answers.proceeds() ==> (p.settings_write is Some) == spec_settings_written(
            settings_exists,
            overwrite_ok,
        ),
        (match p.settings_write {
            Some(c) => c@ == settings_doc(answers.storage_enabled, answers.state_enabled),
            None => true,
        }),
        answers.proceeds() ==> p.env_append is Some,
        (match p.env_append {
            Some(b) => b@ == env_block(answers.env_view()),
            None => true,
        }),
        (p.probe_url is Some) == (answers.proceeds() && answers.storage_enabled),
        (match p.probe_url {
            Some(u) => u@ == health_url_of(answers.storage.url@, answers.storage.http_port@),
            None => true,
        }),
{
    if !answers.proceed() {
        return SetupPlan { proceed: false, settings_write: None, env_append: None, probe_url: None };
    }
    let settings_write = if settings_written(settings_exists, overwrite_ok) {
        Some(render_settings(answers.storage_enabled, answers.state_enabled))
    } else {
        None
    };
    let values = answers.to_env_values();
    let env_append = Some(render_env_block(&values));
    let probe_url = if answers.storage_enabled {
        Some(health_url(answers.storage.url.as_str(), answers.storage.http_port.as_str()))
    } else {
        None
    };
    SetupPlan { proceed: true, settings_write, env_append, probe_url }
}

/// The settings file's content after a session: created when absent,
/// replaced only with confirmation, kept byte for byte otherwise.
pub open spec fn settings_after(prev: Option<Seq<char>>, doc: Seq<char>, overwrite_ok: bool) -> Option<
    Seq<char>,
> {
    match prev {
        None => Some(doc),
        Some(p) => if overwrite_ok {
            Some(doc)
        } else {
            Some(p)
        },
    }
}

/// Both files after a session: unchanged when the session was declined;
/// otherwise the settings follow the overwrite policy and the environment
/// file gains the assignment block at its end.
pub open spec fn setup_fs_after(fs: FsView, answers: SetupAnswers, overwrite_ok: bool) -> FsView {
    if !answers.proceeds() {
        fs
    } else {
        FsView {
            settings: settings_after(
                fs.settings,
                settings_doc(answers.storage_enabled, answers.state_enabled),
                overwrite_ok,
            ),
            env: Some(env_after(fs.env, answers.env_view())),
        }
    }
}

/// Runs the file part of one session against in-memory file contents.
pub fn run_setup_files(fs: &FsState, answers: &SetupAnswers, overwrite_ok: bool) -> (r: FsState)
    ensures
        r@ == setup_fs_after(fs@, *answers, overwrite_ok),
{
    if !answers.proceed() {
        let settings = match &fs.settings {
            Some(s) => Some(s.clone()),
            None => None,
        };
        let env = match &fs.env {
            Some(e) => Some(e.clone()),
            None => None,
        };
        return FsState { settings, env };
    }
    let settings = match &fs.settings {
        None => Some(render_settings(answers.storage_enabled, answers.state_enabled)),
        Some(p) => if overwrite_ok {
            Some(render_settings(answers.storage_enabled, answers.state_enabled))
        } else {
            Some(p.clone())
        },
    };
    let values = answers.to_env_values();
    let env = Some(merge_env(fs.env.as_ref(), &values));
    FsState { settings, env }
}

/// A session with both services declined touches nothing: the files come
/// out exactly as they went in (and, by the plan, no probe is made).
pub proof fn lemma_declined_session_changes_nothing(
    fs: FsView,
    answers: SetupAnswers,
    overwrite_ok: bool,
)
    requires
        !answers.storage_enabled,
        !answers.state_enabled,
    ensures
        setup_fs_after(fs, answers, overwrite_ok) == fs,
{
}

/// A refused overwrite preserves the settings file: when a copy exists and
/// the confirmation was declined, its prior bytes are unchanged, whatever
/// the answers were.
pub proof fn lemma_refused_overwrite_keeps_settings(fs: FsView, answers: SetupAnswers)
    requires
        fs.settings is Some,
    ensures
        setup_fs_after(fs, answers, false).settings == fs.settings,
{
}

/// Two consecutive sessions are strictly additive on the environment file:
/// the original content stays as an unchanged prefix, followed by the first
/// session's block and then the second's, in that order.
pub proof fn lemma_rerun_appends_env(
    fs: FsView,
    prev: Seq<char>,
    a1: SetupAnswers,
    a2: SetupAnswers,
    ow1: bool,
    ow2: bool,
)
    requires
        a1.proceeds(),
        a2.proceeds(),
        fs.env == Some(prev),
    ensures
        setup_fs_after(setup_fs_after(fs, a1, ow1), a2, ow2).env == Some(
            prev + env_block(a1.env_view()) + env_block(a2.env_view()),
        ),
{
}

} // verus!
