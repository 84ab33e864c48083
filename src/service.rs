use vstd::prelude::*;
use crate::dispatch::DispatchTask;
use crate::session::Session;
use crate::stopwatch::{hms_text, Stopwatch, StopwatchState};

verus! {

/// The name recorded when no active application can be found.
pub open spec fn fallback_app_name() -> Seq<char> {
    seq!['m', 'y', 't', 't']
}

/// The application name to record for what the probe found.
pub open spec fn app_name_or_fallback(probed: Option<String>) -> Seq<char> {
    match probed {
        Some(name) => name@,
        None => fallback_app_name(),
    }
}

fn app_name_from(probed: Option<String>) -> (r: String)
    ensures
        r@ == app_name_or_fallback(probed),
{
    match probed {
        Some(name) => name,
        None => {
            proof { reveal_strlit("mytt"); }
            String::from_str("mytt")
        },
    }
}

/// `r` is the hook run for a lifecycle event: none where no hook script was
/// found, else a run of `hook` with the elapsed time `elapsed` as `HH:MM:SS`
/// and the active application's name.
pub open spec fn is_task_for(
    r: Option<DispatchTask>,
    hook: Option<String>,
    app_name: Seq<char>,
    elapsed: u128,
) -> bool {
    match hook {
        None => r is None,
        Some(script) => r matches Some(t) && t.script == script && t.time@ == hms_text(elapsed)
            && t.app_name@ == app_name,
    }
}

/// The timer's state: its stopwatch, its work/break cycle, and the name of the
/// application that was active when the timer's window last lost the focus.
///
/// Each lifecycle event updates the state and returns the hook run to queue, if
/// a hook script was found for it. The run carries the elapsed time read when
/// the event fired, before the state changed.
pub struct AppState {
    pub app_name: String,
    pub session: Session,
    pub stopwatch: Stopwatch,
}

impl AppState {
    /// A stopped timer at the start of a fresh cycle, recording `active_app`,
    /// or `"mytt"` where none was found.
    pub fn new(active_app: Option<String>) -> (s: AppState)
        ensures
            s.app_name@ == app_name_or_fallback(active_app),
            s.session.is_fresh(),
            s.session.wf(),
            s.stopwatch@ == StopwatchState::cleared(),
    {
        AppState { app_name: app_name_from(active_app), session: Session::new(), stopwatch: Stopwatch::new() }
    }

    /// Records the application that became active when the window lost the
    /// focus, or `"mytt"` where none was found.
    pub fn on_blur(&mut self, active_app: Option<String>)
        ensures
            final(self).app_name@ == app_name_or_fallback(active_app),
            final(self).session == old(self).session,
            final(self).stopwatch@ == old(self).stopwatch@,
    {
        self.app_name = app_name_from(active_app);
    }

    /// The hook run for an event at clock reading `now`.
    pub fn task_for(&self, now: u128, hook: Option<String>) -> (r: Option<DispatchTask>)
        ensures
            is_task_for(r, hook, self.app_name@, self.stopwatch@.elapsed_at(now)),
    {
        match hook {
            Some(script) => Some(
                DispatchTask {
                    script,
                    time: self.stopwatch.format_time_at(now),
                    app_name: self.app_name.clone(),
                },
            ),
            None => None,
        }
    }

    /// Start at clock reading `now`: the stopwatch starts and the cycle moves on.
    pub fn on_start_at(&mut self, now: u128, hook: Option<String>) -> (r: Option<DispatchTask>)
        requires
            old(self).session.wf(),
            old(self).session.can_advance(),
        ensures
            is_task_for(r, hook, old(self).app_name@, old(self).stopwatch@.elapsed_at(now)),
            final(self).stopwatch@ == old(self).stopwatch@.started(now),
            final(self).session == old(self).session.advanced(),
            final(self).app_name == old(self).app_name,
    {
        let task = self.task_for(now, hook);
        self.stopwatch.start_at(now);
        self.session.start_session();
        task
    }

    /// Stop at clock reading `now`: the stopwatch stops, discarding its time,
    /// and the cycle moves on.
    pub fn on_stop_at(&mut self, now: u128, hook: Option<String>) -> (r: Option<DispatchTask>)
        requires
            old(self).session.wf(),
            old(self).session.can_advance(),
        ensures
            is_task_for(r, hook, old(self).app_name@, old(self).stopwatch@.elapsed_at(now)),
            final(self).stopwatch@ == StopwatchState::cleared(),
            final(self).session == old(self).session.advanced(),
            final(self).app_name == old(self).app_name,
    {
        let task = self.task_for(now, hook);
        self.stopwatch.stop();
        self.session.start_session();
        task
    }

    /// Pause at clock reading `now`.
    pub fn on_pause_at(&mut self, now: u128, hook: Option<String>) -> (r: Option<DispatchTask>)
        ensures
            is_task_for(r, hook, old(self).app_name@, old(self).stopwatch@.elapsed_at(now)),
            final(self).stopwatch@ == old(self).stopwatch@.paused(now),
            final(self).session == old(self).session,
            final(self).app_name == old(self).app_name,
    {
        let task = self.task_for(now, hook);
        self.stopwatch.pause_at(now);
        task
    }

    /// Resume at clock reading `now`.
    pub fn on_resume_at(&mut self, now: u128, hook: Option<String>) -> (r: Option<DispatchTask>)
        ensures
            is_task_for(r, hook, old(self).app_name@, old(self).stopwatch@.elapsed_at(now)),
            final(self).stopwatch@ == old(self).stopwatch@.started(now),
            final(self).session == old(self).session,
            final(self).app_name == old(self).app_name,
    {
        let task = self.task_for(now, hook);
        self.stopwatch.resume_at(now);
        task
    }

    /// Skip the current period at clock reading `now`; the stopwatch is left
    /// alone.
    pub fn on_skip_break_at(&mut self, now: u128, hook: Option<String>) -> (r: Option<DispatchTask>)
        ensures
            is_task_for(r, hook, old(self).app_name@, old(self).stopwatch@.elapsed_at(now)),
            final(self).stopwatch@ == old(self).stopwatch@,
            final(self).session == old(self).session.skipped(),
            final(self).app_name == old(self).app_name,
    {
        let task = self.task_for(now, hook);
        self.session.skip_break();
        task
    }

    /// Start now.
    pub fn on_start(&mut self, hook: Option<String>) -> (r: Option<DispatchTask>)
        requires
            old(self).session.wf(),
            old(self).session.can_advance(),
        ensures
            exists|now: u128|
                #![trigger old(self).stopwatch@.started(now)]
                final(self).stopwatch@ == old(self).stopwatch@.started(now) && is_task_for(
                    r,
                    hook,
                    old(self).app_name@,
                    old(self).stopwatch@.elapsed_at(now),
                ),
            final(self).session == old(self).session.advanced(),
            final(self).app_name == old(self).app_name,
    {
        let now = self.stopwatch.now();
        self.on_start_at(now, hook)
    }

    /// Stop now.
    pub fn on_stop(&mut self, hook: Option<String>) -> (r: Option<DispatchTask>)
        requires
            old(self).session.wf(),
            old(self).session.can_advance(),
        ensures
            exists|now: u128|
                is_task_for(
                    r,
                    hook,
                    old(self).app_name@,
                    #[trigger] old(self).stopwatch@.elapsed_at(now),
                ),
            final(self).stopwatch@ == StopwatchState::cleared(),
            final(self).session == old(self).session.advanced(),
            final(self).app_name == old(self).app_name,
    {
        let now = self.stopwatch.now();
        self.on_stop_at(now, hook)
    }

    /// Pause now.
    pub fn on_pause(&mut self, hook: Option<String>) -> (r: Option<DispatchTask>)
        ensures
            exists|now: u128|
                #![trigger old(self).stopwatch@.paused(now)]
                final(self).stopwatch@ == old(self).stopwatch@.paused(now) && is_task_for(
                    r,
                    hook,
                    old(self).app_name@,
                    old(self).stopwatch@.elapsed_at(now),
                ),
            final(self).session == old(self).session,
            final(self).app_name == old(self).app_name,
    {
        let now = self.stopwatch.now();
        self.on_pause_at(now, hook)
    }

    /// Resume now.
    pub fn on_resume(&mut self, hook: Option<String>) -> (r: Option<DispatchTask>)
        ensures
            exists|now: u128|
                #![trigger old(self).stopwatch@.started(now)]
                final(self).stopwatch@ == old(self).stopwatch@.started(now) && is_task_for(
                    r,
                    hook,
                    old(self).app_name@,
                    old(self).stopwatch@.elapsed_at(now),
                ),
            final(self).session == old(self).session,
            final(self).app_name == old(self).app_name,
    {
        let now = self.stopwatch.now();
        self.on_resume_at(now, hook)
    }

    /// Skip the current period now.
    pub fn on_skip_break(&mut self, hook: Option<String>) -> (r: Option<DispatchTask>)
        ensures
            exists|now: u128|
                is_task_for(
                    r,
                    hook,
                    old(self).app_name@,
                    #[trigger] old(self).stopwatch@.elapsed_at(now),
                ),
            final(self).stopwatch@ == old(self).stopwatch@,
            final(self).session == old(self).session.skipped(),
            final(self).app_name == old(self).app_name,
    {
        let now = self.stopwatch.now();
        self.on_skip_break_at(now, hook)
    }

    /// The elapsed time now, as `HH:MM:SS`.
    pub fn get_time(&self) -> (r: String)
        ensures
            exists|now: u128| r@ == hms_text(#[trigger] self.stopwatch@.elapsed_at(now)),
    {
        self.stopwatch.format_time()
    }
}

/// The message shown when the hook script `script_name` is not at `script_path`.
pub open spec fn missing_script_message(script_name: Seq<char>, script_path: Seq<char>) -> Seq<char> {
    seq!['E', 'r', 'r', 'o', 'r', ':', ' '] + script_name + seq![
        ' ',
        's',
        'c',
        'r',
        'i',
        'p',
        't',
        ' ',
        'n',
        'o',
        't',
        ' ',
        'f',
        'o',
        'u',
        'n',
        'd',
        ' ',
        'a',
        't',
        ' ',
    ] + script_path
}

/// Decides on the hook script `script_name`, looked up at `script_path`: the
/// path where the script was found there, else the message to show the user.
pub fn get_script(script_name: &str, script_path: &str, found: bool) -> (r: Result<String, String>)
    ensures
        found ==> (r matches Ok(p) && p@ == script_path@),
        !found ==> (r matches Err(m) && m@ == missing_script_message(script_name@, script_path@)),
{
    if found {
        Ok(String::from_str(script_path))
    } else {
        let mut m = String::from_str("Error: ");
        m.append(script_name);
        m.append(" script not found at ");
        m.append(script_path);
        proof {
            reveal_strlit("Error: ");
            reveal_strlit(" script not found at ");
        }
        assert(m@ =~= missing_script_message(script_name@, script_path@));
        Err(m)
    }
}

} // verus!
