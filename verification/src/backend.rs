use vstd::prelude::*;

use crate::config::AppConfig;

verus! {

/// What changed in a file's data.
#[derive(Debug, Clone, Copy, PartialEq, Eq, Structural)]
pub enum DataChange {
    Any,
    Size,
    Content,
    Other,
}

/// How a file was modified.
#[derive(Debug, Clone, Copy, PartialEq, Eq, Structural)]
pub enum ModifyKind {
    Any,
    Data(DataChange),
    Metadata,
    Name,
    Other,
}

/// The kind of a file-system event on the configuration file.
#[derive(Debug, Clone, Copy, PartialEq, Eq, Structural)]
pub enum FileEventKind {
    Any,
    Access,
    Create,
    Modify(ModifyKind),
    Remove,
    Other,
}

/// The event reports new content of the file.
pub open spec fn spec_is_updated_file(kind: FileEventKind) -> bool {
    kind matches FileEventKind::Modify(ModifyKind::Data(DataChange::Content))
}

/// Whether a file event means that the configuration file has new content.
pub fn is_updated_file(kind: &FileEventKind) -> (r: bool)
    ensures
        r == spec_is_updated_file(*kind),
{
    match kind {
        FileEventKind::Modify(ModifyKind::Data(DataChange::Content)) => true,
        _ => false,
    }
}

/// What the background loop hears of.
#[derive(Debug)]
pub enum LoopEvent {
    /// The watcher reported an event on the configuration file.
    FileChanged(FileEventKind),
    /// The configuration file was read again: its settings, or why they could
    /// not be read.
    ConfigLoaded(Result<AppConfig, String>),
    /// The delay until the next scheduled check ran out.
    TimerFired,
}

/// What the background loop has to do next.
#[derive(Debug, Clone, Copy, PartialEq, Eq, Structural)]
pub enum LoopAction {
    /// Nothing.
    Idle,
    /// Read the configuration file again and report the outcome.
    LoadConfig,
    /// Announce that new settings were loaded, then check for unread mail.
    AnnounceConfigAndCheckMail,
    /// Check for unread mail.
    CheckMail,
}

/// The configuration after an event.
pub open spec fn next_config(cfg: AppConfig, event: LoopEvent) -> AppConfig {
    match event {
        LoopEvent::ConfigLoaded(Ok(c)) => if c.spec_is_valid() {
            c
        } else {
            cfg
        },
        _ => cfg,
    }
}

/// The action an event calls for, under configuration `cfg`.
pub open spec fn next_action(cfg: AppConfig, event: LoopEvent) -> LoopAction {
    match event {
        LoopEvent::FileChanged(kind) => if spec_is_updated_file(kind) {
            LoopAction::LoadConfig
        } else {
            LoopAction::Idle
        },
        LoopEvent::ConfigLoaded(Ok(c)) => if c.spec_is_valid() {
            LoopAction::AnnounceConfigAndCheckMail
        } else {
            LoopAction::Idle
        },
        LoopEvent::ConfigLoaded(Err(_)) => LoopAction::Idle,
        LoopEvent::TimerFired => if cfg.spec_is_valid() {
            LoopAction::CheckMail
        } else {
            LoopAction::Idle
        },
    }
}

/// The state of the background loop: the configuration in force.
#[derive(Debug)]
pub struct Backend {
    pub cfg: AppConfig,
}

impl Backend {
    /// The loop's first state, from the first attempt to read the
    /// configuration file (the template's defaults where it failed), and its
    /// first action: the loop checks for mail once at start-up, whatever the
    /// configuration.
    pub fn start(loaded: Result<AppConfig, String>) -> (r: (Backend, LoopAction))
        ensures
            loaded matches Ok(c) ==> r.0.cfg == c,
            loaded is Err ==> r.0.cfg.username@ == crate::config::defaults::USERNAME@
                && r.0.cfg.password@ == crate::config::defaults::PASSWORD@
                && r.0.cfg.cron_expr@ == crate::config::defaults::DEFAULT_CRON@
                && r.0.cfg.proxy_addr is None,
            r.1 == LoopAction::CheckMail,
    {
        let cfg = match loaded {
            Ok(c) => c,
            Err(_) => AppConfig::default(),
        };
        (Backend { cfg }, LoopAction::CheckMail)
    }

    /// Handles one event: a content change of the file asks for a reload; a
    /// reload replaces the configuration only where the new one is valid; the
    /// timer asks for a mail check only under a valid configuration.
    pub fn step(&mut self, event: LoopEvent) -> (action: LoopAction)
        ensures
            final(self).cfg == next_config(old(self).cfg, event),
            action == next_action(old(self).cfg, event),
    {
        match event {
            LoopEvent::FileChanged(kind) => {
                if is_updated_file(&kind) {
                    LoopAction::LoadConfig
                } else {
                    LoopAction::Idle
                }
            },
            LoopEvent::ConfigLoaded(Ok(c)) => {
                if c.is_valid() {
                    self.cfg = c;
                    LoopAction::AnnounceConfigAndCheckMail
                } else {
                    LoopAction::Idle
                }
            },
            LoopEvent::ConfigLoaded(Err(_)) => LoopAction::Idle,
            LoopEvent::TimerFired => {
                if self.cfg.is_valid() {
                    LoopAction::CheckMail
                } else {
                    LoopAction::Idle
                }
            },
        }
    }
}

/// Once the loop runs under a valid configuration, no event takes it back to
/// an invalid one.
pub proof fn step_keeps_valid_config(cfg: AppConfig, event: LoopEvent)
    requires
        cfg.spec_is_valid(),
    ensures
        next_config(cfg, event).spec_is_valid(),
{
}

/// The loop checks for mail after an event only under a valid configuration.
pub proof fn mail_checked_only_with_valid_config(cfg: AppConfig, event: LoopEvent)
    requires
        next_action(cfg, event) == LoopAction::CheckMail || next_action(cfg, event)
            == LoopAction::AnnounceConfigAndCheckMail,
    ensures
        next_config(cfg, event).spec_is_valid(),
{
}

/// A reload that failed, or that gave an invalid configuration, changes
/// nothing and asks for nothing.
pub proof fn rejected_reload_changes_nothing(cfg: AppConfig, loaded: Result<AppConfig, String>)
    requires
        !(loaded matches Ok(c) && c.spec_is_valid()),
    ensures
        next_config(cfg, LoopEvent::ConfigLoaded(loaded)) == cfg,
        next_action(cfg, LoopEvent::ConfigLoaded(loaded)) == LoopAction::Idle,
{
}

/// Only a reload changes the configuration: file events and the timer leave
/// it as it is.
pub proof fn only_reload_changes_config(cfg: AppConfig, event: LoopEvent)
    requires
        !(event is ConfigLoaded),
    ensures
        next_config(cfg, event) == cfg,
{
}

/// A reload with a valid configuration puts exactly that configuration in
/// force and announces it.
pub proof fn valid_reload_is_applied(cfg: AppConfig, loaded: AppConfig)
    requires
        loaded.spec_is_valid(),
    ensures
        next_config(cfg, LoopEvent::ConfigLoaded(Ok(loaded))) == loaded,
        next_action(cfg, LoopEvent::ConfigLoaded(Ok(loaded)))
            == LoopAction::AnnounceConfigAndCheckMail,
{
}

/// New content in the configuration file always asks for a reload, whatever
/// configuration is in force (also the template's, so that the user can leave
/// it), and changes nothing before the reload.
pub proof fn content_change_always_reloads(cfg: AppConfig)
    ensures
        next_action(
            cfg,
            LoopEvent::FileChanged(FileEventKind::Modify(ModifyKind::Data(DataChange::Content))),
        ) == LoopAction::LoadConfig,
        next_config(
            cfg,
            LoopEvent::FileChanged(FileEventKind::Modify(ModifyKind::Data(DataChange::Content))),
        ) == cfg,
{
}

/// Any other file event asks for nothing.
pub proof fn other_file_events_are_ignored(cfg: AppConfig, kind: FileEventKind)
    requires
        kind != FileEventKind::Modify(ModifyKind::Data(DataChange::Content)),
    ensures
        next_action(cfg, LoopEvent::FileChanged(kind)) == LoopAction::Idle,
{
}

/// The timer asks for a mail check exactly when the configuration in force
/// holds usable credentials.
pub proof fn timer_checks_mail_iff_usable(cfg: AppConfig)
    ensures
        (next_action(cfg, LoopEvent::TimerFired) == LoopAction::CheckMail) <==> (
        cfg.username@.len() > 0 && cfg.password@.len() > 0 && cfg.username@
            != crate::config::defaults::USERNAME@ && cfg.password@
            != crate::config::defaults::PASSWORD@),
        next_action(cfg, LoopEvent::TimerFired) != LoopAction::CheckMail ==> next_action(
            cfg,
            LoopEvent::TimerFired,
        ) == LoopAction::Idle,
{
}

} // verus!
