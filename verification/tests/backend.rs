use hedwig::backend::{
    is_updated_file, Backend, DataChange, FileEventKind, LoopAction, LoopEvent, ModifyKind,
};
use hedwig::config::{default_cron, AppConfig};

fn valid_config(user: &str) -> AppConfig {
    AppConfig {
        username: user.to_string(),
        password: "secret".to_string(),
        proxy_addr: None,
        cron_expr: default_cron(),
    }
}

const CONTENT: FileEventKind = FileEventKind::Modify(ModifyKind::Data(DataChange::Content));

#[test]
fn only_content_changes_count_as_updates() {
    assert!(is_updated_file(&CONTENT));
    assert!(!is_updated_file(&FileEventKind::Modify(ModifyKind::Data(DataChange::Size))));
    assert!(!is_updated_file(&FileEventKind::Modify(ModifyKind::Metadata)));
    assert!(!is_updated_file(&FileEventKind::Create));
    assert!(!is_updated_file(&FileEventKind::Any));
}

#[test]
fn start_checks_mail_even_with_defaults() {
    let (backend, action) = Backend::start(Err("config file not exist".to_string()));
    assert_eq!(action, LoopAction::CheckMail);
    assert_eq!(backend.cfg.username, "YOUR_GMAIL@gmail.com");
    let (backend, action) = Backend::start(Ok(valid_config("a@gmail.com")));
    assert_eq!(action, LoopAction::CheckMail);
    assert_eq!(backend.cfg.username, "a@gmail.com");
}

#[test]
fn file_events() {
    let (mut backend, _) = Backend::start(Ok(valid_config("a@gmail.com")));
    assert_eq!(backend.step(LoopEvent::FileChanged(CONTENT)), LoopAction::LoadConfig);
    assert_eq!(backend.step(LoopEvent::FileChanged(FileEventKind::Remove)), LoopAction::Idle);
    assert_eq!(backend.cfg.username, "a@gmail.com");
}

#[test]
fn valid_reload_is_applied() {
    let (mut backend, _) = Backend::start(Ok(valid_config("a@gmail.com")));
    let action = backend.step(LoopEvent::ConfigLoaded(Ok(valid_config("b@gmail.com"))));
    assert_eq!(action, LoopAction::AnnounceConfigAndCheckMail);
    assert_eq!(backend.cfg.username, "b@gmail.com");
}

#[test]
fn invalid_or_failed_reload_is_ignored() {
    let (mut backend, _) = Backend::start(Ok(valid_config("a@gmail.com")));
    assert_eq!(backend.step(LoopEvent::ConfigLoaded(Ok(AppConfig::default()))), LoopAction::Idle);
    assert_eq!(backend.step(LoopEvent::ConfigLoaded(Err("bad toml".to_string()))), LoopAction::Idle);
    assert_eq!(backend.cfg.username, "a@gmail.com");
}

#[test]
fn timer_checks_mail_only_when_valid() {
    let (mut backend, _) = Backend::start(Err("missing".to_string()));
    assert_eq!(backend.step(LoopEvent::TimerFired), LoopAction::Idle);
    backend.step(LoopEvent::ConfigLoaded(Ok(valid_config("a@gmail.com"))));
    assert_eq!(backend.step(LoopEvent::TimerFired), LoopAction::CheckMail);
}
