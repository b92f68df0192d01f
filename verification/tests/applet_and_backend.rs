use time_tracker::applet::{AppletModel, Message, Page, PopupTask, Sends, Stopwatch};
use time_tracker::backend::{
    parse_message, reply_for, BackendCall, BackendMessage, CallOutcome, ReplyContent, StartEntryData,
};
use time_tracker::locale::{get_system_locale, language_text, locale_candidate_text};
use time_tracker::models::{ApiId, Integration, Scope, TimeEntry, Timestamp};

fn at(secs: i64, nanos: u32) -> Timestamp {
    Timestamp::new(secs, nanos).unwrap()
}

fn entry(id: i64) -> TimeEntry {
    TimeEntry {
        id: ApiId::Int(id),
        scope_id: Some(ApiId::Int(1)),
        project_id: None,
        billable: false,
        description: None,
        start_time: at(1_000, 0),
        stop_time: None,
    }
}

#[test]
fn stopwatch_counts_while_running() {
    let mut w = Stopwatch::new(at(100, 0));
    assert!(w.is_running());
    assert_eq!(w.display(), "00:00");
    w.tick(at(101, 500_000_000), at(101, 500_000_000));
    assert_eq!(w.whole_seconds(), 1);
    w.tick(at(166, 0), at(166, 0));
    assert_eq!(w.whole_seconds(), 66);
    assert_eq!(w.display(), "01:06");
}

#[test]
fn stopped_stopwatch_ignores_ticks() {
    let mut w = Stopwatch::new(at(100, 0));
    w.toggle(at(100, 0));
    assert!(!w.is_running());
    w.tick(at(500, 0), at(500, 0));
    assert_eq!(w.whole_seconds(), 0);
}

#[test]
fn pause_and_resume_keep_the_count() {
    let mut w = Stopwatch::new(at(0, 0));
    w.tick(at(10, 0), at(10, 0));
    w.toggle(at(10, 0));
    w.tick(at(1_000, 0), at(1_000, 0));
    w.toggle(at(2_000, 0));
    assert!(w.is_running());
    assert_eq!(w.whole_seconds(), 10);
    w.tick(at(2_005, 0), at(2_005, 0));
    assert_eq!(w.whole_seconds(), 15);
}

#[test]
fn clock_going_back_adds_nothing() {
    let mut w = Stopwatch::new(at(100, 0));
    w.tick(at(90, 0), at(90, 0));
    assert_eq!(w.whole_seconds(), 0);
    w.tick(at(95, 0), at(95, 0));
    assert_eq!(w.whole_seconds(), 5);
}

#[test]
fn reset_forgets_the_count() {
    let mut w = Stopwatch::new(at(0, 0));
    w.tick(at(3_725, 0), at(3_725, 0));
    assert_eq!(w.display(), "1:02:05");
    w.reset(at(4_000, 0));
    assert_eq!(w.whole_seconds(), 0);
    assert!(w.is_running());
    w.toggle(at(4_000, 0));
    w.reset(at(5_000, 0));
    w.tick(at(6_000, 0), at(6_000, 0));
    assert_eq!(w.whole_seconds(), 0);
}

#[test]
fn applet_starts_on_the_timer_page() {
    let a = AppletModel::init(at(0, 0), "en-US".to_string());
    assert!(a.stopwatch.is_running());
    assert_eq!(a.popup, None);
    assert_eq!(a.popup_page, Page::Timer);
    assert_eq!(a.current_task, "");
    assert_eq!(a.current_tag, None);
    assert_eq!(a.tag_selections, vec!["Systemudvikling", "Programmering", "Teknologi"]);
    assert_eq!(a.toggle_icon_name(), "media-playback-stop-symbolic");
}

#[test]
fn applet_messages() {
    let mut a = AppletModel::init(at(0, 0), "en-US".to_string());
    assert_eq!(a.update(Message::TogglePopup { new_id: 9 }), PopupTask::Open(9));
    assert_eq!(a.update(Message::CloseRequested(3)), PopupTask::Nothing);
    assert_eq!(a.popup, Some(9));
    assert_eq!(a.update(Message::TogglePopup { new_id: 10 }), PopupTask::Close(9));
    assert_eq!(a.popup, None);
    a.update(Message::TaskTextChanged("Review".to_string()));
    assert_eq!(a.current_task, "Review");
    a.update(Message::TagChanged(2));
    assert_eq!(a.current_tag, Some(2));
    a.update(Message::TabChanged(Page::Log));
    assert_eq!(a.popup_page, Page::Log);
    a.update(Message::Tick { measured: at(30, 0), restarted: at(30, 0) });
    assert_eq!(a.stopwatch.whole_seconds(), 30);
    a.update(Message::ToggleTimer { now: at(30, 0) });
    assert_eq!(a.toggle_icon_name(), "media-playback-start-symbolic");
    a.update(Message::ResetTimer { now: at(40, 0) });
    assert_eq!(a.stopwatch.whole_seconds(), 0);
}

#[test]
fn backend_names() {
    assert_eq!(BackendMessage::GetCurrentEntry.as_name(), "get_current_time_entry");
    assert_eq!(BackendMessage::StopEntry(entry(1)).as_name(), "stop_current_time_entry");
    let start = StartEntryData { scope_id: "3".to_string(), project_id: None, description: None };
    assert_eq!(BackendMessage::StartEntry(start).as_name(), "start_time_entry");
    assert_eq!(BackendMessage::GetAllIntegrations.as_name(), "get_all_integrations");
    assert_eq!(BackendMessage::GetAllScopes.as_name(), "get_all_scopes");
    assert_eq!(BackendMessage::GetAllProjects.as_name(), "get_all_projects");
}

#[test]
fn backend_calls() {
    let now = at(1_700_000_000, 0);
    assert!(matches!(parse_message(&BackendMessage::GetCurrentEntry, now), BackendCall::FetchCurrentEntry));
    assert!(matches!(parse_message(&BackendMessage::GetAllIntegrations, now), BackendCall::NoCall));
    assert!(matches!(parse_message(&BackendMessage::GetAllScopes, now), BackendCall::FetchScopes));
    assert!(matches!(parse_message(&BackendMessage::GetAllProjects, now), BackendCall::FetchProjects));
    match parse_message(&BackendMessage::StopEntry(entry(4)), now) {
        BackendCall::StopEntry(e) => assert!(e.id == ApiId::Int(4)),
        other => panic!("unexpected call {:?}", other),
    }
    let data = StartEntryData {
        scope_id: "3".to_string(),
        project_id: Some("8".to_string()),
        description: Some("backend".to_string()),
    };
    match parse_message(&BackendMessage::StartEntry(data), now) {
        BackendCall::StartEntry { entry, description } => {
            assert!(entry.scope_id == Some(ApiId::String("3".to_string())));
            assert!(entry.project_id == Some(ApiId::String("8".to_string())));
            assert_eq!(entry.start_time, now);
            assert_eq!(description, Some("backend".to_string()));
        }
        other => panic!("unexpected call {:?}", other),
    }
}

#[test]
fn backend_replies() {
    let r = reply_for(&BackendMessage::GetCurrentEntry, CallOutcome::CurrentEntry(Some(entry(5)))).unwrap();
    assert_eq!(r.message, "get_current_time_entry");
    assert!(matches!(r.content, ReplyContent::Entry(ref e) if e.id == ApiId::Int(5)));
    assert!(reply_for(&BackendMessage::GetCurrentEntry, CallOutcome::CurrentEntry(None)).is_none());

    let r = reply_for(&BackendMessage::StopEntry(entry(5)), CallOutcome::Stopped).unwrap();
    assert_eq!(r.message, "stop_current_time_entry");
    assert!(matches!(r.content, ReplyContent::Success));

    let start = || BackendMessage::StartEntry(StartEntryData { scope_id: "1".to_string(), project_id: None, description: None });
    assert!(reply_for(&start(), CallOutcome::Started(None)).is_none());
    assert!(reply_for(&start(), CallOutcome::Started(Some(entry(6)))).is_some());

    match reply_for(&BackendMessage::GetAllIntegrations, CallOutcome::Nothing).unwrap().content {
        ReplyContent::Integrations(v) => {
            assert_eq!(v, vec![Integration::KimaiIntegration, Integration::TogglIntegration])
        }
        other => panic!("unexpected reply {:?}", other),
    }
    assert!(reply_for(&BackendMessage::GetAllScopes, CallOutcome::Scopes(None)).is_none());
    let scopes = vec![Scope { id: ApiId::Int(1), name: "A".to_string(), color: "ffffff".to_string() }];
    match reply_for(&BackendMessage::GetAllScopes, CallOutcome::Scopes(Some(scopes))).unwrap().content {
        ReplyContent::Scopes(v) => assert_eq!(v[0].name, "A"),
        other => panic!("unexpected reply {:?}", other),
    }
    assert!(reply_for(&BackendMessage::GetAllProjects, CallOutcome::Projects(Some(vec![]))).is_some());
    assert!(reply_for(&BackendMessage::GetAllProjects, CallOutcome::Projects(None)).is_none());
}

#[test]
fn locale_from_the_environment() {
    let some = |s: &str| Some(s.to_string());
    assert_eq!(get_system_locale(some("de_DE.UTF-8"), None, None), "de-DE");
    assert_eq!(get_system_locale(None, None, some("da_DK.UTF-8")), "da-DK");
    assert_eq!(get_system_locale(some("fr_FR"), some("de_DE"), some("da_DK")), "fr-FR");
    assert_eq!(get_system_locale(some("C"), some("1_!!"), some("nb_NO.UTF-8")), "nb-NO");
    assert_eq!(get_system_locale(None, None, None), "en-US");
    assert_eq!(get_system_locale(some("C.UTF-8"), None, None), "en-US");
}

#[test]
fn locale_candidates_and_languages() {
    assert_eq!(locale_candidate_text("de_DE.UTF-8"), "de-DE");
    assert_eq!(locale_candidate_text("en_US"), "en-US");
    assert_eq!(locale_candidate_text("C"), "C");
    assert_eq!(locale_candidate_text(".UTF-8"), "");
    assert_eq!(language_text("de-DE"), "de");
    assert_eq!(language_text("sr-Latn-RS"), "sr");
    assert_eq!(language_text("fi"), "fi");
}

#[test]
fn applet_tab_bar_and_timer_page() {
    let mut a = AppletModel::init(at(0, 0), "en-US".to_string());
    let labels: Vec<&str> = a.tabs.iter().map(|t| t.label.as_str()).collect();
    assert_eq!(labels, vec!["Timer", "Log", "Settings"]);
    assert_eq!(a.active_tab, 0);
    a.update(Message::TaskTextChanged("Review".to_string()));
    a.update(Message::TagChanged(1));
    a.update(Message::Tick { measured: at(65, 0), restarted: at(65, 0) });
    let p = a.timer_page();
    assert_eq!(p.tab_labels, vec!["Timer", "Log", "Settings"]);
    assert_eq!(p.active_tab, 0);
    assert_eq!(p.tab_sends, Sends::TabChanged);
    assert_eq!(p.task_placeholder, "Task");
    assert_eq!(p.task_text, "Review");
    assert_eq!(p.task_sends, Sends::TaskTextChanged);
    assert_eq!(p.tag_options, vec!["Systemudvikling", "Programmering", "Teknologi"]);
    assert_eq!(p.selected_tag, Some(1));
    assert_eq!(p.tag_sends, Sends::TagChanged);
    assert_eq!(p.timer_text, "01:05");
    assert_eq!(p.toggle_icon, "media-playback-stop-symbolic");
    assert_eq!(p.toggle_sends, Sends::ToggleTimer);
    assert_eq!(p.reset_icon, "object-rotate-left-symbolic");
    assert_eq!(p.reset_sends, Sends::ResetTimer);
    a.update(Message::TabChanged(Page::Settings));
    assert_eq!(a.active_tab, 2);
    assert_eq!(a.locale, "en-US");
    a.update(Message::ToggleTimer { now: at(70, 0) });
    assert_eq!(a.timer_page().toggle_icon, "media-playback-start-symbolic");
}
