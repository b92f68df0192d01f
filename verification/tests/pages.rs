use time_tracker::applet::Page;
use time_tracker::clock::format_clock_time;
use time_tracker::models::{ApiId, Integration, Project, Scope, TimeEntry, Timestamp};
use time_tracker::panel::{self, AppletModel};
use time_tracker::settings_page::{self, CredentialsButton, SettingsPage};
use time_tracker::state::GlobalState;
use time_tracker::time_entries_page::TimeEntriesPage;
use time_tracker::timer_page::{self, TimerPage, TimerRow};

fn at(secs: i64, nanos: u32) -> Timestamp {
    Timestamp::new(secs, nanos).unwrap()
}

fn scope(id: i64, name: &str) -> Scope {
    Scope { id: ApiId::Int(id), name: name.to_string(), color: "ffffff".to_string() }
}

fn project(id: i64, scope_id: i64, name: &str, color: &str) -> Project {
    Project { id: ApiId::Int(id), scope_id: ApiId::Int(scope_id), name: name.to_string(), color: color.to_string() }
}

fn running(start: Timestamp) -> TimeEntry {
    TimeEntry {
        id: ApiId::Int(55),
        scope_id: Some(ApiId::Int(1)),
        project_id: Some(ApiId::Int(11)),
        billable: true,
        description: Some("notes".to_string()),
        start_time: start,
        stop_time: None,
    }
}

fn state_with_lists() -> GlobalState {
    let mut s = GlobalState::default();
    s.selected_integration = Some(Integration::TogglIntegration);
    s.scopes = vec![scope(1, "Home"), scope(2, "Work"), scope(2, "Work again")];
    s.projects = vec![
        project(11, 1, "Garden", "#00ff00"),
        project(12, 2, "Site", "#0000ff"),
        project(13, 2, "Docs", "#ff00ff"),
    ];
    s
}

#[test]
fn timer_page_points_at_the_stored_choices() {
    let mut s = state_with_lists();
    s.selected_scope = Some(scope(2, "Work"));
    s.selected_project = Some(project(13, 2, "Docs", "#ff00ff"));
    s.current_description = Some("typing".to_string());
    let page = TimerPage::new(s, true);
    assert_eq!(page.current_scope, Some(1));
    assert_eq!(page.current_project, Some(2));
    assert_eq!(page.current_description, Some("typing".to_string()));
    assert_eq!(page.start_time_field_text, "");
    assert!(!page.start_time_field_editable);

    let mut s = state_with_lists();
    s.selected_scope = Some(scope(9, "Gone"));
    let page = TimerPage::new(s, false);
    assert_eq!(page.current_scope, None);
    assert_eq!(page.current_project, None);
}

#[test]
fn timer_page_display_lists_projects_of_the_chosen_scope() {
    let mut s = state_with_lists();
    s.selected_scope = Some(scope(2, "Work"));
    let page = TimerPage::new(s, true);
    let d = page.display();
    assert_eq!(d.start_time_placeholder, "No running timer.");
    assert_eq!(d.scope_names, vec!["Home", "Work", "Work again"]);
    assert_eq!(d.project_names, vec!["Site", "Docs"]);
    assert_eq!(d.description, "");

    let mut s = state_with_lists();
    s.running_time_entry = Some(running(at(1_700_000_000, 0)));
    let d = TimerPage::new(s, true).display();
    assert_eq!(d.start_time_placeholder, "22:13");
    assert!(d.project_names.is_empty());
}

#[test]
fn timer_page_fetches_only_with_a_session() {
    let mut page = TimerPage::new(state_with_lists(), false);
    assert!(matches!(page.update(timer_page::Message::GetScopes), timer_page::Task::Nothing));
    assert!(matches!(page.update(timer_page::Message::GetExistingTimeEntry), timer_page::Task::Nothing));
    let mut page = TimerPage::new(state_with_lists(), true);
    assert!(matches!(page.update(timer_page::Message::GetScopes), timer_page::Task::FetchScopes));
    assert!(matches!(page.update(timer_page::Message::GetProjects), timer_page::Task::FetchProjects));
    assert!(matches!(
        page.update(timer_page::Message::GetExistingTimeEntry),
        timer_page::Task::FetchCurrentTimeEntry
    ));
}

#[test]
fn timer_page_choices_and_answers() {
    let mut page = TimerPage::new(state_with_lists(), true);
    page.update(timer_page::Message::ProjectChanged(0));
    assert!(page.state.selected_project.as_ref().unwrap().id == ApiId::Int(11));
    page.update(timer_page::Message::ScopeChanged(1));
    assert_eq!(page.current_scope, Some(1));
    assert_eq!(page.state.selected_scope.as_ref().unwrap().name, "Work");
    assert!(page.state.selected_project.is_none());

    page.update(timer_page::Message::DescriptionChanged(String::new()));
    assert_eq!(page.current_description, None);
    assert_eq!(page.state.current_description, None);
    page.update(timer_page::Message::DescriptionChanged("call".to_string()));
    assert_eq!(page.state.current_description, Some("call".to_string()));

    page.update(timer_page::Message::ScopesGotten(None));
    assert_eq!(page.state.scopes.len(), 3);
    page.update(timer_page::Message::ScopesGotten(Some(vec![scope(5, "New")])));
    assert_eq!(page.state.scopes.len(), 1);
    page.update(timer_page::Message::ProjectsGotten(Some(vec![])));
    assert!(page.state.projects.is_empty());

    page.update(timer_page::Message::ExistingTimeEntryGotten(Some(running(at(100, 0)))));
    assert!(page.state.running_time_entry.is_some());
    page.update(timer_page::Message::ExistingTimeEntryGotten(None));
    assert!(page.state.running_time_entry.is_none());
}

#[test]
fn timer_page_start_time_editing() {
    let mut s = state_with_lists();
    s.running_time_entry = Some(running(at(1_700_000_000, 0)));
    let mut page = TimerPage::new(s, true);
    page.update(timer_page::Message::ToggleStartTimeEditing(true));
    assert!(page.start_time_field_editable);
    assert_eq!(page.start_time_field_text, "22:13");
    page.update(timer_page::Message::StartTimeFieldTextChanged("09:30".to_string()));
    assert_eq!(page.start_time_field_text, "09:30");
    page.update(timer_page::Message::StartTimeFieldUnfocused);
    assert!(!page.start_time_field_editable);
    assert_eq!(page.start_time_field_text, "");

    let mut idle = TimerPage::new(state_with_lists(), true);
    idle.update(timer_page::Message::ToggleStartTimeEditing(true));
    assert!(!idle.start_time_field_editable);
}

#[test]
fn submitted_start_time_moves_the_running_entry() {
    let mut s = state_with_lists();
    s.running_time_entry = Some(running(at(1_700_000_000, 250)));
    let mut page = TimerPage::new(s, true);
    match page.update(timer_page::Message::StartTimeFieldSubmitted("09:30".to_string())) {
        timer_page::Task::UpdateTimeEntry { entry, update } => {
            assert!(entry.id == ApiId::Int(55));
            assert_eq!(update.start_time, at(1_699_954_200, 0));
            assert_eq!(format_clock_time(&update.start_time), "09:30");
            assert_eq!(update.start_time.secs() / 86_400, entry.start_time.secs() / 86_400);
            assert_eq!(update.stop_time, None);
            assert!(update.billable);
            assert_eq!(update.description, Some("notes".to_string()));
        }
        other => panic!("unexpected task {:?}", other),
    }
    assert!(matches!(
        page.update(timer_page::Message::StartTimeFieldSubmitted("25:00".to_string())),
        timer_page::Task::Nothing
    ));
    assert!(matches!(
        page.update(timer_page::Message::StartTimeFieldSubmitted("later".to_string())),
        timer_page::Task::Nothing
    ));
    let mut idle = TimerPage::new(state_with_lists(), true);
    assert!(matches!(
        idle.update(timer_page::Message::StartTimeFieldSubmitted("09:30".to_string())),
        timer_page::Task::Nothing
    ));
}

#[test]
fn settings_page_opens_over_the_stored_state() {
    let mut s = GlobalState::default();
    s.selected_integration = Some(Integration::KimaiIntegration);
    let page = SettingsPage::new(s, false, Some("https://kimai.example.com".to_string()));
    assert_eq!(page.integrations, vec![Integration::TogglIntegration, Integration::KimaiIntegration]);
    assert_eq!(page.selected_integration, Some(Integration::KimaiIntegration));
    assert_eq!(page.integration_url, "https://kimai.example.com");
    assert_eq!(page.api_key, "");
    let d = page.display();
    assert!(d.show_url_input);
    assert!(d.show_api_key_input);
    assert_eq!(d.button, CredentialsButton::Authenticate);
}

#[test]
fn settings_page_masks_the_key() {
    let mut page = SettingsPage::new(GlobalState::default(), true, None);
    page.update(settings_page::Message::IntegrationSelected(Integration::TogglIntegration));
    page.update(settings_page::Message::APIKeyInput("abc€".to_string()));
    let d = page.display();
    assert_eq!(d.masked_api_key, "******");
    assert!(!d.show_url_input);
    assert_eq!(d.button, CredentialsButton::Unauthenticate);
}

#[test]
fn settings_page_credentials_work() {
    let mut page = SettingsPage::new(GlobalState::default(), false, None);
    assert!(matches!(page.update(settings_page::Message::SaveCredentials), settings_page::Task::Nothing));
    assert!(matches!(page.update(settings_page::Message::APIKeySubmitted), settings_page::Task::Nothing));
    page.update(settings_page::Message::IntegrationSelected(Integration::KimaiIntegration));
    assert_eq!(page.state.selected_integration, Some(Integration::KimaiIntegration));
    page.update(settings_page::Message::APIKeyInput("key".to_string()));
    page.update(settings_page::Message::IntegrationUrlInput("https://k.example".to_string()));
    match page.update(settings_page::Message::APIKeySubmitted) {
        settings_page::Task::StoreApiKey { integration, api_key } => {
            assert_eq!(integration, Integration::KimaiIntegration);
            assert_eq!(api_key, "key");
        }
        other => panic!("unexpected task {:?}", other),
    }
    match page.update(settings_page::Message::IntegrationUrlSubmitted) {
        settings_page::Task::StoreIntegrationUrl { integration, url } => {
            assert_eq!(integration, Integration::KimaiIntegration);
            assert_eq!(url, "https://k.example");
        }
        other => panic!("unexpected task {:?}", other),
    }
    match page.update(settings_page::Message::SaveCredentials) {
        settings_page::Task::Deliver { batch, afterwards } => {
            assert_eq!(batch.len(), 2);
            assert!(matches!(batch[0], settings_page::Message::APIKeySubmitted));
            assert!(matches!(batch[1], settings_page::Message::IntegrationUrlSubmitted));
            assert!(matches!(afterwards, settings_page::Message::CredentialsSaved));
        }
        other => panic!("unexpected task {:?}", other),
    }
    match page.update(settings_page::Message::RemoveCredentials) {
        settings_page::Task::RemoveCredentials { integration, with_url } => {
            assert_eq!(integration, Integration::KimaiIntegration);
            assert!(with_url);
        }
        other => panic!("unexpected task {:?}", other),
    }
    page.update(settings_page::Message::IntegrationSelected(Integration::TogglIntegration));
    match page.update(settings_page::Message::SaveCredentials) {
        settings_page::Task::Deliver { batch, .. } => assert_eq!(batch.len(), 1),
        other => panic!("unexpected task {:?}", other),
    }
}

#[test]
fn log_page_starts_empty() {
    let page = TimeEntriesPage::new();
    assert!(page.time_entries.is_empty());
    assert_eq!(page.display(), "Hello");
}

#[test]
fn panel_starts_on_settings_and_asks_for_a_session() {
    let (model, task) = AppletModel::init(state_with_lists(), "da-DK".to_string(), None);
    assert_eq!(model.popup, None);
    assert_eq!(model.popup_page, Page::Settings);
    assert!(!model.has_client);
    assert_eq!(model.locale, "da-DK");
    assert_eq!(model.visible_page(), Page::Settings);
    match task {
        panel::Task::Deliver(v) => {
            assert_eq!(v.len(), 2);
            assert!(matches!(v[0], panel::Message::GetExistingTimeEntry));
            assert!(matches!(v[1], panel::Message::CreateIntegration));
        }
        other => panic!("unexpected task {:?}", other),
    }
}

#[test]
fn panel_popup_opens_and_closes() {
    let (mut model, _) = AppletModel::init(GlobalState::default(), String::new(), None);
    assert!(matches!(model.update(panel::Message::TogglePopup { new_id: 4 }), panel::Task::OpenPopup(4)));
    assert_eq!(model.popup, Some(4));
    assert!(matches!(model.update(panel::Message::TogglePopup { new_id: 5 }), panel::Task::ClosePopup(4)));
    assert_eq!(model.popup, None);
    model.update(panel::Message::TogglePopup { new_id: 6 });
    model.update(panel::Message::CloseRequested(7));
    assert_eq!(model.popup, Some(6));
    model.update(panel::Message::CloseRequested(6));
    assert_eq!(model.popup, None);
}

#[test]
fn panel_session_fetches_follow_the_integration() {
    let mut s = GlobalState::default();
    s.selected_integration = Some(Integration::KimaiIntegration);
    let (mut model, _) = AppletModel::init(s, String::new(), None);
    assert!(matches!(model.update(panel::Message::CreateIntegration), panel::Task::CreateClient(Integration::KimaiIntegration)));
    match model.update(panel::Message::IntegrationCreated(true)) {
        panel::Task::Deliver(v) => {
            assert_eq!(v.len(), 3);
            assert!(matches!(v[0], panel::Message::TimerPage(timer_page::Message::GetExistingTimeEntry)));
            assert!(matches!(v[1], panel::Message::TimerPage(timer_page::Message::GetScopes)));
            assert!(matches!(v[2], panel::Message::TimerPage(timer_page::Message::GetProjects)));
        }
        other => panic!("unexpected task {:?}", other),
    }
    assert!(model.has_client && model.timer_page.has_client && model.settings_page.has_client);
    model.update(panel::Message::TabChanged(Page::Timer));
    assert_eq!(model.visible_page(), Page::Timer);
    assert!(matches!(model.update(panel::Message::GetExistingTimeEntry), panel::Task::FetchCurrentTimeEntry));

    let mut s = GlobalState::default();
    s.selected_integration = Some(Integration::TogglIntegration);
    let (mut toggl, _) = AppletModel::init(s, String::new(), None);
    match toggl.update(panel::Message::IntegrationCreated(false)) {
        panel::Task::Deliver(v) => assert_eq!(v.len(), 2),
        other => panic!("unexpected task {:?}", other),
    }
    assert!(matches!(toggl.update(panel::Message::GetExistingTimeEntry), panel::Task::Nothing));

    let (mut none, _) = AppletModel::init(GlobalState::default(), String::new(), None);
    assert!(matches!(none.update(panel::Message::CreateIntegration), panel::Task::Nothing));
    assert!(matches!(none.update(panel::Message::IntegrationCreated(true)), panel::Task::Nothing));
}

#[test]
fn panel_switching_integration_clears_service_data() {
    let mut s = state_with_lists();
    s.selected_scope = Some(scope(1, "Home"));
    s.running_time_entry = Some(running(at(100, 0)));
    let (mut model, _) = AppletModel::init(s, String::new(), None);

    let mut same = state_with_lists();
    same.current_description = Some("kept".to_string());
    assert!(matches!(model.update(panel::Message::StateChanged(same)), panel::Task::Nothing));
    assert_eq!(model.state.scopes.len(), 3);
    assert_eq!(model.timer_page.state.current_description, Some("kept".to_string()));

    let mut switched = state_with_lists();
    switched.selected_integration = Some(Integration::KimaiIntegration);
    switched.selected_scope = Some(scope(2, "Work"));
    switched.running_time_entry = Some(running(at(100, 0)));
    switched.current_description = Some("kept".to_string());
    match model.update(panel::Message::StateChanged(switched)) {
        panel::Task::Deliver(v) => {
            assert_eq!(v.len(), 1);
            assert!(matches!(v[0], panel::Message::CreateIntegration));
        }
        other => panic!("unexpected task {:?}", other),
    }
    assert_eq!(model.state.selected_integration, Some(Integration::KimaiIntegration));
    assert!(model.state.scopes.is_empty());
    assert!(model.state.projects.is_empty());
    assert!(model.state.selected_scope.is_none());
    assert!(model.state.selected_project.is_none());
    assert!(model.state.running_time_entry.is_none());
    assert_eq!(model.state.current_description, Some("kept".to_string()));
    assert_eq!(model.settings_page.state.scopes.len(), 3);
}

#[test]
fn panel_starts_and_stops_the_timer() {
    let mut s = state_with_lists();
    s.selected_scope = Some(scope(2, "Work"));
    s.current_description = Some("deploy".to_string());
    let (mut model, _) = AppletModel::init(s, String::new(), None);
    let now = at(1_700_000_000, 0);
    assert!(matches!(model.update(panel::Message::StartTimer { now }), panel::Task::Nothing));
    model.update(panel::Message::IntegrationCreated(true));
    match model.update(panel::Message::StartTimer { now }) {
        panel::Task::StartTimeEntry { entry, description } => {
            assert!(entry.id == ApiId::Int(0));
            assert!(entry.scope_id == Some(ApiId::Int(2)));
            assert!(entry.project_id.is_none());
            assert!(!entry.billable);
            assert_eq!(entry.start_time, now);
            assert_eq!(entry.stop_time, None);
            assert_eq!(description, Some("deploy".to_string()));
        }
        other => panic!("unexpected task {:?}", other),
    }
    assert!(matches!(model.update(panel::Message::StopTimer), panel::Task::Nothing));
    model.update(panel::Message::TimerStarted(running(now)));
    match model.update(panel::Message::StopTimer) {
        panel::Task::StopTimeEntry(e) => assert!(e.id == ApiId::Int(55)),
        other => panic!("unexpected task {:?}", other),
    }
    model.update(panel::Message::TimerStopped);
    assert!(model.state.running_time_entry.is_none());
}

#[test]
fn panel_kimai_start_needs_both_choices() {
    let mut s = state_with_lists();
    s.selected_integration = Some(Integration::KimaiIntegration);
    s.selected_scope = Some(scope(2, "Work"));
    let (mut model, _) = AppletModel::init(s, String::new(), None);
    model.update(panel::Message::IntegrationCreated(true));
    let now = at(1_700_000_000, 0);
    assert!(matches!(model.update(panel::Message::StartTimer { now }), panel::Task::Nothing));
    let mut s = state_with_lists();
    s.selected_integration = Some(Integration::KimaiIntegration);
    s.selected_scope = Some(scope(2, "Work"));
    s.selected_project = Some(project(12, 2, "Site", "#0000ff"));
    model.update(panel::Message::StateChanged(s));
    match model.update(panel::Message::StartTimer { now }) {
        panel::Task::StartTimeEntry { entry, .. } => {
            assert!(entry.scope_id == Some(ApiId::Int(2)));
            assert!(entry.project_id == Some(ApiId::Int(12)));
        }
        other => panic!("unexpected task {:?}", other),
    }
}

#[test]
fn panel_button_row() {
    let mut s = state_with_lists();
    s.selected_project = Some(project(12, 2, "Site", "#0000ff"));
    let (mut model, _) = AppletModel::init(s, String::new(), None);
    let now = at(1_700_003_725, 0);
    let d = model.display(&now);
    assert!(!d.show_counter);
    assert_eq!(d.indicator_color, Some("#0000ff".to_string()));
    assert_eq!(d.counter_text, "00:00");
    assert!(!d.counter_stops_timer);
    model.update(panel::Message::IntegrationCreated(true));
    model.update(panel::Message::ExistingTimeEntryGotten(Some(running(at(1_700_000_000, 0)))));
    let d = model.display(&now);
    assert!(d.show_counter);
    assert_eq!(d.counter_text, "1:02:05");
    assert!(d.counter_stops_timer);
    let d = model.display(&at(1_699_999_935, 0));
    assert_eq!(d.counter_text, "-1:-5");
}

#[test]
fn panel_passes_page_messages_on() {
    let (mut model, _) = AppletModel::init(state_with_lists(), String::new(), None);
    model.update(panel::Message::IntegrationCreated(true));
    assert!(matches!(
        model.update(panel::Message::TimerPage(timer_page::Message::GetScopes)),
        panel::Task::TimerPage(timer_page::Task::FetchScopes)
    ));
    model.update(panel::Message::TimerPage(timer_page::Message::ScopeChanged(0)));
    assert_eq!(model.timer_page.current_scope, Some(0));
    assert_eq!(model.state.selected_scope.as_ref().unwrap().name, "Home");
    assert_eq!(model.settings_page.state.selected_scope.as_ref().unwrap().name, "Home");
    assert!(matches!(
        model.update(panel::Message::SettingsPage(settings_page::Message::RemoveCredentials)),
        panel::Task::SettingsPage(settings_page::Task::RemoveCredentials { with_url: false, .. })
    ));
    assert!(matches!(model.update(panel::Message::Tick), panel::Task::Nothing));
}

#[test]
fn timer_page_rows_follow_the_integration() {
    let d = TimerPage::new(GlobalState::default(), false).display();
    assert_eq!(d.rows, vec![TimerRow::Start, TimerRow::Refetch]);
    let all = vec![TimerRow::Start, TimerRow::Scope, TimerRow::Project, TimerRow::Description, TimerRow::Refetch];
    let d = TimerPage::new(state_with_lists(), true).display();
    assert_eq!(d.rows, all);
    assert_eq!(d.scope_label, "workspace");
    assert_eq!(d.project_label, "Project");
    let mut s = state_with_lists();
    s.selected_integration = Some(Integration::KimaiIntegration);
    let d = TimerPage::new(s, true).display();
    assert_eq!(d.rows, all);
    assert_eq!(d.scope_label, "Project");
    assert_eq!(d.project_label, "Activity");
}

#[test]
fn timer_page_choices_reach_the_panel() {
    let mut s = GlobalState::default();
    s.selected_integration = Some(Integration::TogglIntegration);
    s.scopes = vec![scope(1, "Home")];
    let (mut model, _) = AppletModel::init(s, String::new(), None);
    model.update(panel::Message::IntegrationCreated(true));
    model.update(panel::Message::TimerPage(timer_page::Message::ScopeChanged(0)));
    let now = at(1_700_000_000, 0);
    match model.update(panel::Message::StartTimer { now }) {
        panel::Task::StartTimeEntry { entry, .. } => assert!(entry.scope_id == Some(ApiId::Int(1))),
        other => panic!("unexpected task {:?}", other),
    }
    model.update(panel::Message::TimerPage(timer_page::Message::DescriptionChanged("notes".to_string())));
    assert_eq!(model.state.current_description, Some("notes".to_string()));
    model.update(panel::Message::TimerPage(timer_page::Message::ExistingTimeEntryGotten(Some(running(now)))));
    assert!(model.state.running_time_entry.is_some());
    model.update(panel::Message::TimerPage(timer_page::Message::ScopesGotten(Some(vec![scope(1, "Home"), scope(2, "Work")]))));
    assert_eq!(model.state.scopes.len(), 2);
    assert_eq!(model.settings_page.state.scopes.len(), 2);
    model.update(panel::Message::TimerPage(timer_page::Message::ScopesGotten(None)));
    assert_eq!(model.state.scopes.len(), 2);
}

#[test]
fn settings_page_integration_reaches_the_panel() {
    let mut s = state_with_lists();
    s.selected_scope = Some(scope(1, "Home"));
    let (mut model, _) = AppletModel::init(s, String::new(), None);
    let same = model.update(panel::Message::SettingsPage(settings_page::Message::IntegrationSelected(
        Integration::TogglIntegration,
    )));
    assert!(matches!(same, panel::Task::SettingsPage(settings_page::Task::Nothing)));
    assert_eq!(model.state.scopes.len(), 3);
    match model.update(panel::Message::SettingsPage(settings_page::Message::IntegrationSelected(
        Integration::KimaiIntegration,
    ))) {
        panel::Task::Deliver(v) => {
            assert_eq!(v.len(), 1);
            assert!(matches!(v[0], panel::Message::CreateIntegration));
        }
        other => panic!("unexpected task {:?}", other),
    }
    assert_eq!(model.state.selected_integration, Some(Integration::KimaiIntegration));
    assert_eq!(model.timer_page.state.selected_integration, Some(Integration::KimaiIntegration));
    assert!(model.state.scopes.is_empty());
    assert!(model.state.selected_scope.is_none());
}

#[test]
fn panel_tab_bar() {
    let (mut model, _) = AppletModel::init(GlobalState::default(), String::new(), None);
    let d = model.display(&at(0, 0));
    assert_eq!(d.tab_labels, vec!["Timer", "Log", "Settings"]);
    assert_eq!(d.active_tab, 0);
    assert_eq!(model.popup_page, Page::Settings);
    model.update(panel::Message::TabChanged(Page::Log));
    assert_eq!(model.active_tab, 1);
    assert_eq!(model.display(&at(0, 0)).active_tab, 1);
}
