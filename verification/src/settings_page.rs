use vstd::prelude::*;
use vstd::string::StringExecFns;

use crate::models::{opt_text_view, Integration};
use crate::state::{GlobalState, GlobalStateView};
use crate::text::push_char;

verus! {

broadcast use vstd::string::group_string_axioms;

/// The settings page: the stored state, the integrations offered, the one
/// picked on this page, the key and URL typed in, and whether a service
/// session exists.
#[derive(Debug)]
pub struct SettingsPage {
    pub state: GlobalState,
    pub integrations: Vec<Integration>,
    pub selected_integration: Option<Integration>,
    pub api_key: String,
    pub integration_url: String,
    pub has_client: bool,
}

/// The value of a [`SettingsPage`].
pub struct SettingsPageView {
    pub state: GlobalStateView,
    pub integrations: Seq<Integration>,
    pub selected_integration: Option<Integration>,
    pub api_key: Seq<char>,
    pub integration_url: Seq<char>,
    pub has_client: bool,
}

impl View for SettingsPage {
    type V = SettingsPageView;

    open spec fn view(&self) -> SettingsPageView {
        SettingsPageView {
            state: self.state@,
            integrations: self.integrations@,
            selected_integration: self.selected_integration,
            api_key: self.api_key@,
            integration_url: self.integration_url@,
            has_client: self.has_client,
        }
    }
}

/// What the settings page is told.
#[derive(Debug)]
pub enum Message {
    IntegrationSelected(Integration),
    APIKeyInput(String),
    APIKeySubmitted,
    IntegrationUrlInput(String),
    IntegrationUrlSubmitted,
    SaveCredentials,
    CredentialsSaved,
    RemoveCredentials,
}

/// The work the settings page asks for.
#[derive(Debug)]
pub enum Task {
    Nothing,
    /// Store the key in the keyring entry of the integration's API key.
    StoreApiKey { integration: Integration, api_key: String },
    /// Store the URL in the keyring entry of the integration's URL.
    StoreIntegrationUrl { integration: Integration, url: String },
    /// Deliver the `batch` messages to the page, then `afterwards`.
    Deliver { batch: Vec<Message>, afterwards: Message },
    /// Remove the integration's API key from the keyring (and its URL, when
    /// `with_url`), then deliver `CredentialsSaved`.
    RemoveCredentials { integration: Integration, with_url: bool },
}

/// The settings page after a message.
pub open spec fn settings_page_next(p: SettingsPageView, m: &Message) -> SettingsPageView {
    match m {
        Message::IntegrationSelected(i) => SettingsPageView {
            selected_integration: Some(*i),
            state: GlobalStateView { selected_integration: Some(*i), ..p.state },
            ..p
        },
        Message::APIKeyInput(k) => SettingsPageView { api_key: k@, ..p },
        Message::IntegrationUrlInput(u) => SettingsPageView { integration_url: u@, ..p },
        _ => p,
    }
}

/// Whether the messages are the submissions an integration's credentials take:
/// the key for Toggl, the key and the URL for Kimai.
pub open spec fn credential_submissions(i: Integration, batch: Seq<Message>) -> bool {
    match i {
        Integration::TogglIntegration => batch.len() == 1 && batch[0] is APIKeySubmitted,
        Integration::KimaiIntegration =>
            batch.len() == 2 && batch[0] is APIKeySubmitted && batch[1] is IntegrationUrlSubmitted,
    }
}

/// The work a message asks for.
pub open spec fn settings_page_task(p: SettingsPageView, m: &Message, t: &Task) -> bool {
    match m {
        Message::APIKeySubmitted => match p.selected_integration {
            Some(i) => t matches Task::StoreApiKey { integration, api_key } && integration == i && api_key@ == p.api_key,
            None => t is Nothing,
        },
        Message::IntegrationUrlSubmitted => match p.selected_integration {
            Some(i) => t matches Task::StoreIntegrationUrl { integration, url } && integration == i && url@ == p.integration_url,
            None => t is Nothing,
        },
        Message::SaveCredentials => match p.state.selected_integration {
            Some(i) => t matches Task::Deliver { batch, afterwards }
                && credential_submissions(i, batch@) && afterwards is CredentialsSaved,
            None => t is Nothing,
        },
        Message::RemoveCredentials => match p.state.selected_integration {
            Some(i) => t matches Task::RemoveCredentials { integration, with_url }
                && integration == i && with_url == (i == Integration::KimaiIntegration),
            None => t is Nothing,
        },
        _ => t is Nothing,
    }
}

/// The button at the foot of the settings page.
#[derive(Clone, Copy, Debug, PartialEq, Eq, Structural)]
pub enum CredentialsButton {
    /// "Unauthenticate", destructive; sends `RemoveCredentials`.
    Unauthenticate,
    /// "Authenctiacte" (sic), suggested; sends `SaveCredentials`.
    Authenticate,
}

/// What the settings page shows: the integrations offered and the one
/// picked, the URL field (for Kimai), the key field (masked), and the button.
#[derive(Debug)]
pub struct SettingsPageDisplay {
    pub integrations: Vec<Integration>,
    pub selected_integration: Option<Integration>,
    pub show_url_input: bool,
    pub show_api_key_input: bool,
    pub integration_url: String,
    pub masked_api_key: String,
    pub button: CredentialsButton,
}

/// One `*` for each byte of the key's UTF-8 text, as `"*".repeat(key.len())` gives.
pub open spec fn masked(key: Seq<char>) -> Seq<char> {
    Seq::new((vstd::utf8::encode_utf8(key).len() as usize) as nat, |i: int| '*')
}

/// A settings page just opened over `state`: both integrations offered,
/// the stored one picked, no key typed in, the URL field holding the URL
/// stored for the integration (or nothing).
pub open spec fn fresh_settings_page(
    p: SettingsPageView,
    state: GlobalStateView,
    has_client: bool,
    stored_url: Option<Seq<char>>,
) -> bool {
    &&& p.state == state
    &&& p.integrations == seq![Integration::TogglIntegration, Integration::KimaiIntegration]
    &&& p.selected_integration == state.selected_integration
    &&& p.api_key.len() == 0
    &&& p.integration_url == (match stored_url {
        Some(u) => u,
        None => Seq::empty(),
    })
    &&& p.has_client == has_client
}

impl SettingsPage {
    /// The page over the stored state: the integration picked is the stored
    /// one, and the URL field holds the URL stored for it (`stored_url`, the
    /// keyring's answer), or nothing.
    pub fn new(state: GlobalState, has_client: bool, stored_url: Option<String>) -> (p: SettingsPage)
        ensures
            fresh_settings_page(p@, state@, has_client, opt_text_view(&stored_url)),
    {
        let selected_integration = state.selected_integration;
        let integration_url = match stored_url {
            Some(u) => u,
            None => String::new(),
        };
        SettingsPage {
            state,
            integrations: vec![Integration::TogglIntegration, Integration::KimaiIntegration],
            selected_integration,
            api_key: String::new(),
            integration_url,
            has_client,
        }
    }

    /// Applies one message, and gives the work it asks for.
    pub fn update(&mut self, message: Message) -> (t: Task)
        ensures
            final(self)@ == settings_page_next(old(self)@, &message),
            settings_page_task(old(self)@, &message, &t),
            message is SaveCredentials && old(self).state.selected_integration is Some ==> (t matches Task::Deliver { batch, afterwards }
                && batch@.len() >= 1 && batch@[0] is APIKeySubmitted && afterwards is CredentialsSaved),
            message is SaveCredentials && old(self).state.selected_integration == Some(Integration::TogglIntegration) ==>
                (t matches Task::Deliver { batch, .. } && batch@.len() == 1),
            message is SaveCredentials && old(self).state.selected_integration == Some(Integration::KimaiIntegration) ==>
                (t matches Task::Deliver { batch, .. } && batch@.len() == 2 && batch@[1] is IntegrationUrlSubmitted),
    {
        match message {
            Message::IntegrationSelected(selected) => {
                self.selected_integration = Some(selected);
                self.state.selected_integration = Some(selected);
                Task::Nothing
            },
            Message::APIKeyInput(api_key) => {
                self.api_key = api_key;
                Task::Nothing
            },
            Message::APIKeySubmitted => match self.selected_integration {
                Some(integration) => Task::StoreApiKey { integration, api_key: self.api_key.clone() },
                None => Task::Nothing,
            },
            Message::IntegrationUrlInput(url) => {
                self.integration_url = url;
                Task::Nothing
            },
            Message::IntegrationUrlSubmitted => match self.selected_integration {
                Some(integration) => Task::StoreIntegrationUrl { integration, url: self.integration_url.clone() },
                None => Task::Nothing,
            },
            Message::SaveCredentials => match self.state.selected_integration {
                Some(Integration::TogglIntegration) => Task::Deliver {
                    batch: vec![Message::APIKeySubmitted],
                    afterwards: Message::CredentialsSaved,
                },
                Some(Integration::KimaiIntegration) => Task::Deliver {
                    batch: vec![Message::APIKeySubmitted, Message::IntegrationUrlSubmitted],
                    afterwards: Message::CredentialsSaved,
                },
                None => Task::Nothing,
            },
            Message::CredentialsSaved => Task::Nothing,
            Message::RemoveCredentials => match self.state.selected_integration {
                Some(Integration::TogglIntegration) => Task::RemoveCredentials {
                    integration: Integration::TogglIntegration,
                    with_url: false,
                },
                Some(Integration::KimaiIntegration) => Task::RemoveCredentials {
                    integration: Integration::KimaiIntegration,
                    with_url: true,
                },
                None => Task::Nothing,
            },
        }
    }

    /// What the page shows. The inputs follow the integration in the stored
    /// state: the key alone for Toggl, the URL and the key for Kimai.
    pub fn display(&self) -> (d: SettingsPageDisplay)
        ensures
            d.integrations@ == self@.integrations,
            d.selected_integration == self.selected_integration,
            d.show_url_input == (self.state.selected_integration == Some(Integration::KimaiIntegration)),
            d.show_api_key_input == self.state.selected_integration is Some,
            d.integration_url@ == self@.integration_url,
            d.masked_api_key@ == masked(self@.api_key),
            d.button == (if self.has_client { CredentialsButton::Unauthenticate } else { CredentialsButton::Authenticate }),
    {
        let byte_len = self.api_key.as_str().len();
        let mut masked_api_key = String::new();
        let mut i: usize = 0;
        while i < byte_len
            invariant
                i <= byte_len,
                byte_len == vstd::utf8::encode_utf8(self.api_key@).len() as usize,
                masked_api_key@ == Seq::new(i as nat, |j: int| '*'),
            decreases byte_len - i,
        {
            push_char(&mut masked_api_key, '*');
            i = i + 1;
            proof {
                assert(masked_api_key@ =~= Seq::new(i as nat, |j: int| '*'));
            }
        }
        let mut integrations: Vec<Integration> = Vec::new();
        let mut k: usize = 0;
        while k < self.integrations.len()
            invariant
                k <= self.integrations@.len(),
                integrations@ == self.integrations@.take(k as int),
            decreases self.integrations@.len() - k,
        {
            integrations.push(self.integrations[k]);
            k = k + 1;
            proof {
                assert(integrations@ =~= self.integrations@.take(k as int));
            }
        }
        proof {
            assert(self.integrations@.take(self.integrations@.len() as int) =~= self.integrations@);
        }
        let show_url_input = match self.state.selected_integration {
            Some(Integration::KimaiIntegration) => true,
            _ => false,
        };
        SettingsPageDisplay {
            integrations,
            selected_integration: self.selected_integration,
            show_url_input,
            show_api_key_input: self.state.selected_integration.is_some(),
            integration_url: self.integration_url.clone(),
            masked_api_key,
            button: if self.has_client { CredentialsButton::Unauthenticate } else { CredentialsButton::Authenticate },
        }
    }
}

/// Saving credentials submits the API key first, whatever the integration:
/// Toggl's batch is the key alone, Kimai's the key and then the URL; and
/// when the page's integration is the stored one, the key submitted is the
/// one typed, stored under that integration.
pub proof fn saving_credentials_stores_the_typed_key(p: SettingsPageView, t: Task)
    requires
        p.state.selected_integration is Some,
        p.selected_integration == p.state.selected_integration,
        settings_page_task(p, &Message::SaveCredentials, &t),
    ensures
        t matches Task::Deliver { batch, afterwards } && batch@.len() >= 1 && batch@[0] is APIKeySubmitted
            && afterwards is CredentialsSaved,
        p.state.selected_integration == Some(Integration::TogglIntegration) ==> (t matches Task::Deliver { batch, .. } && batch@.len() == 1),
        p.state.selected_integration == Some(Integration::KimaiIntegration) ==>
            (t matches Task::Deliver { batch, .. } && batch@.len() == 2 && batch@[1] is IntegrationUrlSubmitted),
        settings_page_next(p, &Message::SaveCredentials) == p,
        forall|t2: Task| #[trigger] settings_page_task(p, &Message::APIKeySubmitted, &t2) ==>
            (t2 matches Task::StoreApiKey { integration, api_key }
                && Some(integration) == p.state.selected_integration && api_key@ == p.api_key),
{
}

} // verus!
