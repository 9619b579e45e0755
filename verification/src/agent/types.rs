//! Settings that a client sends to configure an agent session, and the messages it exchanges.

use vstd::prelude::*;

verus! {

// ---------------------------------------------------------------------------
// Settings (client sends as first message)
// ---------------------------------------------------------------------------

/// Settings for configuring the Agent WebSocket session.
#[derive(Debug, Clone)]
pub struct AgentSettings {
    /// Audio input/output configuration.
    pub audio: AudioSettings,
    /// Agent behavior configuration.
    pub agent: AgentConfig,
    /// Optional tags for tracking.
    pub tags: Option<Vec<String>>,
    /// Opt out of model improvement program.
    pub mip_opt_out: Option<bool>,
}

/// Audio formats of the session.
#[derive(Debug, Clone)]
pub struct AudioSettings {
    pub input: AudioInputSettings,
    pub output: AudioOutputSettings,
}

/// Format of the audio that the client sends.
#[derive(Debug, Clone)]
pub struct AudioInputSettings {
    pub encoding: String,
    pub sample_rate: u32,
}

/// Format of the audio that the agent sends.
#[derive(Debug, Clone)]
pub struct AudioOutputSettings {
    pub encoding: String,
    pub sample_rate: u32,
    pub bitrate: Option<u32>,
    pub container: Option<String>,
}

/// How the agent listens, thinks and speaks.
#[derive(Debug, Clone)]
pub struct AgentConfig {
    pub language: Option<String>,
    pub listen: ListenConfig,
    pub think: ThinkConfig,
    pub speak: SpeakConfig,
    pub greeting: Option<String>,
    pub context: Option<AgentContext>,
}

/// Speech recognition of the agent.
#[derive(Debug, Clone)]
pub struct ListenConfig {
    pub provider: Option<ListenProvider>,
}

/// Speech recognition provider.
#[derive(Debug, Clone)]
pub struct ListenProvider {
    /// The provider's kind (`type` on the wire).
    pub provider_type: String,
    pub model: Option<String>,
    pub language: Option<String>,
    pub keyterms: Option<Vec<String>>,
}

/// Language model of the agent.
#[derive(Debug, Clone)]
pub struct ThinkConfig {
    pub provider: ThinkProvider,
    pub functions: Option<Vec<FunctionDefinition>>,
}

/// Language model provider.
#[derive(Debug, Clone)]
pub struct ThinkProvider {
    /// The provider's kind (`type` on the wire).
    pub provider_type: String,
    pub model: Option<String>,
    pub instructions: Option<String>,
}

/// Speech synthesis of the agent.
#[derive(Debug, Clone)]
pub struct SpeakConfig {
    pub provider: Option<SpeakProvider>,
}

/// Speech synthesis provider.
#[derive(Debug, Clone)]
pub struct SpeakProvider {
    /// The provider's kind (`type` on the wire).
    pub provider_type: String,
    pub model: Option<String>,
}

/// A function that the agent may call.
#[derive(Debug, Clone)]
pub struct FunctionDefinition {
    pub name: String,
    pub description: String,
    /// JSON schema of the arguments.
    pub parameters: serde_json::Value,
    pub client_side: Option<bool>,
}

/// Conversation history to start from.
#[derive(Debug, Clone)]
pub struct AgentContext {
    pub messages: Vec<ContextMessage>,
}

/// One message of the conversation history.
#[derive(Debug, Clone)]
pub struct ContextMessage {
    pub role: String,
    pub content: String,
}

/// A function call that the agent requests.
#[derive(Debug, Clone)]
pub struct FunctionCall {
    pub id: String,
    pub name: String,
    pub arguments: String,
    pub client_side: bool,
}

// ---------------------------------------------------------------------------
// Server events
// ---------------------------------------------------------------------------

/// The `type` values of the server events that the client knows.
pub open spec fn known_agent_event_type(t: Seq<char>) -> bool {
    ||| t == "Welcome"@
    ||| t == "SettingsApplied"@
    ||| t == "ConversationText"@
    ||| t == "UserStartedSpeaking"@
    ||| t == "AgentThinking"@
    ||| t == "AgentStartedSpeaking"@
    ||| t == "AgentAudioDone"@
    ||| t == "FunctionCallRequest"@
    ||| t == "FunctionCallResponse"@
    ||| t == "PromptUpdated"@
    ||| t == "SpeakUpdated"@
    ||| t == "ThinkUpdated"@
    ||| t == "InjectionRefused"@
    ||| t == "Warning"@
    ||| t == "Error"@
}

/// Whether `t` is the `type` of a server event that the client knows.
pub fn is_known_agent_event_type(t: &str) -> (known: bool)
    ensures
        known == known_agent_event_type(t@),
{
    let t = t.to_owned();
    crate::client::text_is(&t, "Welcome")
        || crate::client::text_is(&t, "SettingsApplied")
        || crate::client::text_is(&t, "ConversationText")
        || crate::client::text_is(&t, "UserStartedSpeaking")
        || crate::client::text_is(&t, "AgentThinking")
        || crate::client::text_is(&t, "AgentStartedSpeaking")
        || crate::client::text_is(&t, "AgentAudioDone")
        || crate::client::text_is(&t, "FunctionCallRequest")
        || crate::client::text_is(&t, "FunctionCallResponse")
        || crate::client::text_is(&t, "PromptUpdated")
        || crate::client::text_is(&t, "SpeakUpdated")
        || crate::client::text_is(&t, "ThinkUpdated")
        || crate::client::text_is(&t, "InjectionRefused")
        || crate::client::text_is(&t, "Warning")
        || crate::client::text_is(&t, "Error")
}

/// How a server message is read: as the known event its `type` names, or kept as an unknown
/// event (a `type` the client does not know, or none).
#[derive(Debug, Clone, Copy, PartialEq, Eq)]
pub enum AgentEventKind {
    /// Read as the known event that the `type` names.
    Known,
    /// Kept as it is, as an unknown event.
    Unknown,
}

/// Decides how a server message with the given `type` field (if it has a textual one) is read.
pub fn agent_event_kind(type_field: Option<&str>) -> (kind: AgentEventKind)
    ensures
        kind == (if type_field is Some && known_agent_event_type(type_field->0@) {
            AgentEventKind::Known
        } else {
            AgentEventKind::Unknown
        }),
{
    match type_field {
        Some(t) => if is_known_agent_event_type(t) { AgentEventKind::Known } else { AgentEventKind::Unknown },
        None => AgentEventKind::Unknown,
    }
}

// ---------------------------------------------------------------------------
// Client messages (sent to server)
// ---------------------------------------------------------------------------

/// Messages that the client sends to the agent, told apart by their `type` field.
#[derive(Debug, Clone)]
pub enum AgentClientMessage {
    /// The session settings, sent first.
    Settings(SettingsPayload),
    UpdatePrompt { instructions: String },
    UpdateSpeak { speak: SpeakConfig },
    UpdateThink { think: ThinkConfig },
    InjectUserMessage { content: String },
    InjectAgentMessage { message: String },
    FunctionCallResponse { function_call_id: String, output: String },
    KeepAlive {},
}

/// The settings as the fields of the `Settings` message.
#[derive(Debug, Clone)]
pub struct SettingsPayload {
    pub settings: AgentSettings,
}

} // verus!
