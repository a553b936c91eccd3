pub mod asset_extraction_agent;
pub mod chunk_extraction_agent;
pub mod definition;
pub mod desktop;
pub mod error;
pub mod llm;
pub mod order;
pub mod presentation;
pub mod project_resolution_agent;
pub mod run_completion_summarizer;
pub mod session;
pub mod session_agent;
pub mod skills;
pub mod text;
pub mod timeline;
pub mod tools;
pub mod work_item_extraction_agent;

pub use definition::AgentDefinition;
pub use error::AgentError;
pub use llm::{
    LlmProviderConfig, OpenAiCompatibleChatMessage, OpenAiCompatibleChatRequest,
    OpenAiCompatibleChatResponse,
};
