//! Conversation records, script lines, the memory bank and the two
//! six-dimensional emotion vectors a role keeps towards the player.

use vstd::prelude::*;

use crate::text::{concat3, owned};

verus! {

// ==========================================
// LLM messages and function calling
// ==========================================

/// Arguments of a function call requested by the model.
#[derive(Clone, Debug)]
pub struct FunctionCall {
    pub name: String,
    /// JSON text.
    pub arguments: String,
}

/// A tool call returned by the model.
#[derive(Clone, Debug)]
pub struct ToolCall {
    pub id: String,
    pub type_: String,
    pub function: FunctionCall,
}

/// The `type` a tool call has when the model leaves it out.
pub fn default_tool_type() -> (r: String)
    ensures
        r@ == "function"@,
{
    owned("function")
}

#[derive(Clone, Debug)]
pub struct LlmMessage {
    pub role: String,
    pub content: String,
    pub tool_calls: Option<Vec<ToolCall>>,
    pub tool_call_id: Option<String>,
    /// A `data:image/...;base64,...` URL attached to this turn only.
    pub image_data_url: Option<String>,
}

impl LlmMessage {
    pub fn system(content: String) -> (m: Self)
        ensures
            m.role@ == "system"@,
            m.content == content,
            m.tool_calls is None,
            m.tool_call_id is None,
            m.image_data_url is None,
    {
        LlmMessage {
            role: owned("system"),
            content,
            tool_calls: None,
            tool_call_id: None,
            image_data_url: None,
        }
    }

    pub fn user(content: String) -> (m: Self)
        ensures
            m.role@ == "user"@,
            m.content == content,
            m.tool_calls is None,
            m.tool_call_id is None,
            m.image_data_url is None,
    {
        LlmMessage {
            role: owned("user"),
            content,
            tool_calls: None,
            tool_call_id: None,
            image_data_url: None,
        }
    }

    pub fn assistant(content: String) -> (m: Self)
        ensures
            m.role@ == "assistant"@,
            m.content == content,
            m.tool_calls is None,
            m.tool_call_id is None,
            m.image_data_url is None,
    {
        LlmMessage {
            role: owned("assistant"),
            content,
            tool_calls: None,
            tool_call_id: None,
            image_data_url: None,
        }
    }

    /// An assistant message that asks for tool calls.
    pub fn tool(tool_calls: Vec<ToolCall>) -> (m: Self)
        ensures
            m.role@ == "assistant"@,
            m.content@ == Seq::<char>::empty(),
            m.tool_calls == Some(tool_calls),
            m.tool_call_id is None,
            m.image_data_url is None,
    {
        LlmMessage {
            role: owned("assistant"),
            content: String::new(),
            tool_calls: Some(tool_calls),
            tool_call_id: None,
            image_data_url: None,
        }
    }

    /// The result of a tool call (role `tool`).
    pub fn tool_result(tool_call_id: String, content: String) -> (m: Self)
        ensures
            m.role@ == "tool"@,
            m.content == content,
            m.tool_calls is None,
            m.tool_call_id == Some(tool_call_id),
            m.image_data_url is None,
    {
        LlmMessage {
            role: owned("tool"),
            content,
            tool_calls: None,
            tool_call_id: Some(tool_call_id),
            image_data_url: None,
        }
    }

    /// A user message carrying an image for the current request only.
    pub fn user_with_image(content: String, image_data_url: String) -> (m: Self)
        ensures
            m.role@ == "user"@,
            m.content == content,
            m.tool_calls is None,
            m.tool_call_id is None,
            m.image_data_url == Some(image_data_url),
    {
        LlmMessage {
            role: owned("user"),
            content,
            tool_calls: None,
            tool_call_id: None,
            image_data_url: Some(image_data_url),
        }
    }
}

// ==========================================
// Script lines
// ==========================================

/// Who a stored line belongs to.
#[derive(Clone, Copy, Debug, PartialEq, Eq, Structural)]
pub enum LineAttribute {
    User,
    System,
    Assistant,
    Tool,
}

pub open spec fn line_attribute_name(a: LineAttribute) -> Seq<char> {
    match a {
        LineAttribute::User => "user"@,
        LineAttribute::System => "system"@,
        LineAttribute::Assistant => "assistant"@,
        LineAttribute::Tool => "tool"@,
    }
}

/// A line attribute that defaults to `System`.
#[derive(Clone, Copy, Debug, PartialEq, Eq, Structural)]
pub struct LineAttributeExt(pub LineAttribute);

impl LineAttributeExt {
    pub fn default_value() -> (r: Self)
        ensures
            r.0 == LineAttribute::System,
    {
        LineAttributeExt(LineAttribute::System)
    }

    pub fn inner(&self) -> (r: &LineAttribute)
        ensures
            *r == self.0,
    {
        &self.0
    }

    pub fn as_str(&self) -> (r: &'static str)
        ensures
            r@ == line_attribute_name(self.0),
    {
        match &self.0 {
            LineAttribute::User => "user",
            LineAttribute::System => "system",
            LineAttribute::Assistant => "assistant",
            LineAttribute::Tool => "tool",
        }
    }
}

impl Default for LineAttributeExt {
    fn default() -> (r: Self)
        ensures
            r.0 == LineAttribute::System,
    {
        LineAttributeExt(LineAttribute::System)
    }
}

#[derive(Clone, Debug)]
pub struct LineBase {
    pub id: Option<i32>,
    pub content: String,
    pub original_emotion: Option<String>,
    pub predicted_emotion: Option<String>,
    pub tts_content: Option<String>,
    pub action_content: Option<String>,
    pub audio_file: Option<String>,
    /// The reasoning chain of the turn (only on its last assistant line).
    pub thinking: Option<String>,
    pub tool_call: Option<String>,
    pub attribute: LineAttributeExt,
    pub sender_role_id: Option<i32>,
    pub display_name: Option<String>,
}

/// A script line as it moves through memory.
#[derive(Clone, Debug)]
pub struct GameLine {
    pub base: LineBase,
    pub perceived_role_ids: Vec<i32>,
}

impl GameLine {
    pub fn from_base(base: LineBase, perceived_role_ids: Vec<i32>) -> (r: Self)
        ensures
            r.base == base,
            r.perceived_role_ids == perceived_role_ids,
    {
        GameLine { base, perceived_role_ids }
    }

    pub fn content(&self) -> (r: &str)
        ensures
            r@ == self.base.content@,
    {
        self.base.content.as_str()
    }

    pub fn sender_role_id(&self) -> (r: Option<i32>)
        ensures
            r == self.base.sender_role_id,
    {
        self.base.sender_role_id
    }

    pub fn attribute(&self) -> (r: &LineAttribute)
        ensures
            *r == self.base.attribute.0,
    {
        self.base.attribute.inner()
    }
}

// ==========================================
// Memory bank
// ==========================================

#[derive(Clone, Debug)]
pub struct GameMemoryBankMeta {
    pub last_processed_global_idx: i64,
    pub updated_at: String,
}

#[derive(Clone, Debug)]
pub struct GameMemoryBankData {
    pub short_term: String,
    pub long_term: String,
    pub user_info: String,
    pub promises: String,
}

#[derive(Clone, Debug)]
pub struct GameMemoryBank {
    pub schema_version: u32,
    pub meta: GameMemoryBankMeta,
    pub data: GameMemoryBankData,
}

/// The schema version a memory bank has when the field is missing.
pub fn default_schema_version() -> (r: u32)
    ensures
        r == 1,
{
    1
}

pub open spec fn memory_bank_prompt(d: GameMemoryBankData) -> Seq<char> {
    "\n\n====== 核心记忆库 (Memory Bank) ======\n【用户信息】："@ + d.user_info@
        + "\n【重要约定】："@ + d.promises@ + "\n【长期经历】："@ + d.long_term@
        + "\n【近期回顾】："@ + d.short_term@ + "\n====================================\n"@
}

impl GameMemoryBank {
    /// The memory bank rendered as a block of the system prompt.
    pub fn to_prompt_text(&self) -> (r: String)
        ensures
            r@ == memory_bank_prompt(self.data),
    {
        let mut r = concat3(
            "\n\n====== 核心记忆库 (Memory Bank) ======\n【用户信息】：",
            self.data.user_info.as_str(),
            "\n【重要约定】：",
        );
        r.append(self.data.promises.as_str());
        r.append("\n【长期经历】：");
        r.append(self.data.long_term.as_str());
        r.append("\n【近期回顾】：");
        r.append(self.data.short_term.as_str());
        r.append("\n====================================\n");
        r
    }
}

// ==========================================
// Player
// ==========================================

#[derive(Clone, Debug)]
pub struct Player {
    pub user_name: String,
    pub user_subtitle: String,
    pub user_prompt: String,
}

} // verus!
