use crate::types::{
    prefixed, McpContentItem, McpError, McpPromptContent, McpPromptGetResponse, McpPromptMessage,
    McpResourceContent, McpResourceReadResponse, McpToolCallResponse,
};
use vstd::prelude::*;
use vstd::string::StringExecFns;

verus! {

/// One content item as a server sends it, before it is brought into the library's shape.
#[derive(Debug, PartialEq, Eq)]
#[allow(inconsistent_fields)]
pub enum RemoteContent {
    Text { text: String },
    Image { data: String, mime_type: String },
    /// A resource embedded in the message, with its contents left out.
    EmbeddedResource { uri: String, mime_type: Option<String> },
    ResourceLink { uri: String, mime_type: Option<String> },
    Audio,
    /// An item of a kind that this library does not know.
    Unsupported,
}

/// What a server returned for a tool call.
#[derive(Debug, PartialEq, Eq)]
pub struct RemoteToolResult {
    pub content: Vec<RemoteContent>,
    pub is_error: Option<bool>,
}

/// One part of a resource as a server sends it.
#[derive(Debug, PartialEq, Eq)]
#[allow(inconsistent_fields)]
pub enum RemoteResourceContents {
    Text { uri: String, text: String, mime_type: Option<String> },
    Blob { uri: String, blob: String, mime_type: Option<String> },
}

/// Who speaks a prompt message.
#[derive(Debug, Clone, Copy, PartialEq, Eq, Structural)]
pub enum PromptRole {
    User,
    Assistant,
}

/// One prompt message as a server sends it.
#[derive(Debug, PartialEq, Eq)]
pub struct RemotePromptMessage {
    pub role: PromptRole,
    pub content: RemoteContent,
}

/// The name under which a role is reported.
pub open spec fn role_name(role: PromptRole) -> Seq<char> {
    match role {
        PromptRole::User => "user"@,
        PromptRole::Assistant => "assistant"@,
    }
}

/// `item` is what the tool result item `c` becomes: resources and links keep their uri and
/// type, kinds without a counterpart become a placeholder text.
pub open spec fn converts_to_item(c: RemoteContent, item: McpContentItem) -> bool {
    match c {
        RemoteContent::Text { text } => item == McpContentItem::Text { text },
        RemoteContent::Image { data, mime_type } => item == McpContentItem::Image { data, mime_type },
        RemoteContent::EmbeddedResource { uri, mime_type } => item == McpContentItem::Resource { uri, mime_type },
        RemoteContent::ResourceLink { uri, mime_type } => item == McpContentItem::Resource { uri, mime_type },
        RemoteContent::Audio => item matches McpContentItem::Text { text } && text@ == "[Audio content]"@,
        RemoteContent::Unsupported => item matches McpContentItem::Text { text } && text@ == "[Unsupported content]"@,
    }
}

/// `pc` is what the prompt message content `c` becomes: embedded resources and links both
/// collapse to their uri, kinds without a counterpart become a placeholder text.
pub open spec fn converts_to_prompt_content(c: RemoteContent, pc: McpPromptContent) -> bool {
    match c {
        RemoteContent::Text { text } => pc == McpPromptContent::Text { text },
        RemoteContent::Image { data, mime_type } => pc == McpPromptContent::Image { data, mime_type },
        RemoteContent::EmbeddedResource { uri, .. } => pc == McpPromptContent::Resource { uri },
        RemoteContent::ResourceLink { uri, .. } => pc == McpPromptContent::Resource { uri },
        RemoteContent::Audio => pc matches McpPromptContent::Text { text } && text@ == "[Audio content]"@,
        RemoteContent::Unsupported => pc matches McpPromptContent::Text { text } && text@ == "[Unsupported content]"@,
    }
}

/// `r` is what the resource part `c` becomes: a blob without a stated type gets the empty type.
pub open spec fn converts_to_resource_content(c: RemoteResourceContents, r: McpResourceContent) -> bool {
    match c {
        RemoteResourceContents::Text { uri, text, mime_type } => r == McpResourceContent::Text { uri, text, mime_type },
        RemoteResourceContents::Blob { uri, blob, mime_type } => match mime_type {
            Some(m) => r == McpResourceContent::Blob { uri, blob, mime_type: m },
            None => r matches McpResourceContent::Blob { uri: u, blob: b, mime_type: m } && u == uri && b == blob && m@.len() == 0,
        },
    }
}

/// Brings one tool result item into the library's shape.
pub fn content_item(c: RemoteContent) -> (item: McpContentItem)
    ensures
        converts_to_item(c, item),
{
    match c {
        RemoteContent::Text { text } => McpContentItem::Text { text },
        RemoteContent::Image { data, mime_type } => McpContentItem::Image { data, mime_type },
        RemoteContent::EmbeddedResource { uri, mime_type } => McpContentItem::Resource { uri, mime_type },
        RemoteContent::ResourceLink { uri, mime_type } => McpContentItem::Resource { uri, mime_type },
        RemoteContent::Audio => McpContentItem::Text { text: String::from_str("[Audio content]") },
        RemoteContent::Unsupported => McpContentItem::Text { text: String::from_str("[Unsupported content]") },
    }
}

/// Brings the content of one prompt message into the library's shape.
pub fn prompt_content(c: RemoteContent) -> (pc: McpPromptContent)
    ensures
        converts_to_prompt_content(c, pc),
{
    match c {
        RemoteContent::Text { text } => McpPromptContent::Text { text },
        RemoteContent::Image { data, mime_type } => McpPromptContent::Image { data, mime_type },
        RemoteContent::EmbeddedResource { uri, .. } => McpPromptContent::Resource { uri },
        RemoteContent::ResourceLink { uri, .. } => McpPromptContent::Resource { uri },
        RemoteContent::Audio => McpPromptContent::Text { text: String::from_str("[Audio content]") },
        RemoteContent::Unsupported => McpPromptContent::Text { text: String::from_str("[Unsupported content]") },
    }
}

/// Brings one resource part into the library's shape.
pub fn resource_content(c: RemoteResourceContents) -> (r: McpResourceContent)
    ensures
        converts_to_resource_content(c, r),
{
    match c {
        RemoteResourceContents::Text { uri, text, mime_type } => McpResourceContent::Text { uri, text, mime_type },
        RemoteResourceContents::Blob { uri, blob, mime_type } => {
            let mime_type = match mime_type {
                Some(m) => m,
                None => String::new(),
            };
            McpResourceContent::Blob { uri, blob, mime_type }
        },
    }
}

/// The role name of a prompt message: `"user"` or `"assistant"`.
pub fn role_string(role: PromptRole) -> (r: String)
    ensures
        r@ == role_name(role),
{
    match role {
        PromptRole::User => String::from_str("user"),
        PromptRole::Assistant => String::from_str("assistant"),
    }
}

/// The library's response to a tool call that came back with `result`, or the error for a
/// call that failed with `failure`; a tool that reports its own failure is no error but a
/// response with `is_error` set.
pub fn tool_call_outcome(outcome: Result<RemoteToolResult, String>) -> (r: Result<McpToolCallResponse, McpError>)
    ensures
        match outcome {
            Ok(res) => r matches Ok(resp) && resp.is_error == (res.is_error == Some(true))
                && resp.content@.len() == res.content@.len()
                && forall|i: int| 0 <= i < res.content@.len() ==> converts_to_item(#[trigger] res.content@[i], resp.content@[i]),
            Err(d) => r matches Err(McpError::ToolExecutionError(m)) && m@ == "Tool execution failed: "@ + d@,
        },
{
    match outcome {
        Err(d) => Err(McpError::ToolExecutionError(prefixed("Tool execution failed: ", d.as_str()))),
        Ok(res) => {
            let RemoteToolResult { content, is_error } = res;
            let ghost src = content@;
            let mut items: Vec<McpContentItem> = Vec::new();
            let mut rest = content;
            while rest.len() > 0
                invariant
                    items@.len() <= src.len(),
                    rest@ == src.subrange(items@.len() as int, src.len() as int),
                    forall|i: int| 0 <= i < items@.len() ==> converts_to_item(#[trigger] src[i], items@[i]),
                decreases rest@.len(),
            {
                assert(rest@.len() > 0);
                let ghost n = items@.len();
                let c = rest.remove(0);
                assert(c == src[n as int]);
                items.push(content_item(c));
                assert(rest@ =~= src.subrange(items@.len() as int, src.len() as int));
            }
            let is_error = match is_error {
                Some(b) => b,
                None => false,
            };
            Ok(McpToolCallResponse { content: items, is_error })
        },
    }
}

/// The library's contents for a resource read that came back with `parts`, or the error
/// for a read that failed.
pub fn read_resource_outcome(outcome: Result<Vec<RemoteResourceContents>, String>) -> (r: Result<McpResourceReadResponse, McpError>)
    ensures
        match outcome {
            Ok(parts) => r matches Ok(resp) && resp.contents@.len() == parts@.len()
                && forall|i: int| 0 <= i < parts@.len() ==> converts_to_resource_content(#[trigger] parts@[i], resp.contents@[i]),
            Err(d) => r matches Err(McpError::ProtocolError(m)) && m@ == "Resource read failed: "@ + d@,
        },
{
    match outcome {
        Err(d) => Err(McpError::ProtocolError(prefixed("Resource read failed: ", d.as_str()))),
        Ok(parts) => {
            let ghost src = parts@;
            let mut contents: Vec<McpResourceContent> = Vec::new();
            let mut rest = parts;
            while rest.len() > 0
                invariant
                    contents@.len() <= src.len(),
                    rest@ == src.subrange(contents@.len() as int, src.len() as int),
                    forall|i: int| 0 <= i < contents@.len() ==> converts_to_resource_content(#[trigger] src[i], contents@[i]),
                decreases rest@.len(),
            {
                assert(rest@.len() > 0);
                let ghost n = contents@.len();
                let c = rest.remove(0);
                assert(c == src[n as int]);
                contents.push(resource_content(c));
                assert(rest@ =~= src.subrange(contents@.len() as int, src.len() as int));
            }
            Ok(McpResourceReadResponse { contents })
        },
    }
}

/// The library's rendering of a prompt that came back with `messages`, or the error for a
/// request that failed.
pub fn get_prompt_outcome(outcome: Result<Vec<RemotePromptMessage>, String>) -> (r: Result<McpPromptGetResponse, McpError>)
    ensures
        match outcome {
            Ok(msgs) => r matches Ok(resp) && resp.messages@.len() == msgs@.len()
                && forall|i: int| 0 <= i < msgs@.len() ==> (#[trigger] resp.messages@[i]).role@ == role_name(msgs@[i].role)
                    && converts_to_prompt_content(msgs@[i].content, resp.messages@[i].content),
            Err(d) => r matches Err(McpError::ProtocolError(m)) && m@ == "Prompt get failed: "@ + d@,
        },
{
    match outcome {
        Err(d) => Err(McpError::ProtocolError(prefixed("Prompt get failed: ", d.as_str()))),
        Ok(msgs) => {
            let ghost src = msgs@;
            let mut messages: Vec<McpPromptMessage> = Vec::new();
            let mut rest = msgs;
            while rest.len() > 0
                invariant
                    messages@.len() <= src.len(),
                    rest@ == src.subrange(messages@.len() as int, src.len() as int),
                    forall|i: int| 0 <= i < messages@.len() ==> (#[trigger] messages@[i]).role@ == role_name(src[i].role)
                        && converts_to_prompt_content(src[i].content, messages@[i].content),
                decreases rest@.len(),
            {
                assert(rest@.len() > 0);
                let ghost n = messages@.len();
                let m = rest.remove(0);
                assert(m == src[n as int]);
                let RemotePromptMessage { role, content } = m;
                messages.push(McpPromptMessage { role: role_string(role), content: prompt_content(content) });
                assert(rest@ =~= src.subrange(messages@.len() as int, src.len() as int));
            }
            Ok(McpPromptGetResponse { messages })
        },
    }
}

} // verus!
