//! The `directory_tree` request: its parameters, its errors, and how the
//! outcome of the directory read becomes its result.
use vstd::prelude::*;

use crate::listing::{items_of, listing_items, listing_text, render_listing, DirEntryInfo};

verus! {

/// What kind of failure the path-access guard reported.
#[derive(PartialEq, Eq, Structural, Clone, Copy, Debug)]
pub enum AccessErrorKind {
    InvalidPath,
    OutsideAllowedRoots,
    NotFound,
    NotADirectory,
    AccessDenied,
    Io,
}

/// A failure of the path-access guard, with its human-readable cause.
#[derive(Clone, Debug)]
pub struct AccessError {
    pub kind: AccessErrorKind,
    pub message: String,
}

/// The failure of a `directory_tree` request.
#[derive(Clone, Debug)]
pub enum ToolError {
    /// The guard refused the path or could not read the directory.
    Access(AccessError),
    /// The listing could not be encoded.
    Serialization,
}

/// The text that the failure of a request carries for a serialization
/// failure.
pub open spec fn serialization_message() -> Seq<char> {
    "the directory listing could not be encoded as JSON"@
}

impl ToolError {
    /// The human-readable cause: the guard's own message, unchanged.
    pub fn message(&self) -> (r: String)
        ensures
            self matches ToolError::Access(e) ==> r@ == e.message@,
            self matches ToolError::Serialization ==> r@ == serialization_message(),
    {
        match self {
            ToolError::Access(e) => e.message.clone(),
            ToolError::Serialization => String::from_str(
                "the directory listing could not be encoded as JSON",
            ),
        }
    }
}

#[verifier::external_type_specification]
#[verifier::external_body]
pub struct ExCallToolResult(rust_mcp_schema::CallToolResult);

/// The successful tool result whose one text block holds `text`.
pub uninterp spec fn text_result_of(text: Seq<char>) -> rust_mcp_schema::CallToolResult;

/// Relies on rust_mcp_schema's `CallToolResult::text_content` and
/// `TextContent::from`: the successful tool result with one text block,
/// built from the text alone.
#[verifier::external_body]
fn text_result(text: String) -> (r: rust_mcp_schema::CallToolResult)
    ensures
        r == text_result_of(text@),
{
    rust_mcp_schema::CallToolResult::text_content(vec![rust_mcp_schema::TextContent::from(text)])
}

/// The parameters of a `directory_tree` request: the absolute path of the
/// directory to list, handed to the path-access guard as given.
#[derive(Clone, Debug)]
pub struct DirectoryTreeTool {
    pub path: String,
}

impl DirectoryTreeTool {
    /// The pretty-printed JSON listing of the entries that the guard read
    /// for a request's `path`, one object per entry and in the guard's
    /// order; the call fails exactly when the guard failed, with the
    /// guard's error unchanged.
    pub fn run_tool(listed: Result<Vec<DirEntryInfo>, AccessError>) -> (r: Result<
        String,
        ToolError,
    >)
        ensures
            listed matches Err(e) ==> r == Err::<String, ToolError>(ToolError::Access(e)),
            listed matches Ok(es) ==> (r matches Ok(s) && s@ == listing_text(
                items_of(es@.map_values(|e: DirEntryInfo| e@)),
            )),
    {
        match listed {
            Err(e) => Err(ToolError::Access(e)),
            Ok(entries) => {
                let items = listing_items(&entries);
                render_listing(&items)
            },
        }
    }

    /// The listing of `run_tool`, wrapped as a successful tool result with
    /// one text block; a failure of the guard comes back unchanged.
    pub fn call_result(listed: Result<Vec<DirEntryInfo>, AccessError>) -> (r: Result<
        rust_mcp_schema::CallToolResult,
        ToolError,
    >)
        ensures
            listed matches Err(e) ==> (r matches Err(f) && f == ToolError::Access(e)),
            listed matches Ok(es) ==> (r matches Ok(c) && c == text_result_of(
                listing_text(items_of(es@.map_values(|e: DirEntryInfo| e@))),
            )),
    {
        match Self::run_tool(listed) {
            Ok(text) => Ok(text_result(text)),
            Err(e) => Err(e),
        }
    }
}

} // verus!
