//! The library's error kinds and their messages.

use crate::text::push_str;
use vstd::prelude::*;

verus! {

/// Errors of sat-hx-ide; the last three carry the message of an I/O, TOML
/// or JSON error.
#[derive(Debug, Clone)]
pub enum HxIdeError {
    ConfigError(String),
    ToolNotFound(String),
    ToolExecutionFailed(String),
    LayoutNotFound(String),
    InvalidLayout(String),
    WorkspaceError(String),
    ZellijError(String),
    IoError(String),
    TomlError(String),
    JsonError(String),
}

pub open spec fn hx_error_message(e: HxIdeError) -> Seq<char> {
    match e {
        HxIdeError::ConfigError(s) => "Configuration error: "@ + s@,
        HxIdeError::ToolNotFound(s) => "Tool not found: "@ + s@,
        HxIdeError::ToolExecutionFailed(s) => "Tool execution failed: "@ + s@,
        HxIdeError::LayoutNotFound(s) => "Layout not found: "@ + s@,
        HxIdeError::InvalidLayout(s) => "Invalid layout definition: "@ + s@,
        HxIdeError::WorkspaceError(s) => "Workspace error: "@ + s@,
        HxIdeError::ZellijError(s) => "Zellij error: "@ + s@,
        HxIdeError::IoError(s) => "IO error: "@ + s@,
        HxIdeError::TomlError(s) => "TOML parsing error: "@ + s@,
        HxIdeError::JsonError(s) => "JSON error: "@ + s@,
    }
}

impl HxIdeError {
    /// Whether the error is due to a missing tool.
    pub fn is_tool_not_found(&self) -> (res: bool)
        ensures
            res == (self is ToolNotFound),
    {
        match self {
            HxIdeError::ToolNotFound(_) => true,
            _ => false,
        }
    }

    /// The text the error is shown with.
    pub fn message(&self) -> (res: String)
        ensures
            res@ == hx_error_message(*self),
    {
        let (prefix, detail) = match self {
            HxIdeError::ConfigError(s) => ("Configuration error: ", s),
            HxIdeError::ToolNotFound(s) => ("Tool not found: ", s),
            HxIdeError::ToolExecutionFailed(s) => ("Tool execution failed: ", s),
            HxIdeError::LayoutNotFound(s) => ("Layout not found: ", s),
            HxIdeError::InvalidLayout(s) => ("Invalid layout definition: ", s),
            HxIdeError::WorkspaceError(s) => ("Workspace error: ", s),
            HxIdeError::ZellijError(s) => ("Zellij error: ", s),
            HxIdeError::IoError(s) => ("IO error: ", s),
            HxIdeError::TomlError(s) => ("TOML parsing error: ", s),
            HxIdeError::JsonError(s) => ("JSON error: ", s),
        };
        let mut out = String::new();
        push_str(&mut out, prefix);
        push_str(&mut out, detail.as_str());
        out
    }
}

} // verus!
