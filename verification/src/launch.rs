use vstd::prelude::*;
use vstd::string::StringExecFns;
use crate::uri::uri_text;

verus! {

/// The rule that tells the host which documents go to the backend.
#[derive(Debug, Clone, PartialEq, Eq)]
pub struct DocumentRule {
    /// The language id of the documents.
    pub language: String,
    /// The glob that the documents' paths match.
    pub pattern: String,
}

/// What is handed to the host's start operation.
#[derive(Debug, PartialEq, Eq)]
pub struct LaunchDescriptor {
    /// The backend's executable.
    pub uri: url::Url,
    /// The launch arguments, in order.
    pub args: Vec<String>,
    /// Which documents go to the backend.
    pub selector: DocumentRule,
    /// The host's configuration, as it was received.
    pub options: Option<serde_json::Value>,
}

/// A launch descriptor as plain data. The URI stands with its serialization;
/// the options are the host's value itself.
pub struct LaunchModel {
    pub uri: Seq<char>,
    pub args: Seq<Seq<char>>,
    pub language: Seq<char>,
    pub pattern: Seq<char>,
    pub options: Option<serde_json::Value>,
}

impl View for LaunchDescriptor {
    type V = LaunchModel;

    open spec fn view(&self) -> LaunchModel {
        LaunchModel {
            uri: uri_text(self.uri),
            args: self.args.deep_view(),
            language: self.selector.language@,
            pattern: self.selector.pattern@,
            options: self.options,
        }
    }
}

/// The language id of the documents that the backend serves.
pub open spec fn language_id() -> Seq<char> {
    "java"@
}

/// The glob of the documents that the backend serves: every file with the
/// language's extension, at any depth.
pub open spec fn document_pattern() -> Seq<char> {
    "**/*.java"@
}

/// The launch of a backend with given arguments and options, under the fixed
/// document rule.
pub open spec fn launch_of(
    uri: Seq<char>,
    args: Seq<Seq<char>>,
    options: Option<serde_json::Value>,
) -> LaunchModel {
    LaunchModel { uri, args, language: language_id(), pattern: document_pattern(), options }
}

/// The fixed document rule.
pub fn document_rule() -> (rule: DocumentRule)
    ensures
        rule.language@ == language_id(),
        rule.pattern@ == document_pattern(),
{
    DocumentRule { language: String::from_str("java"), pattern: String::from_str("**/*.java") }
}

/// Assembles the launch descriptor. The URI, the arguments and the options
/// go in as they are.
pub fn compose_launch(
    uri: url::Url,
    args: Vec<String>,
    options: Option<serde_json::Value>,
) -> (descriptor: LaunchDescriptor)
    ensures
        descriptor.uri == uri,
        descriptor.args == args,
        descriptor.options == options,
        descriptor@ == launch_of(uri_text(uri), args.deep_view(), options),
{
    LaunchDescriptor { uri, args, selector: document_rule(), options }
}

} // verus!
