//! The error types of the terminal, context, model and syntax-tree
//! subsystems, and their conversion into application errors.
//!
//! Each error has a display text; converting it makes an application error
//! with that text, or with a context message around it.
use vstd::prelude::*;
use crate::terminal::types::PaneId;
use crate::text::{chars_of, decimal, owned, push_decimal, push_str, string_of};
use crate::utils::error::{error_cause_display, error_display, error_from_message, error_with_context};

verus! {

/// A failure of the terminal layer.
#[derive(Debug, Clone, PartialEq, Eq)]
pub enum TerminalError {
    /// a configuration problem
    Config(String),
}

impl TerminalError {
    pub fn config(message: &str) -> (r: Self)
        ensures
            r matches TerminalError::Config(m) && m@ == message@,
    {
        TerminalError::Config(owned(message))
    }

    /// The display text.
    pub fn message(&self) -> (r: String)
        ensures
            r@ == terminal_error_text(*self),
    {
        match self {
            TerminalError::Config(m) => {
                let mut s = owned("配置错误: ");
                push_str(&mut s, m.as_str());
                s
            },
        }
    }
}

pub open spec fn terminal_error_text(e: TerminalError) -> Seq<char> {
    match e {
        TerminalError::Config(m) => "配置错误: "@ + m@,
    }
}

/// A failure while gathering a pane's context.
#[derive(Debug)]
pub enum ContextError {
    /// no pane has this id
    PaneNotFound { pane_id: PaneId },
    /// no pane is active
    NoActivePane,
    /// an underlying error
    Internal { source: anyhow::Error },
}

impl ContextError {
    /// The display text of the errors that have one of their own (an
    /// internal error shows the text of its source).
    pub fn message(&self) -> (r: Option<String>)
        ensures
            match *self {
                ContextError::Internal { .. } => r is None,
                _ => r matches Some(t) && t@ == context_error_text(*self),
            },
    {
        match self {
            ContextError::PaneNotFound { pane_id } => {
                let mut out = chars_of("面板不存在: ");
                push_decimal(&mut out, pane_id.0 as u64);
                Some(string_of(&out))
            },
            ContextError::NoActivePane => Some(owned("没有活跃的终端面板")),
            ContextError::Internal { .. } => None,
        }
    }
}

pub open spec fn context_error_text(e: ContextError) -> Seq<char> {
    match e {
        ContextError::PaneNotFound { pane_id } => "面板不存在: "@ + decimal(pane_id.0 as nat),
        ContextError::NoActivePane => "没有活跃的终端面板"@,
        ContextError::Internal { .. } => Seq::empty(),
    }
}

/// A failure of a language-model provider.
#[derive(Debug, Clone, PartialEq, Eq)]
pub enum LLMError {
    /// the model is not configured
    ModelNotFound(String),
    /// the provider reported an error
    Provider(String),
}

pub open spec fn llm_error_text(e: LLMError) -> Seq<char> {
    match e {
        LLMError::ModelNotFound(m) => "LLM模型未找到: "@ + m@,
        LLMError::Provider(m) => "LLM提供商错误: "@ + m@,
    }
}

impl LLMError {
    pub fn message(&self) -> (r: String)
        ensures
            r@ == llm_error_text(*self),
    {
        let (head, m) = match self {
            LLMError::ModelNotFound(m) => ("LLM模型未找到: ", m),
            LLMError::Provider(m) => ("LLM提供商错误: ", m),
        };
        let mut s = owned(head);
        push_str(&mut s, m.as_str());
        s
    }
}

/// A failure while reading a syntax tree.
#[derive(Debug, Clone, PartialEq, Eq)]
pub enum AstError {
    /// the source file does not exist
    FileNotFound(String),
    /// the source did not parse
    ParseError(String),
}

pub open spec fn ast_error_text(e: AstError) -> Seq<char> {
    match e {
        AstError::FileNotFound(p) => "AST解析：文件不存在: "@ + p@,
        AstError::ParseError(m) => "AST解析：解析错误: "@ + m@,
    }
}

impl AstError {
    pub fn message(&self) -> (r: String)
        ensures
            r@ == ast_error_text(*self),
    {
        let (head, m) = match self {
            AstError::FileNotFound(p) => ("AST解析：文件不存在: ", p),
            AstError::ParseError(m) => ("AST解析：解析错误: ", m),
        };
        let mut s = owned(head);
        push_str(&mut s, m.as_str());
        s
    }
}

/// An application error showing the terminal error's text.
pub fn convert_terminal_error(err: TerminalError) -> (r: anyhow::Error)
    ensures
        error_display(r) == terminal_error_text(err),
{
    error_from_message(err.message())
}

/// An application error for a context error: an internal error is its
/// source, unchanged; the others show their text.
pub fn convert_context_error(err: ContextError) -> (r: anyhow::Error)
    ensures
        err matches ContextError::Internal { source } ==> r == source,
        !(err is Internal) ==> error_display(r) == context_error_text(err),
{
    match err {
        ContextError::Internal { source } => source,
        other => {
            let text = match other.message() {
                Some(t) => t,
                None => String::new(),
            };
            error_from_message(text)
        },
    }
}

/// An application error showing the model error's text.
pub fn convert_llm_error(err: LLMError) -> (r: anyhow::Error)
    ensures
        error_display(r) == llm_error_text(err),
{
    error_from_message(err.message())
}

/// An application error showing the syntax-tree error's text.
pub fn convert_ast_error(err: AstError) -> (r: anyhow::Error)
    ensures
        error_display(r) == ast_error_text(err),
{
    error_from_message(err.message())
}

/// The terminal error under a context message.
pub fn terminal_error_with_context(err: TerminalError, context: &str) -> (r: anyhow::Error)
    ensures
        error_display(r) == context@,
        error_cause_display(r) == Some(terminal_error_text(err)),
{
    error_with_context(convert_terminal_error(err), owned(context))
}

/// The context error under a context message.
pub fn context_error_with_context(err: ContextError, context: &str) -> (r: anyhow::Error)
    ensures
        error_display(r) == context@,
        !(err is Internal) ==> error_cause_display(r) == Some(context_error_text(err)),
        err matches ContextError::Internal { source } ==> error_cause_display(r) == Some(
            error_display(source),
        ),
{
    error_with_context(convert_context_error(err), owned(context))
}

/// The model error under a context message.
pub fn llm_error_with_context(err: LLMError, context: &str) -> (r: anyhow::Error)
    ensures
        error_display(r) == context@,
        error_cause_display(r) == Some(llm_error_text(err)),
{
    error_with_context(convert_llm_error(err), owned(context))
}

/// The syntax-tree error under a context message.
pub fn ast_error_with_context(err: AstError, context: &str) -> (r: anyhow::Error)
    ensures
        error_display(r) == context@,
        error_cause_display(r) == Some(ast_error_text(err)),
{
    error_with_context(convert_ast_error(err), owned(context))
}

/// Hands the error back unchanged, so that a failed operation can be
/// reported on its way out; writing the report is the caller's logger's.
pub fn log_and_return_error(err: anyhow::Error, operation: &str) -> (r: anyhow::Error)
    ensures
        r == err,
{
    err
}

/// Reporting an error on its way out of an operation.
pub trait LogError: Sized {
    fn log_error(self, operation: &str) -> Self;
}

impl LogError for anyhow::Error {
    /// The error itself, unchanged.
    fn log_error(self, operation: &str) -> (r: Self)
        ensures
            r == self,
    {
        log_and_return_error(self, operation)
    }
}

} // verus!
