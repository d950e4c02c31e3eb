//! Error values of the application and input checks.
//!
//! Errors travel as `anyhow::Error`; at the command boundary they become
//! their display text.
use vstd::prelude::*;
use crate::text::{chars_of, int_text, owned, push_int, push_str, string_of, trim, trim_chars};

verus! {

/// `anyhow::Error`, carried through unchanged.
#[verifier::external_type_specification]
#[verifier::external_body]
pub struct ExAnyhowError(anyhow::Error);

/// The result type of the application's fallible operations.
pub type AppResult<T> = Result<T, anyhow::Error>;

/// A command's result, with the error as text.
pub type TauriResult<T> = Result<T, String>;

/// The display text of an error (`Display` of `anyhow::Error`: the
/// outermost message).
pub uninterp spec fn error_display(e: anyhow::Error) -> Seq<char>;

/// The display text of the error that an error wraps (the next one in its
/// chain), if it wraps one.
pub uninterp spec fn error_cause_display(e: anyhow::Error) -> Option<Seq<char>>;

/// Makes an error whose display text is `message` (`anyhow::Error::msg`,
/// which displays the message it was given).
#[verifier::external_body]
pub(crate) fn error_from_message(message: String) -> (r: anyhow::Error)
    ensures
        error_display(r) == message@,
{
    anyhow::Error::msg(message)
}

/// Wraps an error in a context message (`anyhow::Error::context`): the
/// result displays as the context, and the next error of its chain is the
/// wrapped one.
#[verifier::external_body]
pub(crate) fn error_with_context(err: anyhow::Error, context: String) -> (r: anyhow::Error)
    ensures
        error_display(r) == context@,
        error_cause_display(r) == Some(error_display(err)),
{
    err.context(context)
}

/// The display text of an error (`ToString` on `anyhow::Error`).
#[verifier::external_body]
pub(crate) fn error_text(err: &anyhow::Error) -> (r: String)
    ensures
        r@ == error_display(*err),
{
    err.to_string()
}

/// An application error with the given message.
pub fn app_error(msg: String) -> (r: anyhow::Error)
    ensures
        error_display(r) == msg@,
{
    error_from_message(msg)
}

/// The text of an error met in a context: `{msg}: {detail}`.
pub open spec fn context_text(msg: Seq<char>, detail: Seq<char>) -> Seq<char> {
    msg + ": "@ + detail
}

/// The message of an error met in a context, from the context and the
/// error's display text.
pub fn context_message(msg: &str, detail: &str) -> (r: String)
    ensures
        r@ == context_text(msg@, detail@),
{
    let mut m = owned(msg);
    push_str(&mut m, ": ");
    push_str(&mut m, detail);
    m
}

/// An application error for an error met in a context: its text is
/// `{msg}: {detail}`, with the error's display text as `detail`.
pub fn app_error_with_context(msg: &str, detail: &str) -> (r: anyhow::Error)
    ensures
        error_display(r) == context_text(msg@, detail@),
{
    app_error(context_message(msg, detail))
}

/// Turns an application result into a command result: the value is kept,
/// an error becomes its display text.
pub fn to_tauri_result<T>(result: AppResult<T>) -> (r: Result<T, String>)
    ensures
        r is Ok <==> result is Ok,
        result matches Ok(v) ==> r == Ok::<T, String>(v),
        result matches Err(e) ==> (r matches Err(m) && m@ == error_display(e)),
{
    match result {
        Ok(v) => Ok(v),
        Err(e) => Err(error_text(&e)),
    }
}

/// Conversion of a result for a command's answer.
pub trait ToTauriResult<T>: Sized {
    fn to_tauri(self) -> Result<T, String>;
}

impl<T> ToTauriResult<T> for AppResult<T> {
    fn to_tauri(self) -> (r: Result<T, String>)
        ensures
            r is Ok <==> self is Ok,
            self matches Ok(v) ==> r == Ok::<T, String>(v),
            self matches Err(e) ==> (r matches Err(m) && m@ == error_display(e)),
    {
        to_tauri_result(self)
    }
}

/// Checks of command inputs.
pub struct Validator;

impl Validator {
    /// An id must be positive: else `Invalid {name}: {id}`.
    pub fn validate_id(id: i64, name: &str) -> (r: Result<(), String>)
        ensures
            r is Ok <==> id > 0,
            r matches Err(m) ==> m@ == "Invalid "@ + name@ + ": "@ + int_text(id as int),
    {
        if id <= 0 {
            let mut out = chars_of("Invalid ");
            let n = chars_of(name);
            let mut i: usize = 0;
            let ghost start = out@;
            while i < n.len()
                invariant
                    i <= n@.len(),
                    out@ == start + n@.take(i as int),
                decreases n.len() - i,
            {
                out.push(n[i]);
                assert(n@.take(i + 1) =~= n@.take(i as int).push(n@[i as int]));
                i += 1;
            }
            assert(n@.take(n@.len() as int) =~= n@);
            out.push(':');
            out.push(' ');
            assert(seq![':', ' '] =~= ": "@) by {
                reveal_strlit(": ");
            }
            let ghost before = out@;
            push_int(&mut out, id);
            assert(out@ =~= "Invalid "@ + name@ + ": "@ + int_text(id as int));
            Err(string_of(&out))
        } else {
            Ok(())
        }
    }

    /// A value must have something besides white space: else
    /// `{name} cannot be empty`.
    pub fn validate_not_empty(value: &str, name: &str) -> (r: Result<(), String>)
        ensures
            r is Ok <==> trim(value@).len() > 0,
            r matches Err(m) ==> m@ == name@ + " cannot be empty"@,
    {
        let v = chars_of(value);
        let t = trim_chars(&v);
        if t.len() == 0 {
            let mut m = owned(name);
            push_str(&mut m, " cannot be empty");
            Err(m)
        } else {
            Ok(())
        }
    }
}

} // verus!
