//! Command answers built from translated texts.
//!
//! A failure answer carries the text of an i18n key in the current
//! language; a success answer carries the data.
use vstd::prelude::*;
use crate::utils::api_response::{ApiResponse, EmptyData};
use crate::utils::i18n::{resolved_text, I18nManager};
use crate::utils::language::{spec_tag, Language};

verus! {

/// The key of the text sent when an operation failed.
pub const OPERATION_FAILED_KEY: &'static str = "common.operation_failed";

/// The key of the text sent when nothing was found.
pub const NOT_FOUND_KEY: &'static str = "common.not_found";

/// Answers for the result of an operation.
pub trait TauriCommandWrapper<T>: Sized {
    /// Success with the value, or failure with the generic failure text.
    fn to_api_response(self, i18n: &I18nManager, language: Language) -> Result<ApiResponse<T>, String>
        requires
            i18n.wf(),
    ;

    /// Success with the value, or failure with the text of `error_key`.
    fn to_api_response_with_error(self, i18n: &I18nManager, language: Language, error_key: &str) -> Result<
        ApiResponse<T>,
        String,
    >
        requires
            i18n.wf(),
    ;

    /// Success with the value, or failure with the text of `error_key`
    /// filled from `params`.
    fn to_api_response_with_params(
        self,
        i18n: &I18nManager,
        language: Language,
        error_key: &str,
        params: Vec<(String, String)>,
    ) -> Result<ApiResponse<T>, String>
        requires
            i18n.wf(),
    ;
}

/// The failure answer with the text of `key`.
pub open spec fn failure_with<T>(r: ApiResponse<T>, text: Seq<char>) -> bool {
    &&& r.code == 500
    &&& r.message matches Some(m) && m@ == text
    &&& r.data is None
}

/// The success answer with `data`.
pub open spec fn success_with<T>(r: ApiResponse<T>, data: T) -> bool {
    &&& r.code == 200
    &&& r.message is None
    &&& r.data == Some(data)
}

impl<T, E> TauriCommandWrapper<T> for Result<T, E> {
    fn to_api_response(self, i18n: &I18nManager, language: Language) -> (r: Result<ApiResponse<T>, String>)
        ensures
            r matches Ok(a) && match self {
                Ok(v) => success_with(a, v),
                Err(_) => failure_with(a, resolved_text(i18n@, spec_tag(language), OPERATION_FAILED_KEY@, None)),
            },
    {
        match self {
            Ok(data) => Ok(ApiResponse::ok(data)),
            Err(_) => Ok(ApiResponse::error(i18n.get_text(language, OPERATION_FAILED_KEY, None))),
        }
    }

    fn to_api_response_with_error(self, i18n: &I18nManager, language: Language, error_key: &str) -> (r:
        Result<ApiResponse<T>, String>)
        ensures
            r matches Ok(a) && match self {
                Ok(v) => success_with(a, v),
                Err(_) => failure_with(a, resolved_text(i18n@, spec_tag(language), error_key@, None)),
            },
    {
        match self {
            Ok(data) => Ok(ApiResponse::ok(data)),
            Err(_) => Ok(ApiResponse::error(i18n.get_text(language, error_key, None))),
        }
    }

    fn to_api_response_with_params(
        self,
        i18n: &I18nManager,
        language: Language,
        error_key: &str,
        params: Vec<(String, String)>,
    ) -> (r: Result<ApiResponse<T>, String>)
        ensures
            r matches Ok(a) && match self {
                Ok(v) => success_with(a, v),
                Err(_) => failure_with(
                    a,
                    resolved_text(i18n@, spec_tag(language), error_key@, Some(params@)),
                ),
            },
    {
        match self {
            Ok(data) => Ok(ApiResponse::ok(data)),
            Err(_) => Ok(ApiResponse::error(i18n.get_text(language, error_key, Some(&params)))),
        }
    }
}

/// Answers for a value that may be missing.
pub trait OptionToApiResponse<T>: Sized {
    /// Success with the value, or failure with the not-found text.
    fn to_api_response(self, i18n: &I18nManager, language: Language) -> Result<ApiResponse<T>, String>
        requires
            i18n.wf(),
    ;

    /// Success with the value, or failure with the text of `error_key`.
    fn to_api_response_or_error(self, i18n: &I18nManager, language: Language, error_key: &str) -> Result<
        ApiResponse<T>,
        String,
    >
        requires
            i18n.wf(),
    ;
}

impl<T> OptionToApiResponse<T> for Option<T> {
    fn to_api_response(self, i18n: &I18nManager, language: Language) -> (r: Result<ApiResponse<T>, String>)
        ensures
            r matches Ok(a) && match self {
                Some(v) => success_with(a, v),
                None => failure_with(a, resolved_text(i18n@, spec_tag(language), NOT_FOUND_KEY@, None)),
            },
    {
        match self {
            Some(data) => Ok(ApiResponse::ok(data)),
            None => Ok(ApiResponse::error(i18n.get_text(language, NOT_FOUND_KEY, None))),
        }
    }

    fn to_api_response_or_error(self, i18n: &I18nManager, language: Language, error_key: &str) -> (r:
        Result<ApiResponse<T>, String>)
        ensures
            r matches Ok(a) && match self {
                Some(v) => success_with(a, v),
                None => failure_with(a, resolved_text(i18n@, spec_tag(language), error_key@, None)),
            },
    {
        match self {
            Some(data) => Ok(ApiResponse::ok(data)),
            None => Ok(ApiResponse::error(i18n.get_text(language, error_key, None))),
        }
    }
}

/// Builders of command answers.
pub struct ErrorHandler;

impl ErrorHandler {
    /// A failure with the text of `error_key` filled from `params`.
    pub fn create_error_with_params<T>(
        i18n: &I18nManager,
        language: Language,
        error_key: &str,
        params: Vec<(String, String)>,
    ) -> (r: Result<ApiResponse<T>, String>)
        requires
            i18n.wf(),
        ensures
            r matches Ok(a) && failure_with(
                a,
                resolved_text(i18n@, spec_tag(language), error_key@, Some(params@)),
            ),
    {
        let message = i18n.get_text(language, error_key, Some(&params));
        Ok(ApiResponse::error(message))
    }

    /// A failure with the text of `error_key`.
    pub fn create_error<T>(i18n: &I18nManager, language: Language, error_key: &str) -> (r: Result<
        ApiResponse<T>,
        String,
    >)
        requires
            i18n.wf(),
        ensures
            r matches Ok(a) && failure_with(a, resolved_text(i18n@, spec_tag(language), error_key@, None)),
    {
        Ok(ApiResponse::error(i18n.get_text(language, error_key, None)))
    }

    /// A success with `data`.
    pub fn create_success<T>(data: T) -> (r: Result<ApiResponse<T>, String>)
        ensures
            r matches Ok(a) && success_with(a, data),
    {
        Ok(ApiResponse::ok(data))
    }

    /// A success without data.
    pub fn create_empty_success() -> (r: Result<ApiResponse<EmptyData>, String>)
        ensures
            r matches Ok(a) && a.code == 200 && a.message is None && a.data is Some,
    {
        Ok(ApiResponse::ok(EmptyData))
    }
}

} // verus!
