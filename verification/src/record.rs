//! The record handed to one emit call.

use vstd::prelude::*;
use vstd::string::*;
use crate::config::{level_or_default, read_level};
use crate::level::{LogLevel, ParseError};

verus! {

/// A record to be logged.
#[derive(Debug, PartialEq, Eq)]
pub struct ExecutionInput {
    pub message: String,
    pub level: LogLevel,
    /// Replaces the configured application name for this record.
    pub app_name: Option<String>,
    /// Names the component within the application that speaks.
    pub sub_app_name: Option<String>,
}

/// What an [`ExecutionInput`] holds, as mathematical values.
pub struct InputView {
    pub message: Seq<char>,
    pub level: LogLevel,
    pub app_name: Option<Seq<char>>,
    pub sub_app_name: Option<Seq<char>>,
}

impl View for ExecutionInput {
    type V = InputView;

    open spec fn view(&self) -> InputView {
        InputView {
            message: self.message@,
            level: self.level,
            app_name: self.app_name.deep_view(),
            sub_app_name: self.sub_app_name.deep_view(),
        }
    }
}

/// A decoded record payload. Every field may be absent in it; the message
/// is the one that must not be.
#[derive(Debug, PartialEq, Eq)]
pub struct RawInput {
    pub message: Option<String>,
    pub level: Option<String>,
    pub app_name: Option<String>,
    pub sub_app_name: Option<String>,
}

/// What a [`RawInput`] holds, as mathematical values.
pub struct RawInputView {
    pub message: Option<Seq<char>>,
    pub level: Option<Seq<char>>,
    pub app_name: Option<Seq<char>>,
    pub sub_app_name: Option<Seq<char>>,
}

impl View for RawInput {
    type V = RawInputView;

    open spec fn view(&self) -> RawInputView {
        RawInputView {
            message: self.message.deep_view(),
            level: self.level.deep_view(),
            app_name: self.app_name.deep_view(),
            sub_app_name: self.sub_app_name.deep_view(),
        }
    }
}

/// The record that a payload stands for: an absent level is the default
/// level. The payload is refused where its level text names no level, and
/// where it gives no message.
pub open spec fn resolve_input(raw: RawInputView) -> Result<InputView, ParseError> {
    match (level_or_default(raw.level), raw.message) {
        (Err(e), _) => Err(e),
        (Ok(_), None) => Err(ParseError::MissingField),
        (Ok(level), Some(message)) => Ok(
            InputView {
                message: message,
                level: level,
                app_name: raw.app_name,
                sub_app_name: raw.sub_app_name,
            },
        ),
    }
}

/// The name under which a record is logged: the configured name, or the
/// record's own in its place, followed by `" -> "` and the component's name
/// where the record gives one.
pub open spec fn app_name_path(
    configured: Seq<char>,
    replacement: Option<Seq<char>>,
    component: Option<Seq<char>>,
) -> Seq<char> {
    let name = match replacement {
        Some(r) => r,
        None => configured,
    };
    match component {
        Some(c) => name + " -> "@ + c,
        None => name,
    }
}

impl ExecutionInput {
    /// Resolves a payload into a record; see [`resolve_input`].
    pub fn from_raw(raw: RawInput) -> (r: Result<ExecutionInput, ParseError>)
        ensures
            match resolve_input(raw@) {
                Ok(i) => r is Ok && r->Ok_0@ == i,
                Err(e) => r is Err && r->Err_0 == e,
            },
    {
        match (read_level(&raw.level), raw.message) {
            (Err(e), _) => Err(e),
            (Ok(_), None) => Err(ParseError::MissingField),
            (Ok(level), Some(message)) => Ok(
                ExecutionInput {
                    message: message,
                    level: level,
                    app_name: raw.app_name,
                    sub_app_name: raw.sub_app_name,
                },
            ),
        }
    }

    /// The name under which this record is logged by an application that is
    /// configured as `configured`; see [`app_name_path`].
    pub fn resolve_app_name(&self, configured: &str) -> (r: String)
        ensures
            r@ == app_name_path(configured@, self@.app_name, self@.sub_app_name),
    {
        let name = match &self.app_name {
            Some(replacement) => replacement.clone(),
            None => String::from_str(configured),
        };
        match &self.sub_app_name {
            Some(component) => name.concat(" -> ").concat(component.as_str()),
            None => name,
        }
    }
}

} // verus!
