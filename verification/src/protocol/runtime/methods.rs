//! Commands of the `Runtime` domain and the shapes of their replies.
use vstd::prelude::*;

use crate::protocol::runtime::ExceptionDetails;
use crate::protocol::runtime::ObjectPreview;
use crate::protocol::runtime::RemoteObject;
use crate::protocol::runtime::ScriptId;
use crate::protocol::Method;

verus! {

/// The reply to a command that evaluates script: a result, and the exception
/// where evaluation threw one.
#[derive(Debug)]
pub struct RuntimeResult<T> {
    pub result: T,
    pub exception_details: Option<ExceptionDetails>,
}

impl<T> RuntimeResult<T> {
    /// The result, unless an exception was reported: then the exception is the
    /// error, whatever the result holds.
    pub fn into_result(self) -> (r: Result<T, ExceptionDetails>)
        ensures
            r == match self.exception_details {
                Some(e) => Err::<T, ExceptionDetails>(e),
                None => Ok::<T, ExceptionDetails>(self.result),
            },
    {
        match self.exception_details {
            Some(e) => Err(e),
            None => Ok(self.result),
        }
    }
}

#[derive(Debug)]
pub enum RemoteObjectSubKind {
    Array,
    Null,
    Node,
    Regexp,
    Date,
    MapObject,
    SetObject,
    Weakmap,
    Weakset,
    Iter,
    Generator,
    Error,
    Proxy,
    Promise,
    TypedArray,
    ArrayBuffer,
    Dataview,
}

#[derive(Debug)]
pub enum RemoteObjectKind {
    Object,
    Function,
    Undefined,
    Str,
    Number,
    Boolean,
    Symbol,
    BigInt,
}

/// A remote object as it comes off the wire, its kind not yet checked against
/// the fields that depend on it.
#[derive(Debug)]
pub struct RemoteObject2 {
    pub object_type: RemoteObjectKind,
    pub subtype: Option<RemoteObjectSubKind>,
    pub description: Option<String>,
    pub class_name: Option<String>,
    pub value: Option<serde_json::Value>,
    pub unserializable_value: Option<String>,
    pub preview: Option<ObjectPreview>,
}

#[derive(Debug)]
pub struct CallFunctionOn<'a> {
    pub object_id: &'a str,
    pub function_declaration: &'a str,
    pub return_by_value: bool,
    pub generate_preview: bool,
    pub silent: bool,
}

impl<'a> Method for CallFunctionOn<'a> {
    const NAME: &'static str = "Runtime.callFunctionOn";

    type ReturnObject = RuntimeResult<RemoteObject>;
}

#[derive(Debug)]
pub struct Evaluate<'a> {
    pub expression: &'a str,
    pub return_by_value: bool,
    pub silent: bool,
}

#[derive(Debug)]
pub struct EvaluateReturnObject {
    pub result: RemoteObject2,
    pub exception_details: Option<ExceptionDetails>,
}

impl<'a> Method for Evaluate<'a> {
    const NAME: &'static str = "Runtime.evaluate";

    type ReturnObject = EvaluateReturnObject;
}

#[derive(Debug)]
pub struct CompileScript<'a> {
    pub expression: &'a str,
    pub source_url: &'a str,
    pub persist_script: bool,
}

impl<'a> Method for CompileScript<'a> {
    const NAME: &'static str = "Runtime.compileScript";

    type ReturnObject = RuntimeResult<ScriptId>;
}

} // verus!
