//! Values and exceptions of the `Runtime` domain.
use vstd::prelude::*;

pub mod methods;

use self::methods::RemoteObjectKind;
use self::methods::RemoteObjectSubKind;
use self::methods::RemoteObject2;

verus! {

pub type ScriptId = String;

pub type ExecutionContextId = u64;

#[derive(Debug)]
pub struct PropertyPreview {
    pub name: String,
    pub object_type: String,
    pub value: Option<String>,
    pub value_preview: Option<Box<PropertyPreview>>,
    pub subtype: Option<String>,
}

#[derive(Debug)]
pub struct ObjectPreview {
    pub object_type: String,
    pub subtype: Option<String>,
    pub description: Option<String>,
    pub overflow: bool,
    pub properties: Vec<PropertyPreview>,
}

/// What kind of value a remote object is; an object also says of which class.
#[derive(Debug)]
pub enum RemoteObject4 {
    Object { subtype: RemoteObjectSubKind, class_name: String },
    Function,
    Undefined,
    Str,
    Number,
    Boolean,
    Symbol,
    BigInt,
}

/// A remote object whose kind has been checked.
#[derive(Debug)]
pub struct RemoteObject3 {
    pub kind: RemoteObject4,
    pub value: Option<serde_json::Value>,
    pub unserializable_value: Option<String>,
    pub preview: Option<ObjectPreview>,
    pub description: Option<String>,
}

impl RemoteObject3 {
    /// Decodes the value the object carries, if it carries one.
    ///
    /// Without a value the result is `Ok(None)` and `decode` is not called.
    /// With one, `decode` is called on it once: where it returns `Ok(t)` the
    /// result is `Ok(Some(t))`, where it returns an error the result is that
    /// error.
    pub fn into_value<T, E, F: FnOnce(serde_json::Value) -> Result<T, E>>(self, decode: F) -> (r:
        Result<Option<T>, E>)
        requires
            self.value matches Some(v) ==> call_requires(decode, (v,)),
        ensures
            self.value is None ==> r == Ok::<Option<T>, E>(None),
            self.value matches Some(v) ==> match r {
                Ok(Some(t)) => call_ensures(decode, (v,), Ok::<T, E>(t)),
                Ok(None) => false,
                Err(e) => call_ensures(decode, (v,), Err::<T, E>(e)),
            },
    {
        match self.value {
            Some(v) => {
                match decode(v) {
                    Ok(t) => Ok(Some(t)),
                    Err(e) => Err(e),
                }
            },
            None => Ok(None),
        }
    }
}

#[derive(Debug)]
pub struct RemoteObject {
    pub object_type: String,
    pub subtype: Option<String>,
    pub description: Option<String>,
    pub class_name: Option<String>,
    pub value: Option<serde_json::Value>,
    pub unserializable_value: Option<String>,
    pub preview: Option<ObjectPreview>,
}

/// Stack entry for runtime errors and assertions.
#[derive(Debug)]
pub struct CallFrame {
    /// JavaScript function name
    pub function_name: String,
    /// JavaScript script id
    pub script_id: ScriptId,
    /// JavaScript script name or url
    pub url: String,
    /// JavaScript script line number (0-based)
    pub line_number: u64,
    /// JavaScript script column number (0-based)
    pub column_number: u64,
}

/// Call frames for assertions or error messages.
#[derive(Debug)]
pub struct StackTrace {
    /// String label of this stack trace. For async traces this may be a name
    /// of the function that initiated the async call
    description: Option<String>,
    /// JavaScript function name
    call_frames: Vec<CallFrame>,
    /// Asynchronous JavaScript stack trace that preceded this stack, if
    /// available
    parent: Option<Box<StackTrace>>,
}

impl StackTrace {
    pub closed spec fn description(self) -> Option<String> {
        self.description
    }

    pub closed spec fn call_frames(self) -> Vec<CallFrame> {
        self.call_frames
    }

    pub closed spec fn parent(self) -> Option<Box<StackTrace>> {
        self.parent
    }

    /// A stack trace of the given frames under the given label, after the
    /// asynchronous trace `parent` where there is one.
    pub fn new(
        description: Option<String>,
        call_frames: Vec<CallFrame>,
        parent: Option<Box<StackTrace>>,
    ) -> (r: StackTrace)
        ensures
            r.description() == description,
            r.call_frames() == call_frames,
            r.parent() == parent,
    {
        StackTrace { description, call_frames, parent }
    }
}

/// Detailed information about exception (or error) that was thrown during
/// script compilation or execution.
#[derive(Debug)]
pub struct ExceptionDetails {
    /// Exception id
    pub exception_id: u64,
    /// Exception text, which should be used together with exception object when
    /// available
    pub text: String,
    /// Line number of the exception location (0-based)
    pub line_number: u64,
    /// Column number of the exception location (0-based)
    pub column_number: u64,
    /// Script ID of the exception location
    pub script_id: Option<ScriptId>,
    /// URL of the exception location, to be used when the script was not reported
    pub url: Option<String>,
    /// JavaScript stack trace if available
    pub stack_trace: Option<StackTrace>,
    /// Exception object if available
    pub exception: Option<RemoteObject>,
    /// Identifier of the context where exception happened
    pub execution: Option<ExecutionContextId>,
}

impl ExceptionDetails {
    /// The exception as a line of text: its `text`, nothing added.
    pub fn to_string(&self) -> (r: String)
        ensures
            r@ == self.text@,
    {
        self.text.clone()
    }
}

impl RemoteObject2 {
    /// True where [`RemoteObject2::into`] can be called: an object names its
    /// subtype and its class.
    pub open spec fn convertible(self) -> bool {
        self.object_type is Object ==> self.subtype is Some && self.class_name is Some
    }

    /// Tells whether [`RemoteObject2::into`] can be called.
    pub fn is_convertible(&self) -> (r: bool)
        ensures
            r == self.convertible(),
    {
        match self.object_type {
            RemoteObjectKind::Object => self.subtype.is_some() && self.class_name.is_some(),
            _ => true,
        }
    }

    /// The kind that the wire form stands for.
    pub open spec fn kind(self) -> RemoteObject4
        recommends
            self.convertible(),
    {
        match self.object_type {
            RemoteObjectKind::Object => RemoteObject4::Object {
                subtype: self.subtype->0,
                class_name: self.class_name->0,
            },
            RemoteObjectKind::Function => RemoteObject4::Function,
            RemoteObjectKind::Undefined => RemoteObject4::Undefined,
            RemoteObjectKind::Str => RemoteObject4::Str,
            RemoteObjectKind::Number => RemoteObject4::Number,
            RemoteObjectKind::Boolean => RemoteObject4::Boolean,
            RemoteObjectKind::Symbol => RemoteObject4::Symbol,
            RemoteObjectKind::BigInt => RemoteObject4::BigInt,
        }
    }

    /// Turns the wire form of a remote object into the checked form: the kind
    /// is [`RemoteObject2::kind`], and value, preview and description are
    /// carried over unchanged. Of an object, subtype and class name move into
    /// the kind; of any other kind they are dropped.
    pub fn into(self) -> (r: RemoteObject3)
        requires
            self.convertible(),
        ensures
            r.kind == self.kind(),
            r.value == self.value,
            r.unserializable_value == self.unserializable_value,
            r.preview == self.preview,
            r.description == self.description,
    {
        match self.object_type {
            RemoteObjectKind::Object => RemoteObject3 {
                kind: RemoteObject4::Object {
                    subtype: self.subtype.unwrap(),
                    class_name: self.class_name.unwrap(),
                },
                value: self.value,
                unserializable_value: self.unserializable_value,
                preview: self.preview,
                description: self.description,
            },
            RemoteObjectKind::Function => RemoteObject3 {
                kind: RemoteObject4::Function,
                value: self.value,
                unserializable_value: self.unserializable_value,
                preview: self.preview,
                description: self.description,
            },
            RemoteObjectKind::Undefined => RemoteObject3 {
                kind: RemoteObject4::Undefined,
                value: self.value,
                unserializable_value: self.unserializable_value,
                preview: self.preview,
                description: self.description,
            },
            RemoteObjectKind::Str => RemoteObject3 {
                kind: RemoteObject4::Str,
                value: self.value,
                unserializable_value: self.unserializable_value,
                preview: self.preview,
                description: self.description,
            },
            RemoteObjectKind::Number => RemoteObject3 {
                kind: RemoteObject4::Number,
                value: self.value,
                unserializable_value: self.unserializable_value,
                preview: self.preview,
                description: self.description,
            },
            RemoteObjectKind::Boolean => RemoteObject3 {
                kind: RemoteObject4::Boolean,
                value: self.value,
                unserializable_value: self.unserializable_value,
                preview: self.preview,
                description: self.description,
            },
            RemoteObjectKind::Symbol => RemoteObject3 {
                kind: RemoteObject4::Symbol,
                value: self.value,
                unserializable_value: self.unserializable_value,
                preview: self.preview,
                description: self.description,
            },
            RemoteObjectKind::BigInt => RemoteObject3 {
                kind: RemoteObject4::BigInt,
                value: self.value,
                unserializable_value: self.unserializable_value,
                preview: self.preview,
                description: self.description,
            },
        }
    }
}

} // verus!
