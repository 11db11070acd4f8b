//! Values that a script hands over, and the exceptions that it gets back.

use vstd::prelude::*;
use vstd::string::*;

verus! {

/// The type of a script's value.
#[derive(Clone, Copy, PartialEq, Eq, Structural, Debug)]
pub enum ValueType {
    Null,
    Bool,
    Long,
    Double,
    Text,
    Array,
    Object,
    Resource,
    Other,
}

impl ValueType {
    /// The name under which a script knows the type.
    pub open spec fn name(self) -> Seq<char> {
        match self {
            ValueType::Null => "null"@,
            ValueType::Bool => "bool"@,
            ValueType::Long => "int"@,
            ValueType::Double => "float"@,
            ValueType::Text => "string"@,
            ValueType::Array => "array"@,
            ValueType::Object => "object"@,
            ValueType::Resource => "resource"@,
            ValueType::Other => "unknown"@,
        }
    }

    /// The name under which a script knows the type.
    pub fn as_name(self) -> (r: &'static str)
        ensures
            r@ == self.name(),
    {
        match self {
            ValueType::Null => "null",
            ValueType::Bool => "bool",
            ValueType::Long => "int",
            ValueType::Double => "float",
            ValueType::Text => "string",
            ValueType::Array => "array",
            ValueType::Object => "object",
            ValueType::Resource => "resource",
            ValueType::Other => "unknown",
        }
    }
}

/// A value that a script handed over: its type, whether it can be called, and the value.
#[derive(Debug)]
pub struct PhpValue<C> {
    pub value_type: ValueType,
    pub callable: bool,
    pub value: C,
}

/// The class of an exception.
#[derive(Clone, Copy, PartialEq, Eq, Structural, Debug)]
pub enum PhpClass {
    Exception,
    InvalidArgumentException,
}

/// An exception that a script gets.
#[derive(Debug)]
pub struct PhpException {
    pub class: PhpClass,
    pub message: String,
}

impl PhpException {
    /// This is an exception of the class with the message.
    pub open spec fn says(self, class: PhpClass, message: Seq<char>) -> bool {
        self.class == class && self.message@ == message
    }
}

/// An exception says a message exactly if it is of the class and holds that message.
pub proof fn law_exception_holds_its_message(e: PhpException, class: PhpClass, message: Seq<char>)
    ensures
        e.says(class, message) <==> e.class == class && e.message@ == message,
{
}

} // verus!
