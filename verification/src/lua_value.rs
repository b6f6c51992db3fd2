use vstd::prelude::*;

verus! {

/// What the conversions from a script value read of it: its type, and the
/// payload of an integer or a boolean.
#[derive(Debug, Clone, Copy, PartialEq, Eq, Structural)]
pub enum LuaValue {
    Nil,
    Boolean(bool),
    Integer(i64),
    Number,
    String,
    Table,
    Function,
    Thread,
    UserData,
}

/// The name of a value's type, as the script runtime reports it.
pub open spec fn lua_kind_name(v: LuaValue) -> Seq<char> {
    match v {
        LuaValue::Nil => "nil"@,
        LuaValue::Boolean(_) => "boolean"@,
        LuaValue::Integer(_) => "number"@,
        LuaValue::Number => "number"@,
        LuaValue::String => "string"@,
        LuaValue::Table => "table"@,
        LuaValue::Function => "function"@,
        LuaValue::Thread => "thread"@,
        LuaValue::UserData => "userdata"@,
    }
}

impl LuaValue {
    /// The name of the value's type.
    pub fn kind_name(&self) -> (r: &'static str)
        ensures
            r@ == lua_kind_name(*self),
    {
        match self {
            LuaValue::Nil => "nil",
            LuaValue::Boolean(_) => "boolean",
            LuaValue::Integer(_) => "number",
            LuaValue::Number => "number",
            LuaValue::String => "string",
            LuaValue::Table => "table",
            LuaValue::Function => "function",
            LuaValue::Thread => "thread",
            LuaValue::UserData => "userdata",
        }
    }
}

/// A script value of the wrong type: what was expected, and what was found.
#[derive(Debug, Clone, Copy)]
pub struct TypeError {
    pub expected: &'static str,
    pub found: &'static str,
}

} // verus!
