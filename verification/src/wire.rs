//! Values and calls as they travel on the bus, reduced to what the tray
//! protocol needs: a small sum type for dynamically typed values, and the
//! description of a method call that the caller is to send.

use vstd::prelude::*;
use vstd::string::*;

verus! {

/// The standard interface through which properties are read.
pub const PROPERTIES_INTERFACE: &'static str = "org.freedesktop.DBus.Properties";

/// The standard interface through which an object describes itself.
pub const INTROSPECTABLE_INTERFACE: &'static str = "org.freedesktop.DBus.Introspectable";

/// A value as it travels on the bus. Arrays, structs and the flattened
/// entries of a dictionary are all lists; a variant wraps one value.
#[derive(Debug, PartialEq, Eq)]
pub enum Value {
    Str(String),
    Int(i64),
    Bool(bool),
    List(Vec<Value>),
    Variant(Box<Value>),
}

/// A `Value` over mathematical integers and sequences.
pub enum ValueView {
    Str(Seq<char>),
    Int(int),
    Bool(bool),
    List(Seq<ValueView>),
    Variant(Box<ValueView>),
}

impl View for Value {
    type V = ValueView;

    open spec fn view(&self) -> ValueView
        decreases self,
    {
        match self {
            Value::Str(s) => ValueView::Str(s@),
            Value::Int(n) => ValueView::Int(*n as int),
            Value::Bool(b) => ValueView::Bool(*b),
            Value::List(items) => ValueView::List(
                Seq::new(
                    items@.len(),
                    |i: int|
                        if 0 <= i < items@.len() {
                            items@[i]@
                        } else {
                            ValueView::Bool(false)
                        },
                ),
            ),
            Value::Variant(inner) => ValueView::Variant(Box::new((**inner)@)),
        }
    }
}

impl DeepView for Value {
    type V = ValueView;

    open spec fn deep_view(&self) -> ValueView {
        self@
    }
}

/// The views of the values of a list, in their order.
pub open spec fn views(items: Seq<Value>) -> Seq<ValueView> {
    Seq::new(items.len(), |i: int| items[i]@)
}

/// The view of a list is the list of the views.
pub proof fn lemma_list_view(items: Vec<Value>)
    ensures
        Value::List(items)@ == ValueView::List(views(items@)),
{
    assert(Value::List(items)@->List_0 =~= views(items@));
}

/// The value inside all the variants that wrap `v`.
pub open spec fn peel(v: ValueView) -> ValueView
    decreases v,
{
    match v {
        ValueView::Variant(inner) => peel(*inner),
        _ => v,
    }
}

/// Frees a value of the variants around it.
pub fn unwrap_variant(v: &Value) -> (r: &Value)
    ensures
        r@ == peel(v@),
        !(r is Variant),
    decreases v,
{
    match v {
        Value::Variant(inner) => unwrap_variant(inner),
        _ => v,
    }
}

/// Milliseconds that a property read may take before it counts as failed.
pub const PROPERTY_TIMEOUT_MS: u32 = 1000;

/// Milliseconds that any other call may take before it counts as failed.
pub const CALL_TIMEOUT_MS: u32 = 5000;

/// A method call for the caller to send: where it goes, what it is called
/// and what it carries. The signature tells the bus types of the arguments.
/// No call waits without bound: a reply that is not there after
/// `timeout_ms` counts as a failure, and a call with `wait_for_reply` unset
/// is sent and forgotten.
#[derive(Debug, PartialEq, Eq)]
pub struct MethodCall {
    pub destination: String,
    pub path: String,
    pub interface: String,
    pub member: String,
    pub signature: String,
    pub arguments: Vec<Value>,
    pub timeout_ms: u32,
    pub wait_for_reply: bool,
}

/// A `MethodCall` over mathematical values.
pub struct MethodCallView {
    pub destination: Seq<char>,
    pub path: Seq<char>,
    pub interface: Seq<char>,
    pub member: Seq<char>,
    pub signature: Seq<char>,
    pub arguments: Seq<ValueView>,
    pub timeout_ms: u32,
    pub wait_for_reply: bool,
}

impl View for MethodCall {
    type V = MethodCallView;

    open spec fn view(&self) -> MethodCallView {
        MethodCallView {
            destination: self.destination@,
            path: self.path@,
            interface: self.interface@,
            member: self.member@,
            signature: self.signature@,
            arguments: views(self.arguments@),
            timeout_ms: self.timeout_ms,
            wait_for_reply: self.wait_for_reply,
        }
    }
}

impl DeepView for MethodCall {
    type V = MethodCallView;

    open spec fn deep_view(&self) -> MethodCallView {
        self@
    }
}

} // verus!
