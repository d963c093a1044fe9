//! Reading a property of a remote tray item. Items implement one of two
//! flavours of the item interface, so a property is asked of the KDE
//! interface first and of the Ayatana interface second, and the first reply
//! that holds a usable value is taken.
//!
//! The calls are the caller's. This module says which interface to ask next
//! and what a reply is worth.

use vstd::prelude::*;
use vstd::string::*;
use crate::wire::{
    MethodCall, MethodCallView, Value, ValueView, CALL_TIMEOUT_MS, PROPERTIES_INTERFACE,
    PROPERTY_TIMEOUT_MS,
};

verus! {

/// The item interface in its KDE flavour, which is tried first.
pub const KDE_ITEM_INTERFACE: &'static str = "org.kde.StatusNotifierItem";

/// The item interface in its Ayatana flavour, which is tried second.
pub const AYATANA_ITEM_INTERFACE: &'static str = "org.ayatana.StatusNotifierItem";

/// The property that names the menu object of an item.
pub const MENU_PROPERTY: &'static str = "Menu";

/// Whether `interface` is one of the two item interfaces.
pub open spec fn is_item_interface(interface: Seq<char>) -> bool {
    interface == KDE_ITEM_INTERFACE@ || interface == AYATANA_ITEM_INTERFACE@
}

/// Tells whether `interface` is one of the two item interfaces.
pub fn item_interface(interface: &str) -> (r: bool)
    ensures
        r == is_item_interface(interface@),
{
    interface.eq(KDE_ITEM_INTERFACE) || interface.eq(AYATANA_ITEM_INTERFACE)
}

/// The interface asked at the given attempt, counted from zero; after the
/// second there is none.
pub open spec fn interface_at(attempt: nat) -> Option<Seq<char>> {
    if attempt == 0 {
        Some(KDE_ITEM_INTERFACE@)
    } else if attempt == 1 {
        Some(AYATANA_ITEM_INTERFACE@)
    } else {
        None
    }
}

/// The interface to ask at the given attempt, counted from zero.
pub fn interface_for(attempt: usize) -> (r: Option<&'static str>)
    ensures
        match r {
            Some(i) => interface_at(attempt as nat) == Some(i@),
            None => interface_at(attempt as nat) is None,
        },
{
    if attempt == 0 {
        Some(KDE_ITEM_INTERFACE)
    } else if attempt == 1 {
        Some(AYATANA_ITEM_INTERFACE)
    } else {
        None
    }
}

/// The value that a property call brought back.
#[derive(Debug, PartialEq, Eq)]
pub enum PropertyValue {
    /// A string.
    Text(String),
    /// An object path, in its string form.
    Path(String),
    /// A value of any other type.
    Other,
}

/// A `PropertyValue` over character sequences.
pub enum PropertyValueView {
    Text(Seq<char>),
    Path(Seq<char>),
    Other,
}

impl View for PropertyValue {
    type V = PropertyValueView;

    open spec fn view(&self) -> PropertyValueView {
        match self {
            PropertyValue::Text(s) => PropertyValueView::Text(s@),
            PropertyValue::Path(p) => PropertyValueView::Path(p@),
            PropertyValue::Other => PropertyValueView::Other,
        }
    }
}

impl DeepView for PropertyValue {
    type V = PropertyValueView;

    open spec fn deep_view(&self) -> PropertyValueView {
        self@
    }
}

/// The text that a reply is worth for `property`. A string counts for every
/// property, an object path for `Menu` alone, a failed call or any other
/// value for none.
pub open spec fn reply_text_spec(property: Seq<char>, reply: Option<PropertyValueView>) -> Option<
    Seq<char>,
> {
    match reply {
        Some(PropertyValueView::Text(s)) => Some(s),
        Some(PropertyValueView::Path(p)) => if property == MENU_PROPERTY@ {
            Some(p)
        } else {
            None
        },
        _ => None,
    }
}

/// Reads the text out of the reply to a property call; `None` as `reply`
/// stands for a call that failed or timed out.
pub fn reply_text(property: &str, reply: Option<PropertyValue>) -> (text: Option<String>)
    ensures
        text.deep_view() == reply_text_spec(property@, reply.deep_view()),
{
    match reply {
        Some(PropertyValue::Text(s)) => Some(s),
        Some(PropertyValue::Path(p)) => if property.eq(MENU_PROPERTY) {
            Some(p)
        } else {
            None
        },
        _ => None,
    }
}

/// How a property fetch goes on after a reply.
#[derive(Debug, PartialEq, Eq)]
pub enum FetchStep {
    /// The fetch is over, with the property's text or without any.
    Finished(Option<String>),
    /// Ask again, of the interface of this attempt.
    Ask(usize),
}

/// A `FetchStep` over character sequences.
pub enum FetchStepView {
    Finished(Option<Seq<char>>),
    Ask(nat),
}

impl View for FetchStep {
    type V = FetchStepView;

    open spec fn view(&self) -> FetchStepView {
        match self {
            FetchStep::Finished(t) => FetchStepView::Finished(t.deep_view()),
            FetchStep::Ask(a) => FetchStepView::Ask(*a as nat),
        }
    }
}

/// The step that follows the reply to attempt number `attempt`: a reply
/// with a text ends the fetch with it; otherwise the next interface is asked,
/// and where none is left the fetch ends without a value.
pub open spec fn fetch_step_spec(
    property: Seq<char>,
    attempt: nat,
    reply: Option<PropertyValueView>,
) -> FetchStepView {
    match reply_text_spec(property, reply) {
        Some(t) => FetchStepView::Finished(Some(t)),
        None => if interface_at(attempt + 1) is Some {
            FetchStepView::Ask(attempt + 1)
        } else {
            FetchStepView::Finished(None)
        },
    }
}

/// Decides how the fetch of `property` goes on after the reply to attempt
/// number `attempt`.
pub fn fetch_step(property: &str, attempt: usize, reply: Option<PropertyValue>) -> (step: FetchStep)
    ensures
        step@ == fetch_step_spec(property@, attempt as nat, reply.deep_view()),
{
    match reply_text(property, reply) {
        Some(t) => FetchStep::Finished(Some(t)),
        None => if attempt == 0 {
            FetchStep::Ask(1)
        } else {
            FetchStep::Finished(None)
        },
    }
}

/// What a fetch returns that starts at attempt number `attempt` and gets
/// `replies[attempt]`, `replies[attempt + 1]`, ... as its replies.
pub open spec fn fetch_result(
    property: Seq<char>,
    replies: Seq<Option<PropertyValueView>>,
    attempt: nat,
) -> Option<Seq<char>>
    decreases replies.len() - attempt,
{
    if attempt >= replies.len() {
        None
    } else {
        match fetch_step_spec(property, attempt, replies[attempt as int]) {
            FetchStepView::Finished(t) => t,
            FetchStepView::Ask(next) => fetch_result(property, replies, next),
        }
    }
}

/// A fetch returns the text of the KDE reply where it has one, else the
/// text of the Ayatana reply where that has one, else nothing; a third
/// interface is never asked.
pub proof fn law_first_usable_reply_wins(
    property: Seq<char>,
    kde: Option<PropertyValueView>,
    ayatana: Option<PropertyValueView>,
)
    ensures
        fetch_result(property, seq![kde, ayatana], 0) == match reply_text_spec(property, kde) {
            Some(t) => Some(t),
            None => reply_text_spec(property, ayatana),
        },
        reply_text_spec(property, kde) is None ==> fetch_step_spec(property, 0, kde)
            == FetchStepView::Ask(1),
        fetch_step_spec(property, 1, ayatana) is Finished,
{
    reveal_with_fuel(fetch_result, 3);
    reveal_strlit("org.kde.StatusNotifierItem");
    reveal_strlit("org.ayatana.StatusNotifierItem");
}

/// The call that reads `property` of the object at `path` of `bus_name`
/// through the interface of the given attempt: `Get` of the properties
/// interface, with the item interface and the property's name. After the
/// second attempt there is nothing left to ask.
pub open spec fn property_call_spec(
    bus_name: Seq<char>,
    path: Seq<char>,
    property: Seq<char>,
    attempt: nat,
) -> Option<MethodCallView> {
    match interface_at(attempt) {
        Some(interface) => Some(
            MethodCallView {
                destination: bus_name,
                path,
                interface: PROPERTIES_INTERFACE@,
                member: "Get"@,
                signature: "ss"@,
                arguments: seq![ValueView::Str(interface), ValueView::Str(property)],
                timeout_ms: PROPERTY_TIMEOUT_MS,
                wait_for_reply: true,
            },
        ),
        None => None,
    }
}

/// The call to send for the given attempt at reading `property`.
pub fn property_call(bus_name: &str, path: &str, property: &str, attempt: usize) -> (call: Option<
    MethodCall,
>)
    ensures
        call.deep_view() == property_call_spec(bus_name@, path@, property@, attempt as nat),
{
    match interface_for(attempt) {
        Some(interface) => {
            let mut arguments: Vec<Value> = Vec::new();
            arguments.push(Value::Str(interface.to_owned()));
            arguments.push(Value::Str(property.to_owned()));
            let call = MethodCall {
                destination: bus_name.to_owned(),
                path: path.to_owned(),
                interface: PROPERTIES_INTERFACE.to_owned(),
                member: "Get".to_owned(),
                signature: "ss".to_owned(),
                arguments,
                timeout_ms: PROPERTY_TIMEOUT_MS,
                wait_for_reply: true,
            };
            assert(call@.arguments =~= seq![
                ValueView::Str(interface@),
                ValueView::Str(property@),
            ]);
            Some(call)
        },
        None => None,
    }
}

/// The call `member(0, 0)` on the item at `path` of `bus_name`, through the
/// item interface of the given attempt.
pub open spec fn item_call_spec(
    bus_name: Seq<char>,
    path: Seq<char>,
    member: Seq<char>,
    attempt: nat,
) -> Option<MethodCallView> {
    match interface_at(attempt) {
        Some(interface) => Some(
            MethodCallView {
                destination: bus_name,
                path,
                interface,
                member,
                signature: "ii"@,
                arguments: seq![ValueView::Int(0), ValueView::Int(0)],
                timeout_ms: CALL_TIMEOUT_MS,
                wait_for_reply: true,
            },
        ),
        None => None,
    }
}

/// Builds an item call that takes the pointer position, which is always
/// given as the origin.
fn item_call(bus_name: &str, path: &str, member: &str, attempt: usize) -> (call: Option<
    MethodCall,
>)
    ensures
        call.deep_view() == item_call_spec(bus_name@, path@, member@, attempt as nat),
{
    match interface_for(attempt) {
        Some(interface) => {
            let mut arguments: Vec<Value> = Vec::new();
            arguments.push(Value::Int(0));
            arguments.push(Value::Int(0));
            let call = MethodCall {
                destination: bus_name.to_owned(),
                path: path.to_owned(),
                interface: interface.to_owned(),
                member: member.to_owned(),
                signature: "ii".to_owned(),
                arguments,
                timeout_ms: CALL_TIMEOUT_MS,
                wait_for_reply: true,
            };
            assert(call@.arguments =~= seq![ValueView::Int(0), ValueView::Int(0)]);
            Some(call)
        },
        None => None,
    }
}

/// The `Activate(0, 0)` call for a click on an item, for the given attempt.
/// The caller sends attempt 0, then attempt 1 if that failed, and stops at
/// the first that succeeds.
pub fn activate_call(bus_name: &str, path: &str, attempt: usize) -> (call: Option<MethodCall>)
    ensures
        call.deep_view() == item_call_spec(bus_name@, path@, "Activate"@, attempt as nat),
{
    item_call(bus_name, path, "Activate", attempt)
}

/// The `SecondaryActivate(0, 0)` call of the fallback menu, for the given
/// attempt.
pub fn secondary_activate_call(bus_name: &str, path: &str, attempt: usize) -> (call: Option<
    MethodCall,
>)
    ensures
        call.deep_view() == item_call_spec(
            bus_name@,
            path@,
            "SecondaryActivate"@,
            attempt as nat,
        ),
{
    item_call(bus_name, path, "SecondaryActivate", attempt)
}

} // verus!
