//! Parsing descriptions with `zbus`, and turning what it parsed into plain values.
//!
//! The parser and the accessors of its tree are believed to do what their contracts here
//! say. The loops that walk the tree and build the library's own values are proved
//! against those contracts.

use std::str::FromStr;
use vstd::prelude::*;
use crate::model::{
    interfaces_view, Argument, ArgumentView, DocumentView, InterfaceDecl, InterfaceDocument,
    InterfaceView, MemberView, MethodDecl, PropertyDecl, PropertyView, SignalDecl,
};
use crate::text::{opt_str_text, owned_text};

verus! {

/// The tree that `zbus` parses a description into. Nothing of its inside is visible here.
#[verifier::external_type_specification]
#[verifier::external_body]
pub struct ExNode(zbus::xml::Node);

/// An interface element of that tree.
#[verifier::external_type_specification]
#[verifier::external_body]
pub struct ExInterface(zbus::xml::Interface);

/// A signal element of that tree.
#[verifier::external_type_specification]
#[verifier::external_body]
pub struct ExSignal(zbus::xml::Signal);

/// A method element of that tree.
#[verifier::external_type_specification]
#[verifier::external_body]
pub struct ExMethod(zbus::xml::Method);

/// A property element of that tree.
#[verifier::external_type_specification]
#[verifier::external_body]
pub struct ExProperty(zbus::xml::Property);

/// An argument element of that tree.
#[verifier::external_type_specification]
#[verifier::external_body]
pub struct ExArg(zbus::xml::Arg);

/// The error type of `zbus`, carried from the parser to the place that describes it.
#[verifier::external_type_specification]
#[verifier::external_body]
pub struct ExError(zbus::Error);

/// What parsing a text as a description gives: the same text always gives the same outcome.
pub uninterp spec fn parse_outcome(text: Seq<char>) -> Result<zbus::xml::Node, zbus::Error>;

/// The interfaces that a parsed tree holds at its root, in document order.
pub uninterp spec fn node_content(node: zbus::xml::Node) -> Seq<InterfaceView>;

/// What an interface element holds: its name, and its signals, methods and properties,
/// each list in document order.
pub uninterp spec fn interface_content(interface: zbus::xml::Interface) -> InterfaceView;

/// What a signal element holds: its name and its arguments in document order.
pub uninterp spec fn signal_content(signal: zbus::xml::Signal) -> MemberView;

/// What a method element holds: its name and its arguments in document order.
pub uninterp spec fn method_content(method: zbus::xml::Method) -> MemberView;

/// What a property element holds: its name, type and access mode.
pub uninterp spec fn property_content(property: zbus::xml::Property) -> PropertyView;

/// What an argument element holds: its name, type and direction.
pub uninterp spec fn arg_content(arg: zbus::xml::Arg) -> ArgumentView;

/// The text that `zbus` prints for an error.
pub uninterp spec fn error_message(error: zbus::Error) -> Seq<char>;

/// `Node::from_str`, the parser of `zbus`: the outcome is a function of the text alone.
/// Nothing is claimed about which texts parse.
#[verifier::external_body]
fn parse_node(text: &str) -> (parsed: Result<zbus::xml::Node, zbus::Error>)
    ensures
        parsed == parse_outcome(text@),
{
    zbus::xml::Node::from_str(text)
}

/// `Display` of `zbus::Error`, through `to_string`: the printed text is a function of the
/// error alone.
#[verifier::external_body]
fn error_text(error: &zbus::Error) -> (message: String)
    ensures
        message@ == error_message(*error),
{
    error.to_string()
}

/// `Node::interfaces` hands out the interface elements at the root of the tree, in
/// document order.
pub assume_specification[ zbus::xml::Node::interfaces ](node: &zbus::xml::Node) -> (found: Vec<
    &zbus::xml::Interface,
>)
    ensures
        found@.len() == node_content(*node).len(),
        forall|k: int|
            0 <= k < found@.len() ==> interface_content(*#[trigger] found@[k]) == node_content(
                *node,
            )[k],
;

/// `Interface::name` returns the interface's name.
pub assume_specification[ zbus::xml::Interface::name ](interface: &zbus::xml::Interface) -> (name:
    &str)
    ensures
        name@ == interface_content(*interface).name,
;

/// `Interface::signals` hands out the interface's signal elements, in document order.
pub assume_specification[ zbus::xml::Interface::signals ](
    interface: &zbus::xml::Interface,
) -> (found: Vec<&zbus::xml::Signal>)
    ensures
        found@.len() == interface_content(*interface).signals.len(),
        forall|k: int|
            0 <= k < found@.len() ==> signal_content(*#[trigger] found@[k]) == interface_content(
                *interface,
            ).signals[k],
;

/// `Interface::methods` hands out the interface's method elements, in document order.
pub assume_specification[ zbus::xml::Interface::methods ](
    interface: &zbus::xml::Interface,
) -> (found: Vec<&zbus::xml::Method>)
    ensures
        found@.len() == interface_content(*interface).methods.len(),
        forall|k: int|
            0 <= k < found@.len() ==> method_content(*#[trigger] found@[k]) == interface_content(
                *interface,
            ).methods[k],
;

/// `Interface::properties` hands out the interface's property elements, in document order.
pub assume_specification[ zbus::xml::Interface::properties ](
    interface: &zbus::xml::Interface,
) -> (found: Vec<&zbus::xml::Property>)
    ensures
        found@.len() == interface_content(*interface).properties.len(),
        forall|k: int|
            0 <= k < found@.len() ==> property_content(*#[trigger] found@[k])
                == interface_content(*interface).properties[k],
;

/// `Signal::name` returns the signal's name.
pub assume_specification[ zbus::xml::Signal::name ](signal: &zbus::xml::Signal) -> (name: &str)
    ensures
        name@ == signal_content(*signal).name,
;

/// `Signal::args` hands out the signal's argument elements, in document order.
pub assume_specification[ zbus::xml::Signal::args ](signal: &zbus::xml::Signal) -> (found: Vec<
    &zbus::xml::Arg,
>)
    ensures
        found@.len() == signal_content(*signal).args.len(),
        forall|k: int|
            0 <= k < found@.len() ==> arg_content(*#[trigger] found@[k]) == signal_content(
                *signal,
            ).args[k],
;

/// `Method::name` returns the method's name.
pub assume_specification[ zbus::xml::Method::name ](method: &zbus::xml::Method) -> (name: &str)
    ensures
        name@ == method_content(*method).name,
;

/// `Method::args` hands out the method's argument elements, in document order.
pub assume_specification[ zbus::xml::Method::args ](method: &zbus::xml::Method) -> (found: Vec<
    &zbus::xml::Arg,
>)
    ensures
        found@.len() == method_content(*method).args.len(),
        forall|k: int|
            0 <= k < found@.len() ==> arg_content(*#[trigger] found@[k]) == method_content(
                *method,
            ).args[k],
;

/// `Property::name` returns the property's name.
pub assume_specification[ zbus::xml::Property::name ](property: &zbus::xml::Property) -> (name:
    &str)
    ensures
        name@ == property_content(*property).name,
;

/// `Property::ty` returns the signature of the property's type.
pub assume_specification[ zbus::xml::Property::ty ](property: &zbus::xml::Property) -> (ty: &str)
    ensures
        ty@ == property_content(*property).ty,
;

/// `Property::access` returns the property's access mode.
pub assume_specification[ zbus::xml::Property::access ](property: &zbus::xml::Property) -> (access:
    &str)
    ensures
        access@ == property_content(*property).access,
;

/// `Arg::name` returns the argument's name, if it has one.
pub assume_specification[ zbus::xml::Arg::name ](arg: &zbus::xml::Arg) -> (name: Option<&str>)
    ensures
        opt_str_text(name) == arg_content(*arg).name,
;

/// `Arg::ty` returns the signature of the argument's type.
pub assume_specification[ zbus::xml::Arg::ty ](arg: &zbus::xml::Arg) -> (ty: &str)
    ensures
        ty@ == arg_content(*arg).ty,
;

/// `Arg::direction` returns the argument's direction attribute, if it has one.
pub assume_specification[ zbus::xml::Arg::direction ](arg: &zbus::xml::Arg) -> (direction: Option<
    &str,
>)
    ensures
        opt_str_text(direction) == arg_content(*arg).direction,
;

/// The library's value of one argument element.
fn read_arg(arg: &zbus::xml::Arg) -> (out: Argument)
    ensures
        out@ == arg_content(*arg),
{
    Argument {
        name: owned_text(arg.name()),
        ty: arg.ty().to_owned(),
        direction: owned_text(arg.direction()),
    }
}

/// The library's values of a list of argument elements, in the same order.
fn read_args(found: &Vec<&zbus::xml::Arg>) -> (out: Vec<Argument>)
    ensures
        out@.len() == found@.len(),
        forall|k: int| 0 <= k < out@.len() ==> (#[trigger] out@[k])@ == arg_content(*found@[k]),
{
    let mut out: Vec<Argument> = Vec::new();
    let mut k: usize = 0;
    while k < found.len()
        invariant
            k <= found@.len(),
            out@.len() == k,
            forall|j: int| 0 <= j < k ==> (#[trigger] out@[j])@ == arg_content(*found@[j]),
        decreases found@.len() - k,
    {
        out.push(read_arg(found[k]));
        k += 1;
    }
    out
}

/// The library's value of one signal element.
fn read_signal(signal: &zbus::xml::Signal) -> (out: SignalDecl)
    ensures
        out@ == signal_content(*signal),
{
    let found = signal.args();
    let out = SignalDecl { name: signal.name().to_owned(), args: read_args(&found) };
    assert(out@.args =~= signal_content(*signal).args);
    out
}

/// The library's value of one method element.
fn read_method(method: &zbus::xml::Method) -> (out: MethodDecl)
    ensures
        out@ == method_content(*method),
{
    let found = method.args();
    let out = MethodDecl { name: method.name().to_owned(), args: read_args(&found) };
    assert(out@.args =~= method_content(*method).args);
    out
}

/// The library's value of one property element.
fn read_property(property: &zbus::xml::Property) -> (out: PropertyDecl)
    ensures
        out@ == property_content(*property),
{
    PropertyDecl {
        name: property.name().to_owned(),
        ty: property.ty().to_owned(),
        access: property.access().to_owned(),
    }
}

/// The library's value of one interface element.
fn read_interface(interface: &zbus::xml::Interface) -> (out: InterfaceDecl)
    ensures
        out@ == interface_content(*interface),
{
    let ghost content = interface_content(*interface);
    let found_signals = interface.signals();
    let mut signals: Vec<SignalDecl> = Vec::new();
    let mut k: usize = 0;
    while k < found_signals.len()
        invariant
            k <= found_signals@.len(),
            signals@.len() == k,
            forall|j: int|
                0 <= j < k ==> (#[trigger] signals@[j])@ == signal_content(*found_signals@[j]),
        decreases found_signals@.len() - k,
    {
        signals.push(read_signal(found_signals[k]));
        k += 1;
    }
    let found_methods = interface.methods();
    let mut methods: Vec<MethodDecl> = Vec::new();
    let mut k: usize = 0;
    while k < found_methods.len()
        invariant
            k <= found_methods@.len(),
            methods@.len() == k,
            forall|j: int|
                0 <= j < k ==> (#[trigger] methods@[j])@ == method_content(*found_methods@[j]),
        decreases found_methods@.len() - k,
    {
        methods.push(read_method(found_methods[k]));
        k += 1;
    }
    let found_properties = interface.properties();
    let mut properties: Vec<PropertyDecl> = Vec::new();
    let mut k: usize = 0;
    while k < found_properties.len()
        invariant
            k <= found_properties@.len(),
            properties@.len() == k,
            forall|j: int|
                0 <= j < k ==> (#[trigger] properties@[j])@ == property_content(
                    *found_properties@[j],
                ),
        decreases found_properties@.len() - k,
    {
        properties.push(read_property(found_properties[k]));
        k += 1;
    }
    let out = InterfaceDecl { name: interface.name().to_owned(), signals, methods, properties };
    assert(out@.signals =~= content.signals);
    assert(out@.methods =~= content.methods);
    assert(out@.properties =~= content.properties);
    out
}

/// The library's values of the interfaces at the root of a parsed tree, in document order.
fn read_node(node: &zbus::xml::Node) -> (out: Vec<InterfaceDecl>)
    ensures
        interfaces_view(out@) == node_content(*node),
{
    let found = node.interfaces();
    let mut out: Vec<InterfaceDecl> = Vec::new();
    let mut k: usize = 0;
    while k < found.len()
        invariant
            k <= found@.len(),
            out@.len() == k,
            forall|j: int| 0 <= j < k ==> (#[trigger] out@[j])@ == interface_content(*found@[j]),
        decreases found@.len() - k,
    {
        out.push(read_interface(found[k]));
        k += 1;
    }
    out
}

/// Why a text could not be read as an interface description: which document it was, and
/// what the parser said.
#[derive(Debug, PartialEq, Eq)]
pub struct ParseFailure {
    pub document: String,
    pub reason: String,
}

/// The mathematical value of a [`ParseFailure`].
pub ghost struct FailureView {
    pub document: Seq<char>,
    pub reason: Seq<char>,
}

impl View for ParseFailure {
    type V = FailureView;

    open spec fn view(&self) -> FailureView {
        FailureView { document: self.document@, reason: self.reason@ }
    }
}

/// What a text describes: the interfaces at its root in document order, or the parser's
/// complaint where the text is no interface description.
pub open spec fn described(text: Seq<char>) -> Result<Seq<InterfaceView>, Seq<char>> {
    match parse_outcome(text) {
        Ok(node) => Ok(node_content(node)),
        Err(error) => Err(error_message(error)),
    }
}

/// Parses the text of an interface description into the interfaces at its root, or
/// hands back the parser's complaint.
pub fn parse_interfaces(text: &str) -> (parsed: Result<Vec<InterfaceDecl>, String>)
    ensures
        match described(text@) {
            Ok(interfaces) => parsed is Ok && interfaces_view(parsed->Ok_0@) == interfaces,
            Err(message) => parsed is Err && parsed->Err_0@ == message,
        },
{
    match parse_node(text) {
        Ok(node) => Ok(read_node(&node)),
        Err(error) => Err(error_text(&error)),
    }
}

/// Parses the text of one interface description. `identity` says where the text came from:
/// the document carries it, and so does the failure where the text does not parse.
pub fn parse_document(identity: &str, text: &str) -> (parsed: Result<
    InterfaceDocument,
    ParseFailure,
>)
    ensures
        match described(text@) {
            Ok(interfaces) => parsed is Ok && parsed->Ok_0@ == (DocumentView {
                identity: identity@,
                interfaces,
            }),
            Err(message) => parsed is Err && parsed->Err_0@ == (FailureView {
                document: identity@,
                reason: message,
            }),
        },
{
    match parse_interfaces(text) {
        Ok(interfaces) => Ok(InterfaceDocument { identity: identity.to_owned(), interfaces }),
        Err(reason) => Err(ParseFailure { document: identity.to_owned(), reason }),
    }
}

} // verus!
