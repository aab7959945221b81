//! What an interface description declares, as plain values.

use vstd::prelude::*;
use crate::text::opt_text;

verus! {

/// One argument of a signal or a method: an optional name, the signature of its type, and
/// the direction attribute as the description wrote it (`"in"`, `"out"`, or none at all).
#[derive(Debug, PartialEq, Eq)]
pub struct Argument {
    pub name: Option<String>,
    pub ty: String,
    pub direction: Option<String>,
}

/// A signal: its name and its arguments in declared order.
#[derive(Debug, PartialEq, Eq)]
pub struct SignalDecl {
    pub name: String,
    pub args: Vec<Argument>,
}

/// A method: its name and its arguments in declared order, inputs and outputs mixed.
#[derive(Debug, PartialEq, Eq)]
pub struct MethodDecl {
    pub name: String,
    pub args: Vec<Argument>,
}

/// A property: its name, the signature of its type, and its access mode.
#[derive(Debug, PartialEq, Eq)]
pub struct PropertyDecl {
    pub name: String,
    pub ty: String,
    pub access: String,
}

/// An interface: its dot-separated name and what it declares, each list in declared order.
#[derive(Debug, PartialEq, Eq)]
pub struct InterfaceDecl {
    pub name: String,
    pub signals: Vec<SignalDecl>,
    pub methods: Vec<MethodDecl>,
    pub properties: Vec<PropertyDecl>,
}

/// One interface description: where it came from, and the interfaces it declares at its root.
#[derive(Debug, PartialEq, Eq)]
pub struct InterfaceDocument {
    pub identity: String,
    pub interfaces: Vec<InterfaceDecl>,
}

/// The mathematical value of an [`Argument`].
pub ghost struct ArgumentView {
    pub name: Option<Seq<char>>,
    pub ty: Seq<char>,
    pub direction: Option<Seq<char>>,
}

/// The mathematical value of a [`SignalDecl`] or of a [`MethodDecl`]: a name and its arguments.
pub ghost struct MemberView {
    pub name: Seq<char>,
    pub args: Seq<ArgumentView>,
}

/// The mathematical value of a [`PropertyDecl`].
pub ghost struct PropertyView {
    pub name: Seq<char>,
    pub ty: Seq<char>,
    pub access: Seq<char>,
}

/// The mathematical value of an [`InterfaceDecl`].
pub ghost struct InterfaceView {
    pub name: Seq<char>,
    pub signals: Seq<MemberView>,
    pub methods: Seq<MemberView>,
    pub properties: Seq<PropertyView>,
}

/// The mathematical value of an [`InterfaceDocument`].
pub ghost struct DocumentView {
    pub identity: Seq<char>,
    pub interfaces: Seq<InterfaceView>,
}

impl View for Argument {
    type V = ArgumentView;

    open spec fn view(&self) -> ArgumentView {
        ArgumentView {
            name: opt_text(self.name),
            ty: self.ty@,
            direction: opt_text(self.direction),
        }
    }
}

/// The values of a list of arguments, in order.
pub open spec fn args_view(args: Seq<Argument>) -> Seq<ArgumentView> {
    args.map_values(|a: Argument| a@)
}

impl View for SignalDecl {
    type V = MemberView;

    open spec fn view(&self) -> MemberView {
        MemberView { name: self.name@, args: args_view(self.args@) }
    }
}

impl View for MethodDecl {
    type V = MemberView;

    open spec fn view(&self) -> MemberView {
        MemberView { name: self.name@, args: args_view(self.args@) }
    }
}

impl View for PropertyDecl {
    type V = PropertyView;

    open spec fn view(&self) -> PropertyView {
        PropertyView { name: self.name@, ty: self.ty@, access: self.access@ }
    }
}

/// The values of a list of signals, in order.
pub open spec fn signals_view(signals: Seq<SignalDecl>) -> Seq<MemberView> {
    signals.map_values(|s: SignalDecl| s@)
}

/// The values of a list of methods, in order.
pub open spec fn methods_view(methods: Seq<MethodDecl>) -> Seq<MemberView> {
    methods.map_values(|m: MethodDecl| m@)
}

/// The values of a list of properties, in order.
pub open spec fn properties_view(properties: Seq<PropertyDecl>) -> Seq<PropertyView> {
    properties.map_values(|p: PropertyDecl| p@)
}

impl View for InterfaceDecl {
    type V = InterfaceView;

    open spec fn view(&self) -> InterfaceView {
        InterfaceView {
            name: self.name@,
            signals: signals_view(self.signals@),
            methods: methods_view(self.methods@),
            properties: properties_view(self.properties@),
        }
    }
}

/// The values of a list of interfaces, in order.
pub open spec fn interfaces_view(interfaces: Seq<InterfaceDecl>) -> Seq<InterfaceView> {
    interfaces.map_values(|i: InterfaceDecl| i@)
}

impl View for InterfaceDocument {
    type V = DocumentView;

    open spec fn view(&self) -> DocumentView {
        DocumentView { identity: self.identity@, interfaces: interfaces_view(self.interfaces@) }
    }
}

/// The values of a list of documents, in order.
pub open spec fn documents_view(documents: Seq<InterfaceDocument>) -> Seq<DocumentView> {
    documents.map_values(|d: InterfaceDocument| d@)
}

} // verus!
