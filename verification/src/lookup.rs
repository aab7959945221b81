//! Reading the signature of one member off the text of a description.

use vstd::prelude::*;
use crate::equivalence::{equivalent, same_shape};
use crate::extract::{extract, extracted, first_where, ExtractError, MemberKind};
use crate::model::{interfaces_view, InterfaceDecl, InterfaceView};
use crate::text::opt_str_text;
use crate::wire::signature_text;
use crate::xml::{described, parse_interfaces};

verus! {

/// Why a description gave no signature for a member.
#[derive(Debug, PartialEq, Eq)]
pub enum LookupError {
    /// The text is no interface description; the parser's complaint is kept.
    Malformed { reason: String },
    /// The description declares no interface of that name.
    InterfaceNotFound,
    /// The interface declares no member of that name.
    MemberNotFound,
    /// The member has no argument of that name.
    ArgNotFound,
}

/// The mathematical value of a [`LookupError`].
pub ghost enum LookupFault {
    Malformed(Seq<char>),
    InterfaceNotFound,
    MemberNotFound,
    ArgNotFound,
}

impl View for LookupError {
    type V = LookupFault;

    open spec fn view(&self) -> LookupFault {
        match self {
            LookupError::Malformed { reason } => LookupFault::Malformed(reason@),
            LookupError::InterfaceNotFound => LookupFault::InterfaceNotFound,
            LookupError::MemberNotFound => LookupFault::MemberNotFound,
            LookupError::ArgNotFound => LookupFault::ArgNotFound,
        }
    }
}

/// The position of the first interface of that name.
pub open spec fn first_interface(interfaces: Seq<InterfaceView>, name: Seq<char>) -> Option<int> {
    first_where(interfaces, |i: InterfaceView| i.name == name, 0)
}

/// The signature that a list of interfaces gives for a member of a named interface: what
/// the first interface of that name gives for it.
pub open spec fn looked_up(
    interfaces: Seq<InterfaceView>,
    interface_name: Seq<char>,
    kind: MemberKind,
    member: Seq<char>,
    arg: Option<Seq<char>>,
) -> Result<Seq<char>, LookupFault> {
    match first_interface(interfaces, interface_name) {
        Some(k) => match extracted(interfaces[k], kind, member, arg) {
            Ok(signature) => Ok(signature),
            Err(ExtractError::MemberNotFound) => Err(LookupFault::MemberNotFound),
            Err(ExtractError::ArgNotFound) => Err(LookupFault::ArgNotFound),
        },
        None => Err(LookupFault::InterfaceNotFound),
    }
}

/// The signature that the text of a description gives for a member of a named interface.
pub open spec fn looked_up_in_text(
    text: Seq<char>,
    interface_name: Seq<char>,
    kind: MemberKind,
    member: Seq<char>,
    arg: Option<Seq<char>>,
) -> Result<Seq<char>, LookupFault> {
    match described(text) {
        Ok(interfaces) => looked_up(interfaces, interface_name, kind, member, arg),
        Err(message) => Err(LookupFault::Malformed(message)),
    }
}

/// What a result that carries a signature as text stands for.
pub open spec fn text_outcome(outcome: Result<String, LookupError>) -> Result<
    Seq<char>,
    LookupFault,
> {
    match outcome {
        Ok(signature) => Ok(signature@),
        Err(error) => Err(error@),
    }
}

/// What a result that carries a signature value stands for.
pub open spec fn signature_outcome(
    outcome: Result<zbus::zvariant::Signature<'static>, LookupError>,
) -> Result<Seq<char>, LookupFault> {
    match outcome {
        Ok(signature) => Ok(signature_text(signature)),
        Err(error) => Err(error@),
    }
}

/// Finds the first interface of the given name.
pub fn find_interface(interfaces: &Vec<InterfaceDecl>, name: &str) -> (found: Option<usize>)
    ensures
        match found {
            Some(k) => k < interfaces@.len() && first_interface(
                interfaces_view(interfaces@),
                name@,
            ) == Some(k as int),
            None => first_interface(interfaces_view(interfaces@), name@) is None,
        },
{
    let wanted = name.to_owned();
    let ghost all = interfaces_view(interfaces@);
    let mut k: usize = 0;
    while k < interfaces.len()
        invariant
            k <= interfaces@.len(),
            wanted@ == name@,
            all == interfaces_view(interfaces@),
            first_interface(all, name@) == first_where(
                all,
                |i: InterfaceView| i.name == name@,
                k as int,
            ),
        decreases interfaces@.len() - k,
    {
        if interfaces[k].name == wanted {
            return Some(k);
        }
        k += 1;
    }
    None
}

/// Reads the signature of one member of a named interface off the interfaces of a
/// description.
///
/// Fails with `InterfaceNotFound` where no interface bears the name, and as [`extract`]
/// does on the first interface that bears it; never with `Malformed`.
pub fn signature_in(
    interfaces: &Vec<InterfaceDecl>,
    interface_name: &str,
    kind: MemberKind,
    member_name: &str,
    arg_name: Option<&str>,
) -> (outcome: Result<String, LookupError>)
    ensures
        text_outcome(outcome) == looked_up(
            interfaces_view(interfaces@),
            interface_name@,
            kind,
            member_name@,
            opt_str_text(arg_name),
        ),
{
    match find_interface(interfaces, interface_name) {
        Some(k) => match extract(&interfaces[k], kind, member_name, arg_name) {
            Ok(signature) => Ok(signature),
            Err(ExtractError::MemberNotFound) => Err(LookupError::MemberNotFound),
            Err(ExtractError::ArgNotFound) => Err(LookupError::ArgNotFound),
        },
        None => Err(LookupError::InterfaceNotFound),
    }
}

/// Parses a description and reads the signature of one member off it.
fn signature_in_text(
    xml: &str,
    interface_name: &str,
    kind: MemberKind,
    member_name: &str,
    arg_name: Option<&str>,
) -> (outcome: Result<zbus::zvariant::Signature<'static>, LookupError>)
    ensures
        signature_outcome(outcome) == looked_up_in_text(
            xml@,
            interface_name@,
            kind,
            member_name@,
            opt_str_text(arg_name),
        ),
{
    let interfaces = match parse_interfaces(xml) {
        Ok(interfaces) => interfaces,
        Err(reason) => {
            return Err(LookupError::Malformed { reason });
        },
    };
    match signature_in(&interfaces, interface_name, kind, member_name, arg_name) {
        Ok(signature) => Ok(zbus::zvariant::Signature::from_string_unchecked(signature)),
        Err(error) => Err(error),
    }
}

/// Retrieves the signature of a signal's body from the text of a description.
///
/// With an argument name, the signature of that argument alone; without one, the
/// signatures of all arguments of the signal, joined in declared order.
pub fn get_signal_body_type(
    xml: &str,
    interface_name: &str,
    member_name: &str,
    arg: Option<&str>,
) -> (outcome: Result<zbus::zvariant::Signature<'static>, LookupError>)
    ensures
        signature_outcome(outcome) == looked_up_in_text(
            xml@,
            interface_name@,
            MemberKind::Signal,
            member_name@,
            opt_str_text(arg),
        ),
{
    signature_in_text(xml, interface_name, MemberKind::Signal, member_name, arg)
}

/// Retrieves the signature of a property's type from the text of a description.
pub fn get_property_type(xml: &str, interface_name: &str, property_name: &str) -> (outcome: Result<
    zbus::zvariant::Signature<'static>,
    LookupError,
>)
    ensures
        signature_outcome(outcome) == looked_up_in_text(
            xml@,
            interface_name@,
            MemberKind::Property,
            property_name@,
            None,
        ),
{
    signature_in_text(xml, interface_name, MemberKind::Property, property_name, None)
}

/// Retrieves the signature of what a method returns from the text of a description.
///
/// With an argument name, the signature of that argument alone, whatever its direction;
/// without one, the signatures of all arguments marked `out`, joined in declared order.
pub fn get_method_return_type(
    xml: &str,
    interface_name: &str,
    member_name: &str,
    arg_name: Option<&str>,
) -> (outcome: Result<zbus::zvariant::Signature<'static>, LookupError>)
    ensures
        signature_outcome(outcome) == looked_up_in_text(
            xml@,
            interface_name@,
            MemberKind::MethodOut,
            member_name@,
            opt_str_text(arg_name),
        ),
{
    signature_in_text(xml, interface_name, MemberKind::MethodOut, member_name, arg_name)
}

/// Retrieves the signature of what a method takes from the text of a description.
///
/// With an argument name, the signature of that argument alone, whatever its direction;
/// without one, the signatures of all arguments marked `in`, joined in declared order.
pub fn get_method_args_type(
    xml: &str,
    interface_name: &str,
    member_name: &str,
    arg_name: Option<&str>,
) -> (outcome: Result<zbus::zvariant::Signature<'static>, LookupError>)
    ensures
        signature_outcome(outcome) == looked_up_in_text(
            xml@,
            interface_name@,
            MemberKind::MethodIn,
            member_name@,
            opt_str_text(arg_name),
        ),
{
    signature_in_text(xml, interface_name, MemberKind::MethodIn, member_name, arg_name)
}

/// Decides whether two signature values denote the same shape.
pub fn signatures_are_eq(
    lhs: &zbus::zvariant::Signature<'_>,
    rhs: &zbus::zvariant::Signature<'_>,
) -> (same: bool)
    ensures
        same == same_shape(signature_text(*lhs), signature_text(*rhs)),
{
    equivalent(lhs.as_str(), rhs.as_str())
}

} // verus!
