//! Reading the signature of one member off an interface.

use vstd::prelude::*;
use crate::model::{
    args_view, methods_view, properties_view, signals_view, Argument, ArgumentView,
    InterfaceDecl, InterfaceView, MemberView, MethodDecl, PropertyDecl, PropertyView, SignalDecl,
};
use crate::text::{opt_str_text, opt_text, owned_text};

verus! {

/// Which signature of which kind of member is asked for.
#[derive(Clone, Copy, Debug, PartialEq, Eq)]
pub enum MemberKind {
    /// The body of a signal.
    Signal,
    /// The arguments that a method takes.
    MethodIn,
    /// The values that a method returns.
    MethodOut,
    /// The type of a property.
    Property,
}

/// Why an interface gave no signature.
#[derive(Clone, Copy, Debug, PartialEq, Eq, Structural)]
pub enum ExtractError {
    /// The interface declares no member of that name in the list that was asked for.
    MemberNotFound,
    /// The member has no argument of that name.
    ArgNotFound,
}

/// The direction attribute that marks an argument as taken by a method.
pub open spec fn incoming() -> Seq<char> {
    "in"@
}

/// The direction attribute that marks an argument as returned by a method.
pub open spec fn outgoing() -> Seq<char> {
    "out"@
}

/// The direction that the arguments of a member are filtered by: none for a signal, whose
/// arguments all belong to the body.
pub open spec fn direction_of(kind: MemberKind) -> Option<Seq<char>> {
    match kind {
        MemberKind::MethodIn => Some(incoming()),
        MemberKind::MethodOut => Some(outgoing()),
        _ => None,
    }
}

/// The position of the first item from `from` on that `wanted` holds of.
pub open spec fn first_where<T>(items: Seq<T>, wanted: spec_fn(T) -> bool, from: int) -> Option<int>
    decreases items.len() - from,
{
    if from < 0 || from >= items.len() {
        None
    } else if wanted(items[from]) {
        Some(from)
    } else {
        first_where(items, wanted, from + 1)
    }
}

/// The position of the first member of that name.
pub open spec fn first_member(members: Seq<MemberView>, name: Seq<char>) -> Option<int> {
    first_where(members, |m: MemberView| m.name == name, 0)
}

/// The position of the first property of that name.
pub open spec fn first_property(properties: Seq<PropertyView>, name: Seq<char>) -> Option<int> {
    first_where(properties, |p: PropertyView| p.name == name, 0)
}

/// The position of the first argument of that name. An argument without a name is never
/// found.
pub open spec fn first_arg(args: Seq<ArgumentView>, name: Seq<char>) -> Option<int> {
    first_where(args, |a: ArgumentView| a.name == Some(name), 0)
}

/// An argument counts towards a signature unless a direction is asked for and the
/// argument is not marked with it.
pub open spec fn selected(direction: Option<Seq<char>>, arg: ArgumentView) -> bool {
    match direction {
        Some(wanted) => arg.direction == Some(wanted),
        None => true,
    }
}

/// The signatures of those of the first `upto` arguments that count, one after another in
/// declared order, with nothing put around or between them.
pub open spec fn joined(args: Seq<ArgumentView>, direction: Option<Seq<char>>, upto: int) -> Seq<
    char,
>
    decreases upto,
{
    if upto <= 0 {
        Seq::empty()
    } else {
        let earlier = joined(args, direction, upto - 1);
        if selected(direction, args[upto - 1]) {
            earlier + args[upto - 1].ty
        } else {
            earlier
        }
    }
}

/// The signature that a list of arguments gives: that of the first argument of the given
/// name, whatever its direction; or, where no name is given, the signatures of all
/// arguments of the given direction, joined.
pub open spec fn args_signature(
    args: Seq<ArgumentView>,
    direction: Option<Seq<char>>,
    arg: Option<Seq<char>>,
) -> Result<Seq<char>, ExtractError> {
    match arg {
        Some(name) => match first_arg(args, name) {
            Some(k) => Ok(args[k].ty),
            None => Err(ExtractError::ArgNotFound),
        },
        None => Ok(joined(args, direction, args.len() as int)),
    }
}

/// The signature that an interface gives for a member: for a property its type, and no
/// argument name is looked at; for a signal or a method what its arguments give. The first
/// member of the name counts.
pub open spec fn extracted(
    interface: InterfaceView,
    kind: MemberKind,
    member: Seq<char>,
    arg: Option<Seq<char>>,
) -> Result<Seq<char>, ExtractError> {
    match kind {
        MemberKind::Property => match first_property(interface.properties, member) {
            Some(k) => Ok(interface.properties[k].ty),
            None => Err(ExtractError::MemberNotFound),
        },
        MemberKind::Signal => match first_member(interface.signals, member) {
            Some(k) => args_signature(interface.signals[k].args, direction_of(kind), arg),
            None => Err(ExtractError::MemberNotFound),
        },
        _ => match first_member(interface.methods, member) {
            Some(k) => args_signature(interface.methods[k].args, direction_of(kind), arg),
            None => Err(ExtractError::MemberNotFound),
        },
    }
}

/// What a result of an extraction stands for.
pub open spec fn extraction_view(outcome: Result<String, ExtractError>) -> Result<
    Seq<char>,
    ExtractError,
> {
    match outcome {
        Ok(signature) => Ok(signature@),
        Err(error) => Err(error),
    }
}

/// Whether an argument counts towards a signature of the given direction.
fn is_selected(direction: &Option<String>, arg: &Argument) -> (counts: bool)
    ensures
        counts == selected(opt_text(*direction), arg@),
{
    match direction {
        Some(wanted) => match &arg.direction {
            Some(marked) => *marked == *wanted,
            None => false,
        },
        None => true,
    }
}

/// Joins the signatures of the arguments that count.
fn join_types(args: &Vec<Argument>, direction: &Option<String>) -> (signature: String)
    ensures
        signature@ == joined(
            args_view(args@),
            opt_text(*direction),
            args@.len() as int,
        ),
{
    let ghost all = args_view(args@);
    let ghost wanted = opt_text(*direction);
    let mut signature = String::new();
    let mut k: usize = 0;
    while k < args.len()
        invariant
            k <= args@.len(),
            all == args_view(args@),
            wanted == opt_text(*direction),
            signature@ == joined(all, wanted, k as int),
        decreases args@.len() - k,
    {
        if is_selected(direction, &args[k]) {
            signature.append(args[k].ty.as_str());
        }
        k += 1;
    }
    signature
}

/// Finds the first argument of the given name.
fn find_arg(args: &Vec<Argument>, name: &String) -> (found: Option<usize>)
    ensures
        match found {
            Some(k) => k < args@.len() && first_arg(args_view(args@), name@) == Some(k as int),
            None => first_arg(args_view(args@), name@) is None,
        },
{
    let ghost all = args_view(args@);
    let mut k: usize = 0;
    while k < args.len()
        invariant
            k <= args@.len(),
            all == args_view(args@),
            first_arg(all, name@) == first_where(
                all,
                |a: ArgumentView| a.name == Some(name@),
                k as int,
            ),
        decreases args@.len() - k,
    {
        let here = match &args[k].name {
            Some(given) => *given == *name,
            None => false,
        };
        if here {
            return Some(k);
        }
        k += 1;
    }
    None
}

/// The signature that a list of arguments gives.
fn signature_of_args(
    args: &Vec<Argument>,
    direction: &Option<String>,
    arg: &Option<String>,
) -> (outcome: Result<String, ExtractError>)
    ensures
        extraction_view(outcome) == args_signature(
            args_view(args@),
            opt_text(*direction),
            opt_text(*arg),
        ),
{
    match arg {
        Some(name) => match find_arg(args, name) {
            Some(k) => Ok(args[k].ty.clone()),
            None => Err(ExtractError::ArgNotFound),
        },
        None => Ok(join_types(args, direction)),
    }
}

/// Finds the first signal of the given name.
fn find_signal(signals: &Vec<SignalDecl>, name: &String) -> (found: Option<usize>)
    ensures
        match found {
            Some(k) => k < signals@.len() && first_member(
                signals_view(signals@),
                name@,
            ) == Some(k as int),
            None => first_member(signals_view(signals@), name@) is None,
        },
{
    let ghost all = signals_view(signals@);
    let mut k: usize = 0;
    while k < signals.len()
        invariant
            k <= signals@.len(),
            all == signals_view(signals@),
            first_member(all, name@) == first_where(
                all,
                |m: MemberView| m.name == name@,
                k as int,
            ),
        decreases signals@.len() - k,
    {
        if signals[k].name == *name {
            return Some(k);
        }
        k += 1;
    }
    None
}

/// Finds the first method of the given name.
fn find_method(methods: &Vec<MethodDecl>, name: &String) -> (found: Option<usize>)
    ensures
        match found {
            Some(k) => k < methods@.len() && first_member(
                methods_view(methods@),
                name@,
            ) == Some(k as int),
            None => first_member(methods_view(methods@), name@) is None,
        },
{
    let ghost all = methods_view(methods@);
    let mut k: usize = 0;
    while k < methods.len()
        invariant
            k <= methods@.len(),
            all == methods_view(methods@),
            first_member(all, name@) == first_where(
                all,
                |m: MemberView| m.name == name@,
                k as int,
            ),
        decreases methods@.len() - k,
    {
        if methods[k].name == *name {
            return Some(k);
        }
        k += 1;
    }
    None
}

/// Finds the first property of the given name.
fn find_property(properties: &Vec<PropertyDecl>, name: &String) -> (found: Option<usize>)
    ensures
        match found {
            Some(k) => k < properties@.len() && first_property(
                properties_view(properties@),
                name@,
            ) == Some(k as int),
            None => first_property(properties_view(properties@), name@) is None,
        },
{
    let ghost all = properties_view(properties@);
    let mut k: usize = 0;
    while k < properties.len()
        invariant
            k <= properties@.len(),
            all == properties_view(properties@),
            first_property(all, name@) == first_where(
                all,
                |p: PropertyView| p.name == name@,
                k as int,
            ),
        decreases properties@.len() - k,
    {
        if properties[k].name == *name {
            return Some(k);
        }
        k += 1;
    }
    None
}

/// The direction that the arguments of a member are filtered by.
fn direction_for(kind: MemberKind) -> (direction: Option<String>)
    ensures
        opt_text(direction) == direction_of(kind),
{
    match kind {
        MemberKind::MethodIn => Some("in".to_owned()),
        MemberKind::MethodOut => Some("out".to_owned()),
        _ => None,
    }
}

/// Reads the signature of one member off an interface.
///
/// For a property this is its type, and `arg_name` is not looked at. For a signal it is
/// the signatures of its arguments joined in declared order; for a method, of those
/// arguments marked with the direction asked for. Where `arg_name` is given, it is the
/// signature of the first argument of that name alone, whatever its direction.
///
/// Fails with `MemberNotFound` where the interface has no such member, and with
/// `ArgNotFound` where the member has no argument of the name given.
pub fn extract(
    interface: &InterfaceDecl,
    kind: MemberKind,
    member_name: &str,
    arg_name: Option<&str>,
) -> (outcome: Result<String, ExtractError>)
    ensures
        extraction_view(outcome) == extracted(
            interface@,
            kind,
            member_name@,
            opt_str_text(arg_name),
        ),
{
    let member = member_name.to_owned();
    let arg = owned_text(arg_name);
    let direction = direction_for(kind);
    match kind {
        MemberKind::Property => match find_property(&interface.properties, &member) {
            Some(k) => Ok(interface.properties[k].ty.clone()),
            None => Err(ExtractError::MemberNotFound),
        },
        MemberKind::Signal => match find_signal(&interface.signals, &member) {
            Some(k) => signature_of_args(&interface.signals[k].args, &direction, &arg),
            None => Err(ExtractError::MemberNotFound),
        },
        _ => match find_method(&interface.methods, &member) {
            Some(k) => signature_of_args(&interface.methods[k].args, &direction, &arg),
            None => Err(ExtractError::MemberNotFound),
        },
    }
}

} // verus!
