//! The signature values of `zvariant`, as far as this library handles them.

use vstd::prelude::*;

verus! {

/// The signature type of `zvariant`, which callers of this library hold their own
/// signatures in. Nothing of its inside is visible here.
#[verifier::external_type_specification]
#[verifier::external_body]
pub struct ExSignature<'a>(zbus::zvariant::Signature<'a>);

/// The text that a signature value spells.
pub uninterp spec fn signature_text(signature: zbus::zvariant::Signature<'_>) -> Seq<char>;

/// `Signature::from_string_unchecked` keeps the given text as it is, without looking at
/// it.
pub assume_specification<'a>[ zbus::zvariant::Signature::<'a>::from_string_unchecked ](
    signature: String,
) -> (made: zbus::zvariant::Signature<'a>)
    ensures
        signature_text(made) == signature@,
;

/// `Signature::as_str` returns the text that the signature spells.
pub assume_specification<'a, 'b>[ zbus::zvariant::Signature::<'a>::as_str ](
    signature: &'b zbus::zvariant::Signature<'a>,
) -> (text: &'b str)
    ensures
        text@ == signature_text(*signature),
;

} // verus!
