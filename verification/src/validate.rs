//! Validating a record type against the signal that it models, from the texts of the
//! descriptions to the answer.

use vstd::prelude::*;
use crate::equivalence::{check_equivalent, mismatch_message, same_shape, SignatureMismatch};
use crate::extract::{first_where, MemberKind};
use crate::lookup::{looked_up, signature_in, LookupError, LookupFault};
use crate::model::{documents_view, DocumentView, InterfaceDocument, InterfaceView};
use crate::resolve::{
    resolve, resolved, resolutions_view, DeclarationKind, KeyView, Resolution, ResolutionError,
    ResolutionKey, ResolutionView, Resolved,
};
use crate::text::{opt_text, same_text};
use crate::xml::{described, parse_document, FailureView, ParseFailure};

verus! {

/// The text of one description, and where it came from.
#[derive(Debug, PartialEq, Eq)]
pub struct DocumentSource {
    pub identity: String,
    pub text: String,
}

/// The mathematical value of a [`DocumentSource`].
pub ghost struct SourceView {
    pub identity: Seq<char>,
    pub text: Seq<char>,
}

impl View for DocumentSource {
    type V = SourceView;

    open spec fn view(&self) -> SourceView {
        SourceView { identity: self.identity@, text: self.text@ }
    }
}

/// The values of a list of sources, in order.
pub open spec fn sources_view(sources: Seq<DocumentSource>) -> Seq<SourceView> {
    sources.map_values(|s: DocumentSource| s@)
}

/// What the first `upto` sources describe: their documents in order, or the failure of
/// the first of them that is no interface description.
pub open spec fn described_upto(sources: Seq<SourceView>, upto: int) -> Result<
    Seq<DocumentView>,
    FailureView,
>
    decreases upto,
{
    if upto <= 0 {
        Ok(Seq::empty())
    } else {
        match described_upto(sources, upto - 1) {
            Ok(earlier) => match described(sources[upto - 1].text) {
                Ok(interfaces) => Ok(
                    earlier.push(
                        DocumentView { identity: sources[upto - 1].identity, interfaces },
                    ),
                ),
                Err(reason) => Err(
                    FailureView { document: sources[upto - 1].identity, reason },
                ),
            },
            Err(failure) => Err(failure),
        }
    }
}

/// What a list of sources describes.
pub open spec fn described_all(sources: Seq<SourceView>) -> Result<Seq<DocumentView>, FailureView> {
    described_upto(sources, sources.len() as int)
}

/// Parses every source, in order. The first source that is no interface description ends
/// the work, and the failure names it.
pub fn parse_documents(sources: &Vec<DocumentSource>) -> (parsed: Result<
    Vec<InterfaceDocument>,
    ParseFailure,
>)
    ensures
        match described_all(sources_view(sources@)) {
            Ok(documents) => parsed is Ok && documents_view(parsed->Ok_0@) == documents,
            Err(failure) => parsed is Err && parsed->Err_0@ == failure,
        },
{
    let ghost all = sources_view(sources@);
    let mut documents: Vec<InterfaceDocument> = Vec::new();
    let mut k: usize = 0;
    assert(documents_view(documents@) =~= Seq::<DocumentView>::empty());
    while k < sources.len()
        invariant
            k <= sources@.len(),
            all == sources_view(sources@),
            described_upto(all, k as int) == Ok::<Seq<DocumentView>, FailureView>(
                documents_view(documents@),
            ),
        decreases sources@.len() - k,
    {
        match parse_document(sources[k].identity.as_str(), sources[k].text.as_str()) {
            Ok(document) => {
                let ghost before = documents@;
                documents.push(document);
                assert(documents_view(documents@) =~= documents_view(before).push(document@));
            },
            Err(failure) => {
                proof {
                    lemma_failure_stays(all, k + 1, all.len() as int);
                }
                return Err(failure);
            },
        }
        k += 1;
    }
    Ok(documents)
}

/// Once a source has failed, looking at more sources changes nothing.
proof fn lemma_failure_stays(sources: Seq<SourceView>, failed: int, upto: int)
    requires
        failed <= upto,
        described_upto(sources, failed) is Err,
    ensures
        described_upto(sources, upto) == described_upto(sources, failed),
    decreases upto - failed,
{
    if failed < upto {
        lemma_failure_stays(sources, failed, upto - 1);
    }
}

/// The names that an attribute's argument list may use.
#[derive(Clone, Copy, Debug, PartialEq, Eq, Structural)]
pub enum ArgumentName {
    Xml,
    Interface,
    Signal,
}

/// What the caller said about where and how to look: the directory of the descriptions,
/// the interface, and the signal. Each is optional.
#[derive(Debug, PartialEq, Eq)]
pub struct ValidateArgs {
    pub xml: Option<String>,
    pub interface: Option<String>,
    pub signal: Option<String>,
}

/// The mathematical value of a [`ValidateArgs`].
pub ghost struct ArgsView {
    pub xml: Option<Seq<char>>,
    pub interface: Option<Seq<char>>,
    pub signal: Option<Seq<char>>,
}

impl View for ValidateArgs {
    type V = ArgsView;

    open spec fn view(&self) -> ArgsView {
        ArgsView {
            xml: opt_text(self.xml),
            interface: opt_text(self.interface),
            signal: opt_text(self.signal),
        }
    }
}

/// The argument that a name stands for: `xml`, `interface` or `signal`, and nothing else.
pub open spec fn recognized(name: Seq<char>) -> Option<ArgumentName> {
    if name == "xml"@ {
        Some(ArgumentName::Xml)
    } else if name == "interface"@ {
        Some(ArgumentName::Interface)
    } else if name == "signal"@ {
        Some(ArgumentName::Signal)
    } else {
        None
    }
}

/// The arguments with one of them given a value. A later value replaces an earlier one.
pub open spec fn with_value(args: ArgsView, name: ArgumentName, value: Seq<char>) -> ArgsView {
    match name {
        ArgumentName::Xml => ArgsView { xml: Some(value), ..args },
        ArgumentName::Interface => ArgsView { interface: Some(value), ..args },
        ArgumentName::Signal => ArgsView { signal: Some(value), ..args },
    }
}

/// The directory that the descriptions are read from: the one that the environment names
/// goes before the one that the arguments name, and that before the conventional one.
pub open spec fn chosen_path(
    overriding: Option<Seq<char>>,
    given: Option<Seq<char>>,
    conventional: Option<Seq<char>>,
) -> Option<Seq<char>> {
    if overriding is Some {
        overriding
    } else if given is Some {
        given
    } else {
        conventional
    }
}

/// The key that a record type of the given name is searched by under these arguments.
pub open spec fn key_of(args: ArgsView, item_name: Seq<char>) -> KeyView {
    KeyView { item_name, interface: args.interface, member: args.signal }
}

impl ValidateArgs {
    /// No argument given.
    pub fn new() -> (args: ValidateArgs)
        ensures
            args@ == (ArgsView { xml: None, interface: None, signal: None }),
    {
        ValidateArgs { xml: None, interface: None, signal: None }
    }

    /// Which argument a name stands for; `None` for a name that is not an argument's.
    pub fn recognize(name: &str) -> (known: Option<ArgumentName>)
        ensures
            known == recognized(name@),
    {
        if same_text(name, "xml") {
            Some(ArgumentName::Xml)
        } else if same_text(name, "interface") {
            Some(ArgumentName::Interface)
        } else if same_text(name, "signal") {
            Some(ArgumentName::Signal)
        } else {
            None
        }
    }

    /// Gives one argument its value.
    pub fn set(&mut self, name: ArgumentName, value: String)
        ensures
            final(self)@ == with_value(old(self)@, name, value@),
    {
        match name {
            ArgumentName::Xml => {
                self.xml = Some(value);
            },
            ArgumentName::Interface => {
                self.interface = Some(value);
            },
            ArgumentName::Signal => {
                self.signal = Some(value);
            },
        }
    }

    /// The directory that the descriptions are read from, given what the environment
    /// names and where the conventional directory is, if either is there.
    pub fn xml_path(&self, overriding: Option<String>, conventional: Option<String>) -> (chosen:
        Option<String>)
        ensures
            opt_text(chosen) == chosen_path(
                opt_text(overriding),
                self@.xml,
                opt_text(conventional),
            ),
    {
        if overriding.is_some() {
            overriding
        } else if self.xml.is_some() {
            self.xml.clone()
        } else {
            conventional
        }
    }

    /// The key that a record type of the given name is searched by.
    pub fn key(&self, item_name: &str) -> (key: ResolutionKey)
        ensures
            key@ == key_of(self@, item_name@),
    {
        ResolutionKey {
            item_name: item_name.to_owned(),
            interface: self.interface.clone(),
            member: self.signal.clone(),
        }
    }
}

/// Why a record type was not validated.
#[derive(Debug, PartialEq, Eq)]
pub enum ValidateError {
    /// A source is no interface description.
    Parse(ParseFailure),
    /// No signal matches the record type.
    NotFound { key: String },
    /// Two or more signals match the record type.
    Ambiguous { key: String, candidates: Vec<Resolution> },
    /// The signal that was found could not be read again by its names.
    Lookup(LookupError),
    /// The record type's signature is not the shape of the signal's body.
    Mismatch(SignatureMismatch),
}

/// The mathematical value of a [`ValidateError`].
pub ghost enum ValidateFault {
    Parse(FailureView),
    NotFound(Seq<char>),
    Ambiguous(Seq<char>, Seq<ResolutionView>),
    Lookup(LookupFault),
    Mismatch(Seq<char>, Seq<char>),
}

impl View for ValidateError {
    type V = ValidateFault;

    open spec fn view(&self) -> ValidateFault {
        match self {
            ValidateError::Parse(failure) => ValidateFault::Parse(failure@),
            ValidateError::NotFound { key } => ValidateFault::NotFound(key@),
            ValidateError::Ambiguous { key, candidates } => ValidateFault::Ambiguous(
                key@,
                resolutions_view(candidates@),
            ),
            ValidateError::Lookup(error) => ValidateFault::Lookup(error@),
            ValidateError::Mismatch(mismatch) => ValidateFault::Mismatch(
                mismatch.expected@,
                mismatch.found@,
            ),
        }
    }
}

/// The interfaces of the first document of that identity; none where there is no such
/// document.
pub open spec fn interfaces_of(documents: Seq<DocumentView>, identity: Seq<char>) -> Seq<
    InterfaceView,
> {
    match first_where(documents, |d: DocumentView| d.identity == identity, 0) {
        Some(k) => documents[k].interfaces,
        None => Seq::empty(),
    }
}

/// The body of the signal that a resolution names, read by its names: the first document
/// of the identity, the first interface of the name in it, the first signal of the name
/// in that.
pub open spec fn body_of(documents: Seq<DocumentView>, resolution: ResolutionView) -> Result<
    Seq<char>,
    LookupFault,
> {
    looked_up(
        interfaces_of(documents, resolution.document),
        resolution.interface,
        MemberKind::Signal,
        resolution.member,
        None,
    )
}

/// What validating a record type against parsed documents gives: the signal that it
/// corresponds to, if there is exactly one and the body of that signal has the shape of
/// the record type's signature.
pub open spec fn validated_in(
    documents: Seq<DocumentView>,
    key: KeyView,
    item_signature: Seq<char>,
) -> Result<ResolutionView, ValidateFault> {
    match resolved(documents, DeclarationKind::Signal, key) {
        Resolved::Missing(searched) => Err(ValidateFault::NotFound(searched)),
        Resolved::Contested(searched, found) => Err(ValidateFault::Ambiguous(searched, found)),
        Resolved::Unique(resolution) => match body_of(documents, resolution) {
            Err(fault) => Err(ValidateFault::Lookup(fault)),
            Ok(body) => if same_shape(body, item_signature) {
                Ok(resolution)
            } else {
                Err(ValidateFault::Mismatch(body, item_signature))
            },
        },
    }
}

/// What validating a record type against the texts of descriptions gives.
pub open spec fn validated(
    sources: Seq<SourceView>,
    args: ArgsView,
    item_name: Seq<char>,
    item_signature: Seq<char>,
) -> Result<ResolutionView, ValidateFault> {
    match described_all(sources) {
        Err(failure) => Err(ValidateFault::Parse(failure)),
        Ok(documents) => validated_in(documents, key_of(args, item_name), item_signature),
    }
}

/// What a result of a validation stands for.
pub open spec fn validation_view(outcome: Result<Resolution, ValidateError>) -> Result<
    ResolutionView,
    ValidateFault,
> {
    match outcome {
        Ok(resolution) => Ok(resolution@),
        Err(error) => Err(error@),
    }
}

/// Finds the first document of the given identity.
fn find_document(documents: &Vec<InterfaceDocument>, identity: &String) -> (found: Option<usize>)
    ensures
        match found {
            Some(k) => k < documents@.len() && first_where(
                documents_view(documents@),
                |d: DocumentView| d.identity == identity@,
                0,
            ) == Some(k as int),
            None => first_where(
                documents_view(documents@),
                |d: DocumentView| d.identity == identity@,
                0,
            ) is None,
        },
{
    let ghost all = documents_view(documents@);
    let mut k: usize = 0;
    while k < documents.len()
        invariant
            k <= documents@.len(),
            all == documents_view(documents@),
            first_where(all, |d: DocumentView| d.identity == identity@, 0) == first_where(
                all,
                |d: DocumentView| d.identity == identity@,
                k as int,
            ),
        decreases documents@.len() - k,
    {
        if documents[k].identity == *identity {
            return Some(k);
        }
        k += 1;
    }
    None
}

/// Reads the body of the signal that a resolution names.
pub fn signal_body(documents: &Vec<InterfaceDocument>, resolution: &Resolution) -> (outcome: Result<
    String,
    LookupError,
>)
    ensures
        crate::lookup::text_outcome(outcome) == body_of(documents_view(documents@), resolution@),
{
    match find_document(documents, &resolution.document) {
        Some(k) => signature_in(
            &documents[k].interfaces,
            resolution.interface.as_str(),
            MemberKind::Signal,
            resolution.member.as_str(),
            None,
        ),
        None => Err(LookupError::InterfaceNotFound),
    }
}

/// Validates a record type against parsed documents: finds the one signal that the key
/// matches, reads its body, and compares the body with the record type's own signature.
pub fn validate_in(
    documents: &Vec<InterfaceDocument>,
    key: &ResolutionKey,
    item_signature: &str,
) -> (outcome: Result<Resolution, ValidateError>)
    ensures
        validation_view(outcome) == validated_in(
            documents_view(documents@),
            key@,
            item_signature@,
        ),
{
    let resolution = match resolve(documents, DeclarationKind::Signal, key) {
        Ok(resolution) => resolution,
        Err(ResolutionError::NotFound { key }) => {
            return Err(ValidateError::NotFound { key });
        },
        Err(ResolutionError::Ambiguous { key, candidates }) => {
            return Err(ValidateError::Ambiguous { key, candidates });
        },
    };
    let body = match signal_body(documents, &resolution) {
        Ok(body) => body,
        Err(error) => {
            return Err(ValidateError::Lookup(error));
        },
    };
    match check_equivalent(body.as_str(), item_signature) {
        Ok(()) => Ok(resolution),
        Err(mismatch) => Err(ValidateError::Mismatch(mismatch)),
    }
}

/// Validates a record type's signature against the body of the signal that it models.
///
/// `sources` are the texts of the descriptions to search, `args` what the caller said
/// about the interface and the signal, `item_name` the record type's declared name and
/// `item_signature` the signature that the record type computes for itself. The signal is
/// the one whose name `args` gives or, where it gives none, the one whose name stands in
/// `item_name`. On success the signal that was found is returned.
pub fn validate(
    sources: &Vec<DocumentSource>,
    args: &ValidateArgs,
    item_name: &str,
    item_signature: &str,
) -> (outcome: Result<Resolution, ValidateError>)
    ensures
        validation_view(outcome) == validated(
            sources_view(sources@),
            args@,
            item_name@,
            item_signature@,
        ),
{
    let documents = match parse_documents(sources) {
        Ok(documents) => documents,
        Err(failure) => {
            return Err(ValidateError::Parse(failure));
        },
    };
    let key = args.key(item_name);
    validate_in(&documents, &key, item_signature)
}

/// The signal that a record type corresponds to in the texts of descriptions: the one
/// signal that the key matches, once every text is parsed.
pub open spec fn found_signal(
    sources: Seq<SourceView>,
    args: ArgsView,
    item_name: Seq<char>,
) -> Result<ResolutionView, ValidateFault> {
    match described_all(sources) {
        Err(failure) => Err(ValidateFault::Parse(failure)),
        Ok(documents) => match resolved(
            documents,
            DeclarationKind::Signal,
            key_of(args, item_name),
        ) {
            Resolved::Unique(resolution) => Ok(resolution),
            Resolved::Missing(searched) => Err(ValidateFault::NotFound(searched)),
            Resolved::Contested(searched, found) => Err(ValidateFault::Ambiguous(searched, found)),
        },
    }
}

/// Finds the signal that a record type corresponds to in the texts of descriptions. This
/// is the part of a validation that needs no signature.
pub fn locate(
    sources: &Vec<DocumentSource>,
    args: &ValidateArgs,
    item_name: &str,
) -> (outcome: Result<Resolution, ValidateError>)
    ensures
        validation_view(outcome) == found_signal(sources_view(sources@), args@, item_name@),
{
    let documents = match parse_documents(sources) {
        Ok(documents) => documents,
        Err(failure) => {
            return Err(ValidateError::Parse(failure));
        },
    };
    let key = args.key(item_name);
    match resolve(&documents, DeclarationKind::Signal, &key) {
        Ok(resolution) => Ok(resolution),
        Err(ResolutionError::NotFound { key }) => Err(ValidateError::NotFound { key }),
        Err(ResolutionError::Ambiguous { key, candidates }) => Err(
            ValidateError::Ambiguous { key, candidates },
        ),
    }
}

/// The first `upto` candidates, each on a line of its own: interface, signal and, in
/// round brackets, document.
pub open spec fn listing(candidates: Seq<ResolutionView>, upto: int) -> Seq<char>
    decreases upto,
{
    if upto <= 0 {
        Seq::empty()
    } else {
        listing(candidates, upto - 1) + "\n  "@ + candidates[upto - 1].interface + " "@
            + candidates[upto - 1].member + " ("@ + candidates[upto - 1].document + ")"@
    }
}

/// How the report of an ambiguity starts, up to the key that was searched for.
pub open spec fn ambiguity_heading() -> Seq<char> {
    "Multiple interfaces with the same signal name. Please disambiguate. Searched for '"@
}

/// What a failed validation says to the person who has to mend it. A failed search names
/// the key that was searched for; an ambiguity asks for more arguments and lists every
/// signal that matched; a mismatch shows both signatures.
pub open spec fn fault_message(fault: ValidateFault) -> Seq<char> {
    match fault {
        ValidateFault::Parse(failure) => "Failed to parse XML file: \""@ + failure.document
            + "\" Err: "@ + failure.reason,
        ValidateFault::NotFound(key) => "No interface matching signal name '"@ + key
            + "' found."@,
        ValidateFault::Ambiguous(key, found) => ambiguity_heading() + key + "', found:"@
            + listing(found, found.len() as int),
        ValidateFault::Lookup(_) => "Failed to get signal body type from XML file"@,
        ValidateFault::Mismatch(expected, found) => mismatch_message(expected, found),
    }
}

/// Lists candidates, each on a line of its own.
fn list_candidates(candidates: &Vec<Resolution>) -> (lines: String)
    ensures
        lines@ == listing(resolutions_view(candidates@), candidates@.len() as int),
{
    let ghost all = resolutions_view(candidates@);
    let mut lines = String::new();
    let mut k: usize = 0;
    while k < candidates.len()
        invariant
            k <= candidates@.len(),
            all == resolutions_view(candidates@),
            lines@ == listing(all, k as int),
        decreases candidates@.len() - k,
    {
        lines.append("\n  ");
        lines.append(candidates[k].interface.as_str());
        lines.append(" ");
        lines.append(candidates[k].member.as_str());
        lines.append(" (");
        lines.append(candidates[k].document.as_str());
        lines.append(")");
        k += 1;
    }
    lines
}

impl ValidateError {
    /// What this failure says to the person who has to mend it.
    pub fn message(&self) -> (report: String)
        ensures
            report@ == fault_message(self@),
    {
        match self {
            ValidateError::Parse(failure) => {
                let mut report = "Failed to parse XML file: \"".to_owned();
                report.append(failure.document.as_str());
                report.append("\" Err: ");
                report.append(failure.reason.as_str());
                report
            },
            ValidateError::NotFound { key } => {
                let mut report = "No interface matching signal name '".to_owned();
                report.append(key.as_str());
                report.append("' found.");
                report
            },
            ValidateError::Ambiguous { key, candidates } => {
                let mut report =
                    "Multiple interfaces with the same signal name. Please disambiguate. Searched for '".to_owned();
                report.append(key.as_str());
                report.append("', found:");
                let lines = list_candidates(candidates);
                report.append(lines.as_str());
                report
            },
            ValidateError::Lookup(_) => "Failed to get signal body type from XML file".to_owned(),
            ValidateError::Mismatch(mismatch) => mismatch.message(),
        }
    }
}

} // verus!
