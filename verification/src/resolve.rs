//! Finding the one declaration that a record type corresponds to.
//!
//! Every interface of every document is searched, in order. A member matches by the name
//! that the caller gave, or else by standing in the record type's name. One match is the
//! answer; two are an ambiguity, and none of them is preferred.

use vstd::prelude::*;
use crate::model::{
    documents_view, DocumentView, InterfaceDecl, InterfaceDocument, InterfaceView, MemberView,
    PropertyView,
};
use crate::text::{contains, is_substring, opt_text};

verus! {

/// Which list of an interface a record type is looked up in.
#[derive(Clone, Copy, Debug, PartialEq, Eq)]
pub enum DeclarationKind {
    Signal,
    Method,
    Property,
}

/// What a record type is looked up by: its declared name, and the interface and member
/// names where the caller gave them.
#[derive(Debug, PartialEq, Eq)]
pub struct ResolutionKey {
    pub item_name: String,
    pub interface: Option<String>,
    pub member: Option<String>,
}

/// The mathematical value of a [`ResolutionKey`].
pub ghost struct KeyView {
    pub item_name: Seq<char>,
    pub interface: Option<Seq<char>>,
    pub member: Option<Seq<char>>,
}

impl View for ResolutionKey {
    type V = KeyView;

    open spec fn view(&self) -> KeyView {
        KeyView {
            item_name: self.item_name@,
            interface: opt_text(self.interface),
            member: opt_text(self.member),
        }
    }
}

/// One declaration that a record type may correspond to: the interface, the member in it,
/// and the document that declares them.
#[derive(Debug, PartialEq, Eq)]
pub struct Resolution {
    pub interface: String,
    pub member: String,
    pub document: String,
}

/// The mathematical value of a [`Resolution`].
pub ghost struct ResolutionView {
    pub interface: Seq<char>,
    pub member: Seq<char>,
    pub document: Seq<char>,
}

impl View for Resolution {
    type V = ResolutionView;

    open spec fn view(&self) -> ResolutionView {
        ResolutionView {
            interface: self.interface@,
            member: self.member@,
            document: self.document@,
        }
    }
}

/// The values of a list of resolutions, in order.
pub open spec fn resolutions_view(found: Seq<Resolution>) -> Seq<ResolutionView> {
    found.map_values(|r: Resolution| r@)
}

/// Why a record type was not resolved. Both variants name the key that was searched for;
/// `Ambiguous` lists every declaration that matched, in search order.
#[derive(Debug, PartialEq, Eq)]
pub enum ResolutionError {
    NotFound { key: String },
    Ambiguous { key: String, candidates: Vec<Resolution> },
}

/// The member names of an interface in the list that `kind` selects, in declared order.
pub open spec fn member_names(interface: InterfaceView, kind: DeclarationKind) -> Seq<Seq<char>> {
    match kind {
        DeclarationKind::Signal => interface.signals.map_values(|m: MemberView| m.name),
        DeclarationKind::Method => interface.methods.map_values(|m: MemberView| m.name),
        DeclarationKind::Property => interface.properties.map_values(|p: PropertyView| p.name),
    }
}

/// An interface is searched unless the key names another one.
pub open spec fn admits(key: KeyView, interface_name: Seq<char>) -> bool {
    match key.interface {
        Some(wanted) => interface_name == wanted,
        None => true,
    }
}

/// A member corresponds to the key if it bears the name that the key gives; where the key
/// gives none, if its name stands somewhere in the record type's name.
pub open spec fn corresponds(key: KeyView, member_name: Seq<char>) -> bool {
    match key.member {
        Some(wanted) => member_name == wanted,
        None => is_substring(member_name, key.item_name),
    }
}

/// The key that a failed search is reported under: the member name where the caller gave
/// one, else the record type's name.
pub open spec fn search_key(key: KeyView) -> Seq<char> {
    match key.member {
        Some(wanted) => wanted,
        None => key.item_name,
    }
}

/// Those of the first `upto` names that correspond to the key, in order.
pub open spec fn matching_names(names: Seq<Seq<char>>, key: KeyView, upto: int) -> Seq<Seq<char>>
    decreases upto,
{
    if upto <= 0 {
        Seq::empty()
    } else {
        let earlier = matching_names(names, key, upto - 1);
        if corresponds(key, names[upto - 1]) {
            earlier.push(names[upto - 1])
        } else {
            earlier
        }
    }
}

/// The given members of one interface of one document, each as a resolution.
pub open spec fn located(document: Seq<char>, interface: Seq<char>, members: Seq<Seq<char>>) -> Seq<
    ResolutionView,
> {
    members.map_values(|member: Seq<char>| ResolutionView { interface, member, document })
}

/// The declarations of one interface that the key matches, in declared order: none where
/// the key names another interface.
pub open spec fn interface_candidates(
    document: Seq<char>,
    interface: InterfaceView,
    kind: DeclarationKind,
    key: KeyView,
) -> Seq<ResolutionView> {
    if admits(key, interface.name) {
        let names = member_names(interface, kind);
        located(document, interface.name, matching_names(names, key, names.len() as int))
    } else {
        Seq::empty()
    }
}

/// The declarations that the key matches in the first `upto` interfaces of a document.
pub open spec fn document_candidates(
    document: DocumentView,
    kind: DeclarationKind,
    key: KeyView,
    upto: int,
) -> Seq<ResolutionView>
    decreases upto,
{
    if upto <= 0 {
        Seq::empty()
    } else {
        document_candidates(document, kind, key, upto - 1) + interface_candidates(
            document.identity,
            document.interfaces[upto - 1],
            kind,
            key,
        )
    }
}

/// The declarations that the key matches in the first `upto` documents: document by
/// document, and within a document in declared order.
pub open spec fn candidates_upto(
    documents: Seq<DocumentView>,
    kind: DeclarationKind,
    key: KeyView,
    upto: int,
) -> Seq<ResolutionView>
    decreases upto,
{
    if upto <= 0 {
        Seq::empty()
    } else {
        candidates_upto(documents, kind, key, upto - 1) + document_candidates(
            documents[upto - 1],
            kind,
            key,
            documents[upto - 1].interfaces.len() as int,
        )
    }
}

/// Every declaration that the key matches, in search order.
pub open spec fn candidates(
    documents: Seq<DocumentView>,
    kind: DeclarationKind,
    key: KeyView,
) -> Seq<ResolutionView> {
    candidates_upto(documents, kind, key, documents.len() as int)
}

/// What resolving the key gives: the one declaration that matches, or the reason why
/// there is no such one.
pub ghost enum Resolved {
    Unique(ResolutionView),
    Missing(Seq<char>),
    Contested(Seq<char>, Seq<ResolutionView>),
}

/// The outcome of a search is decided by how many declarations match: none is a failed
/// search, one is the answer, and two or more are an ambiguity whichever came first.
pub open spec fn resolved(
    documents: Seq<DocumentView>,
    kind: DeclarationKind,
    key: KeyView,
) -> Resolved {
    let found = candidates(documents, kind, key);
    if found.len() == 0 {
        Resolved::Missing(search_key(key))
    } else if found.len() == 1 {
        Resolved::Unique(found[0])
    } else {
        Resolved::Contested(search_key(key), found)
    }
}

/// The outcome that a result of [`resolve`] stands for.
pub open spec fn outcome_view(outcome: Result<Resolution, ResolutionError>) -> Resolved {
    match outcome {
        Ok(resolution) => Resolved::Unique(resolution@),
        Err(ResolutionError::NotFound { key }) => Resolved::Missing(key@),
        Err(ResolutionError::Ambiguous { key, candidates }) => Resolved::Contested(
            key@,
            resolutions_view(candidates@),
        ),
    }
}

/// No member of the list in any interface of any document corresponds to the key.
pub open spec fn nothing_corresponds(
    documents: Seq<DocumentView>,
    kind: DeclarationKind,
    key: KeyView,
) -> bool {
    forall|d: int, i: int, m: int|
        0 <= d < documents.len() && 0 <= i < documents[d].interfaces.len() && 0 <= m
            < member_names(documents[d].interfaces[i], kind).len() ==> !corresponds(
            key,
            #[trigger] member_names(#[trigger] documents[d].interfaces[i], kind)[m],
        )
}

/// Names of which none corresponds to the key give no match.
proof fn lemma_no_name_matches(names: Seq<Seq<char>>, key: KeyView, upto: int)
    requires
        upto <= names.len(),
        forall|m: int| 0 <= m < names.len() ==> !corresponds(key, #[trigger] names[m]),
    ensures
        matching_names(names, key, upto) == Seq::<Seq<char>>::empty(),
    decreases upto,
{
    if upto > 0 {
        lemma_no_name_matches(names, key, upto - 1);
    }
}

/// A document in which no member corresponds to the key gives no candidate.
proof fn lemma_no_candidate_in_document(
    document: DocumentView,
    kind: DeclarationKind,
    key: KeyView,
    upto: int,
)
    requires
        upto <= document.interfaces.len(),
        forall|i: int, m: int|
            0 <= i < document.interfaces.len() && 0 <= m < member_names(
                document.interfaces[i],
                kind,
            ).len() ==> !corresponds(
                key,
                #[trigger] member_names(#[trigger] document.interfaces[i], kind)[m],
            ),
    ensures
        document_candidates(document, kind, key, upto) == Seq::<ResolutionView>::empty(),
    decreases upto,
{
    if upto > 0 {
        lemma_no_candidate_in_document(document, kind, key, upto - 1);
        let interface = document.interfaces[upto - 1];
        let names = member_names(interface, kind);
        assert forall|m: int| 0 <= m < names.len() implies !corresponds(
            key,
            #[trigger] names[m],
        ) by {
        }
        lemma_no_name_matches(names, key, names.len() as int);
    }
}

/// Documents in which no member corresponds to the key give no candidate.
proof fn lemma_no_candidate(
    documents: Seq<DocumentView>,
    kind: DeclarationKind,
    key: KeyView,
    upto: int,
)
    requires
        upto <= documents.len(),
        nothing_corresponds(documents, kind, key),
    ensures
        candidates_upto(documents, kind, key, upto) == Seq::<ResolutionView>::empty(),
    decreases upto,
{
    if upto > 0 {
        lemma_no_candidate(documents, kind, key, upto - 1);
        let document = documents[upto - 1];
        assert forall|i: int, m: int|
            0 <= i < document.interfaces.len() && 0 <= m < member_names(
                document.interfaces[i],
                kind,
            ).len() implies !corresponds(
            key,
            #[trigger] member_names(#[trigger] document.interfaces[i], kind)[m],
        ) by {
        }
        lemma_no_candidate_in_document(document, kind, key, document.interfaces.len() as int);
    }
}

/// Where no declared member corresponds to the key, the search fails and names the key
/// that was searched for. Without a member name in the key this is the case where no
/// declared name stands in the record type's name, and the key named is that name.
pub proof fn lemma_nothing_corresponding_is_not_found(
    documents: Seq<DocumentView>,
    kind: DeclarationKind,
    key: KeyView,
)
    requires
        nothing_corresponds(documents, kind, key),
    ensures
        resolved(documents, kind, key) == Resolved::Missing(search_key(key)),
        key.member is None ==> resolved(documents, kind, key) == Resolved::Missing(key.item_name),
{
    lemma_no_candidate(documents, kind, key, documents.len() as int);
}

impl ResolutionKey {
    /// A key that names only the record type.
    pub fn new(item_name: &str) -> (key: ResolutionKey)
        ensures
            key@ == (KeyView { item_name: item_name@, interface: None, member: None }),
    {
        ResolutionKey { item_name: item_name.to_owned(), interface: None, member: None }
    }

    /// The key that a failed search is reported under.
    pub fn search_key(&self) -> (key: String)
        ensures
            key@ == search_key(self@),
    {
        match &self.member {
            Some(wanted) => wanted.clone(),
            None => self.item_name.clone(),
        }
    }

    /// Whether an interface of this name is searched.
    pub fn admits(&self, interface_name: &String) -> (admitted: bool)
        ensures
            admitted == admits(self@, interface_name@),
    {
        match &self.interface {
            Some(wanted) => *interface_name == *wanted,
            None => true,
        }
    }

    /// Whether a member of this name corresponds to the key.
    pub fn corresponds(&self, member_name: &String) -> (matched: bool)
        ensures
            matched == corresponds(self@, member_name@),
    {
        match &self.member {
            Some(wanted) => *member_name == *wanted,
            None => contains(self.item_name.as_str(), member_name.as_str()),
        }
    }
}

/// The member names of an interface in the list that `kind` selects, in declared order.
fn names_of(interface: &InterfaceDecl, kind: DeclarationKind) -> (names: Vec<&String>)
    ensures
        names@.len() == member_names(interface@, kind).len(),
        forall|k: int|
            0 <= k < names@.len() ==> (#[trigger] names@[k])@ == member_names(interface@, kind)[k],
{
    let mut names: Vec<&String> = Vec::new();
    match kind {
        DeclarationKind::Signal => {
            let mut k: usize = 0;
            while k < interface.signals.len()
                invariant
                    k <= interface.signals@.len(),
                    names@.len() == k,
                    forall|j: int|
                        0 <= j < k ==> (#[trigger] names@[j])@ == interface.signals@[j].name@,
                decreases interface.signals@.len() - k,
            {
                names.push(&interface.signals[k].name);
                k += 1;
            }
        },
        DeclarationKind::Method => {
            let mut k: usize = 0;
            while k < interface.methods.len()
                invariant
                    k <= interface.methods@.len(),
                    names@.len() == k,
                    forall|j: int|
                        0 <= j < k ==> (#[trigger] names@[j])@ == interface.methods@[j].name@,
                decreases interface.methods@.len() - k,
            {
                names.push(&interface.methods[k].name);
                k += 1;
            }
        },
        DeclarationKind::Property => {
            let mut k: usize = 0;
            while k < interface.properties.len()
                invariant
                    k <= interface.properties@.len(),
                    names@.len() == k,
                    forall|j: int|
                        0 <= j < k ==> (#[trigger] names@[j])@ == interface.properties@[j].name@,
                decreases interface.properties@.len() - k,
            {
                names.push(&interface.properties[k].name);
                k += 1;
            }
        },
    }
    names
}

/// Adds to `found` the declarations of one interface that the key matches.
fn search_interface(
    document: &String,
    interface: &InterfaceDecl,
    kind: DeclarationKind,
    key: &ResolutionKey,
    found: &mut Vec<Resolution>,
)
    ensures
        resolutions_view(final(found)@) == resolutions_view(old(found)@) + interface_candidates(
            document@,
            interface@,
            kind,
            key@,
        ),
{
    if !key.admits(&interface.name) {
        return ;
    }
    let names = names_of(interface, kind);
    let ghost all = member_names(interface@, kind);
    let ghost before = resolutions_view(found@);
    let mut k: usize = 0;
    while k < names.len()
        invariant
            k <= names@.len(),
            names@.len() == all.len(),
            forall|j: int| 0 <= j < names@.len() ==> (#[trigger] names@[j])@ == all[j],
            resolutions_view(found@) == before + located(
                document@,
                interface@.name,
                matching_names(all, key@, k as int),
            ),
        decreases names@.len() - k,
    {
        if key.corresponds(names[k]) {
            let hit = Resolution {
                interface: interface.name.clone(),
                member: names[k].clone(),
                document: document.clone(),
            };
            let ghost prior = found@;
            found.push(hit);
            assert(resolutions_view(found@) =~= resolutions_view(prior).push(hit@));
        }
        k += 1;
    }
}

/// Adds to `found` the declarations of one document that the key matches.
fn search_document(
    document: &InterfaceDocument,
    kind: DeclarationKind,
    key: &ResolutionKey,
    found: &mut Vec<Resolution>,
)
    ensures
        resolutions_view(final(found)@) == resolutions_view(old(found)@) + document_candidates(
            document@,
            kind,
            key@,
            document@.interfaces.len() as int,
        ),
{
    let ghost before = resolutions_view(found@);
    let mut k: usize = 0;
    while k < document.interfaces.len()
        invariant
            k <= document.interfaces@.len(),
            resolutions_view(found@) == before + document_candidates(
                document@,
                kind,
                key@,
                k as int,
            ),
        decreases document.interfaces@.len() - k,
    {
        search_interface(&document.identity, &document.interfaces[k], kind, key, found);
        k += 1;
    }
}

/// Every declaration that the key matches, in search order: document by document, and
/// within a document in declared order.
pub fn find_candidates(
    documents: &Vec<InterfaceDocument>,
    kind: DeclarationKind,
    key: &ResolutionKey,
) -> (found: Vec<Resolution>)
    ensures
        resolutions_view(found@) == candidates(documents_view(documents@), kind, key@),
{
    let mut found: Vec<Resolution> = Vec::new();
    let ghost all = documents_view(documents@);
    let mut k: usize = 0;
    while k < documents.len()
        invariant
            k <= documents@.len(),
            all == documents_view(documents@),
            resolutions_view(found@) == candidates_upto(all, kind, key@, k as int),
        decreases documents@.len() - k,
    {
        search_document(&documents[k], kind, key, &mut found);
        k += 1;
    }
    found
}

/// Finds the one declaration that a record type corresponds to.
///
/// Fails with `NotFound` where no declaration matches the key, and with `Ambiguous` where
/// two or more do: no match is preferred over another.
pub fn resolve(
    documents: &Vec<InterfaceDocument>,
    kind: DeclarationKind,
    key: &ResolutionKey,
) -> (outcome: Result<Resolution, ResolutionError>)
    ensures
        outcome_view(outcome) == resolved(documents_view(documents@), kind, key@),
{
    let mut found = find_candidates(documents, kind, key);
    if found.len() == 0 {
        Err(ResolutionError::NotFound { key: key.search_key() })
    } else if found.len() == 1 {
        match found.pop() {
            Some(resolution) => Ok(resolution),
            None => Err(ResolutionError::NotFound { key: key.search_key() }),
        }
    } else {
        Err(ResolutionError::Ambiguous { key: key.search_key(), candidates: found })
    }
}

} // verus!
