//! The admission response: the verdict that goes back to the cluster.

use vstd::prelude::*;

verus! {

/// The only kind of patch a response can carry.
#[derive(Clone, Copy, Debug, PartialEq, Eq, Structural)]
pub enum PatchType {
    JSONPatch,
}

/// One reason for a rejection by a policy group: a member that denied.
#[derive(Clone, Debug, PartialEq, Eq)]
pub struct StatusCause {
    /// The name of the member inside its group.
    pub member: String,
    /// The member's rejection message, if it gave one.
    pub message: Option<String>,
}

/// The reasons for a rejection.
#[derive(Clone, Debug, PartialEq, Eq)]
pub struct StatusDetails {
    pub causes: Vec<StatusCause>,
}

/// Why a request was rejected.
#[derive(Clone, Debug, PartialEq, Eq)]
pub struct ResponseStatus {
    pub message: Option<String>,
    pub code: Option<u16>,
    pub details: Option<StatusDetails>,
}

/// The answer to one admission review.
#[derive(Clone, Debug, PartialEq, Eq)]
pub struct AdmissionResponse {
    /// The identifier of the review this answers.
    pub uid: String,
    pub allowed: bool,
    /// Present on a rejection only.
    pub status: Option<ResponseStatus>,
    /// The mutation, as an encoded JSON patch.
    pub patch: Option<String>,
    pub patch_type: Option<PatchType>,
    /// Messages shown to the user whatever the verdict; absent when there are none.
    pub warnings: Option<Vec<String>>,
}

/// The status code of a rejection caused by a fault of the server or of a
/// policy, not by the object under review.
pub const INTERNAL_ERROR_CODE: u16 = 500;

/// The mathematical content of [`StatusCause`].
pub struct CauseView {
    pub member: Seq<char>,
    pub message: Option<Seq<char>>,
}

/// The mathematical content of [`ResponseStatus`].
pub struct StatusView {
    pub message: Option<Seq<char>>,
    pub code: Option<u16>,
    pub causes: Option<Seq<CauseView>>,
}

/// The mathematical content of [`AdmissionResponse`].
pub struct ResponseView {
    pub uid: Seq<char>,
    pub allowed: bool,
    pub status: Option<StatusView>,
    pub patch: Option<Seq<char>>,
    pub patch_type: Option<PatchType>,
    pub warnings: Option<Seq<Seq<char>>>,
}

/// The text of an optional string.
pub open spec fn text_of(s: Option<String>) -> Option<Seq<char>> {
    match s {
        Some(s) => Some(s@),
        None => None,
    }
}

/// The texts of a list of strings.
pub open spec fn texts(list: Seq<String>) -> Seq<Seq<char>> {
    list.map_values(|s: String| s@)
}

/// A list of messages as a response carries it: absent when empty.
pub open spec fn some_if_any(messages: Seq<Seq<char>>) -> Option<Seq<Seq<char>>> {
    if messages.len() == 0 {
        None
    } else {
        Some(messages)
    }
}

/// The messages an optional list stands for.
pub open spec fn messages_of(warnings: Option<Seq<Seq<char>>>) -> Seq<Seq<char>> {
    match warnings {
        Some(list) => list,
        None => Seq::empty(),
    }
}

impl View for StatusCause {
    type V = CauseView;

    open spec fn view(&self) -> CauseView {
        CauseView { member: self.member@, message: text_of(self.message) }
    }
}

impl View for ResponseStatus {
    type V = StatusView;

    open spec fn view(&self) -> StatusView {
        StatusView {
            message: text_of(self.message),
            code: self.code,
            causes: match self.details {
                Some(details) => Some(details.causes@.map_values(|c: StatusCause| c@)),
                None => None,
            },
        }
    }
}

impl View for AdmissionResponse {
    type V = ResponseView;

    open spec fn view(&self) -> ResponseView {
        ResponseView {
            uid: self.uid@,
            allowed: self.allowed,
            status: match self.status {
                Some(status) => Some(status@),
                None => None,
            },
            patch: text_of(self.patch),
            patch_type: self.patch_type,
            warnings: match self.warnings {
                Some(list) => Some(texts(list@)),
                None => None,
            },
        }
    }
}

impl ResponseView {
    /// The response that lets the request through, with nothing attached.
    pub open spec fn accepted(uid: Seq<char>) -> ResponseView {
        ResponseView {
            uid,
            allowed: true,
            status: None,
            patch: None,
            patch_type: None,
            warnings: None,
        }
    }

    /// The rejection with the given message and code.
    pub open spec fn rejected(uid: Seq<char>, message: Option<Seq<char>>, code: Option<u16>) -> ResponseView {
        ResponseView {
            uid,
            allowed: false,
            status: Some(StatusView { message, code, causes: None }),
            patch: None,
            patch_type: None,
            warnings: None,
        }
    }

    /// The rejection that reports a fault: code 500 and the fault's message.
    pub open spec fn internal_error(uid: Seq<char>, message: Seq<char>) -> ResponseView {
        ResponseView::rejected(uid, Some(message), Some(INTERNAL_ERROR_CODE))
    }

    /// The same response for another review.
    pub open spec fn with_uid(self, uid: Seq<char>) -> ResponseView {
        ResponseView { uid, ..self }
    }

    /// What the wire format asks of every response: a status on rejections
    /// only, and a patch type exactly when there is a patch.
    pub open spec fn well_formed(self) -> bool {
        &&& self.allowed ==> self.status is None
        &&& self.patch is Some <==> self.patch_type is Some
        &&& self.warnings is Some ==> self.warnings->Some_0.len() > 0
    }
}

impl AdmissionResponse {
    /// Lets the request through.
    pub fn accept(uid: String) -> (response: AdmissionResponse)
        ensures
            response@ == ResponseView::accepted(uid@),
    {
        AdmissionResponse {
            uid,
            allowed: true,
            status: None,
            patch: None,
            patch_type: None,
            warnings: None,
        }
    }

    /// Rejects the request with a message and a code.
    pub fn reject(uid: String, message: Option<String>, code: Option<u16>) -> (response:
        AdmissionResponse)
        ensures
            response@ == ResponseView::rejected(uid@, text_of(message), code),
    {
        AdmissionResponse {
            uid,
            allowed: false,
            status: Some(ResponseStatus { message, code, details: None }),
            patch: None,
            patch_type: None,
            warnings: None,
        }
    }

    /// Rejects the request because of a fault: code 500 and the fault's message.
    pub fn reject_internal_server_error(uid: String, message: String) -> (response:
        AdmissionResponse)
        ensures
            response@ == ResponseView::internal_error(uid@, message@),
    {
        AdmissionResponse::reject(uid, Some(message), Some(INTERNAL_ERROR_CODE))
    }
}

/// A copy of an optional string.
pub fn copy_text(text: &Option<String>) -> (copy: Option<String>)
    ensures
        copy == *text,
{
    match text {
        Some(s) => Some(s.clone()),
        None => None,
    }
}

/// A copy of a list of strings.
pub fn copy_texts(list: &Vec<String>) -> (copy: Vec<String>)
    ensures
        copy@ == list@,
{
    let mut copy: Vec<String> = Vec::new();
    let mut i: usize = 0;
    while i < list.len()
        invariant
            i <= list.len(),
            copy@ == list@.take(i as int),
        decreases list.len() - i,
    {
        copy.push(list[i].clone());
        assert(copy@ =~= list@.take(i + 1));
        i += 1;
    }
    assert(list@.take(list.len() as int) =~= list@);
    copy
}

} // verus!
