//! The publisher: the decisions taken while a rendered document is written
//! to one file of a remote repository.
//!
//! The publisher talks to no network itself. It is a machine that is told
//! what the remote store answered and says what to ask next: first the tip of
//! the target branch, then a single write that creates or overwrites the
//! file, with the tip as the token that authorizes an overwrite.

use vstd::prelude::*;
use vstd::string::*;
use crate::text::same_text;

verus! {

/// Where a document is published.
#[derive(Clone, Debug)]
pub struct PublicationTarget {
    /// The repository, as `owner/repository`.
    pub host_location: String,
    /// What stands before the file's name in the remote path.
    pub path_prefix: String,
    pub branch: String,
}

impl PublicationTarget {
    /// The target on the branch `main` of a repository: under the given
    /// prefix, or under `pdfs/` where none is given.
    pub fn on_main(host_location: String, path_prefix: Option<String>) -> (target:
        PublicationTarget)
        ensures
            target.host_location == host_location,
            target.branch@ == "main"@,
            path_prefix.is_some() ==> target.path_prefix == path_prefix.unwrap(),
            path_prefix.is_none() ==> target.path_prefix@ == "pdfs/"@,
    {
        let path_prefix = match path_prefix {
            Some(prefix) => prefix,
            None => String::from_str("pdfs/"),
        };
        PublicationTarget { host_location, path_prefix, branch: String::from_str("main") }
    }
}

/// The receipt of a publication.
#[derive(Clone, Debug)]
pub struct PublicationResult {
    pub remote_path: String,
    pub branch: String,
    pub commit_reference: String,
}

/// Why a publication failed.
#[derive(Clone, Copy, Debug, PartialEq, Eq, Structural)]
pub enum PublishError {
    /// The store could not be reached, refused the credential, or answered
    /// what the publisher did not ask for.
    Transport,
    /// The repository or the branch does not exist.
    NotFound,
    /// The credential does not permit the operation.
    Forbidden,
    /// The file exists and the write did not carry its current revision.
    StaleUpdate,
}

/// How a request to the remote store failed.
#[derive(Clone, Copy, Debug, PartialEq, Eq, Structural)]
pub enum RemoteFailure {
    Unreachable,
    Unauthenticated,
    Missing,
    Denied,
    Conflict,
}

/// What the remote store answered.
#[derive(Debug)]
pub enum RemoteEvent {
    /// Nothing yet: the publication begins.
    Begin,
    /// The tip of the branch that was asked for.
    BranchTip(String),
    /// The write was accepted; this is the new revision.
    Committed(String),
    Failed(RemoteFailure),
}

/// One create-or-update operation.
#[derive(Clone, Debug)]
pub struct WriteRequest {
    pub path: String,
    pub branch: String,
    /// The document in base64.
    pub content: String,
    pub message: String,
    pub prior_revision: Option<String>,
}

/// What the publisher wants done next.
#[derive(Debug)]
pub enum PublishAction {
    /// Look up the reference of this name.
    ResolveBranch(String),
    /// Submit this write.
    WriteFile(WriteRequest),
    /// The publication is over.
    Finish(Result<PublicationResult, PublishError>),
}

/// How far a publication has come.
#[derive(Clone, Copy, Debug, PartialEq, Eq, Structural)]
pub enum Stage {
    Fresh,
    AwaitingBranch,
    AwaitingCommit,
    Finished,
}

/// The standard base64 text of a byte sequence, with padding.
pub uninterp spec fn base64_of(bytes: Seq<u8>) -> Seq<char>;

/// `base64::encode`: the bytes in the standard base64 alphabet, with padding.
/// The text depends on the bytes alone.
#[verifier::external_body]
#[allow(deprecated)]
fn encode_base64(bytes: &[u8]) -> (text: String)
    ensures
        text@ == base64_of(bytes@),
{
    base64::encode(bytes)
}

/// The message of every revision that the publisher records.
pub open spec fn commit_message() -> Seq<char> {
    "Add student report card PDF"@
}

/// The name of the reference of a branch.
pub open spec fn reference_of(branch: Seq<char>) -> Seq<char> {
    "heads/"@ + branch
}

/// The error that a failed request ends the publication with.
pub open spec fn error_of(failure: RemoteFailure) -> PublishError {
    match failure {
        RemoteFailure::Unreachable => PublishError::Transport,
        RemoteFailure::Unauthenticated => PublishError::Transport,
        RemoteFailure::Missing => PublishError::NotFound,
        RemoteFailure::Denied => PublishError::Forbidden,
        RemoteFailure::Conflict => PublishError::StaleUpdate,
    }
}

/// The store accepts a write: no file stands at the path, or the write
/// carries the revision that the file has.
pub open spec fn write_accepted(existing: Option<Seq<char>>, supplied: Option<Seq<char>>) -> bool {
    match existing {
        None => true,
        Some(current) => supplied == Some(current),
    }
}

/// The error that a failed request ends the publication with.
pub fn classify(failure: RemoteFailure) -> (e: PublishError)
    ensures
        e == error_of(failure),
{
    match failure {
        RemoteFailure::Unreachable => PublishError::Transport,
        RemoteFailure::Unauthenticated => PublishError::Transport,
        RemoteFailure::Missing => PublishError::NotFound,
        RemoteFailure::Denied => PublishError::Forbidden,
        RemoteFailure::Conflict => PublishError::StaleUpdate,
    }
}

/// The store's rule for a write to a path: where no file stands there, the
/// write is accepted, with or without a revision; where one does, the write
/// must carry the file's current revision, and is stale otherwise.
pub fn authorize_write(existing: Option<&str>, supplied: Option<&str>) -> (r: Result<
    (),
    PublishError,
>)
    ensures
        r.is_ok() <==> write_accepted(
            match existing {
                Some(s) => Some(s@),
                None => None,
            },
            match supplied {
                Some(s) => Some(s@),
                None => None,
            },
        ),
        r.is_err() ==> r == Err::<(), PublishError>(PublishError::StaleUpdate),
{
    match existing {
        None => Ok(()),
        Some(current) => match supplied {
            None => Err(PublishError::StaleUpdate),
            Some(token) => if same_text(current, token) {
                Ok(())
            } else {
                Err(PublishError::StaleUpdate)
            },
        },
    }
}

/// A publication of one document, in progress.
pub struct Publisher {
    pub target: PublicationTarget,
    /// The remote path: the target's prefix, then the file's name.
    pub remote_path: String,
    /// The document in base64.
    pub content: String,
    pub stage: Stage,
}

impl Publisher {
    /// The publisher was made by `new` for this target, file and document,
    /// whatever stage it has reached.
    pub open spec fn publishes(
        &self,
        target: PublicationTarget,
        file_name: Seq<char>,
        document: Seq<u8>,
    ) -> bool {
        &&& self.target == target
        &&& self.remote_path@ == target.path_prefix@ + file_name
        &&& self.content@ == base64_of(document)
    }

    /// Both are publishers of the same document to the same place.
    pub open spec fn same_publication(&self, other: Publisher) -> bool {
        &&& self.target == other.target
        &&& self.remote_path == other.remote_path
        &&& self.content == other.content
    }

    /// The write that the publisher submits once it knows the branch's tip.
    pub open spec fn is_write_of(&self, request: WriteRequest, tip: String) -> bool {
        &&& request.path@ == self.remote_path@
        &&& request.branch@ == self.target.branch@
        &&& request.content@ == self.content@
        &&& request.message@ == commit_message()
        &&& request.prior_revision == Some(tip)
    }

    /// The receipt that the publisher gives for an accepted write.
    pub open spec fn is_receipt_of(&self, receipt: PublicationResult, revision: String) -> bool {
        &&& receipt.remote_path@ == self.remote_path@
        &&& receipt.branch@ == self.target.branch@
        &&& receipt.commit_reference == revision
    }

    /// What the publisher does in `stage` when `event` comes: the stage it
    /// goes to, and whether `action` is what it asks for.
    pub open spec fn responds(&self, event: RemoteEvent, action: PublishAction, next: Stage) -> bool {
        match (self.stage, event) {
            (Stage::Fresh, RemoteEvent::Begin) => {
                &&& next == Stage::AwaitingBranch
                &&& action matches PublishAction::ResolveBranch(reference)
                &&& reference@ == reference_of(self.target.branch@)
            },
            (Stage::AwaitingBranch, RemoteEvent::BranchTip(tip)) => {
                &&& next == Stage::AwaitingCommit
                &&& action matches PublishAction::WriteFile(request)
                &&& self.is_write_of(request, tip)
            },
            (Stage::AwaitingCommit, RemoteEvent::Committed(revision)) => {
                &&& next == Stage::Finished
                &&& action matches PublishAction::Finish(Ok(receipt))
                &&& self.is_receipt_of(receipt, revision)
            },
            (Stage::AwaitingBranch, RemoteEvent::Failed(failure)) => {
                &&& next == Stage::Finished
                &&& action matches PublishAction::Finish(Err(e))
                &&& e == error_of(failure)
            },
            (Stage::AwaitingCommit, RemoteEvent::Failed(failure)) => {
                &&& next == Stage::Finished
                &&& action matches PublishAction::Finish(Err(e))
                &&& e == error_of(failure)
            },
            _ => {
                &&& next == Stage::Finished
                &&& action matches PublishAction::Finish(Err(e))
                &&& e == PublishError::Transport
            },
        }
    }

    /// A publication of `document` under `file_name` at `target`, not yet
    /// begun.
    pub fn new(target: PublicationTarget, file_name: &str, document: &[u8]) -> (p: Publisher)
        ensures
            p.publishes(target, file_name@, document@),
            p.stage == Stage::Fresh,
    {
        let mut remote_path = target.path_prefix.clone();
        remote_path.append(file_name);
        let content = encode_base64(document);
        Publisher { target, remote_path, content, stage: Stage::Fresh }
    }

    /// Takes what the remote store answered and says what to do next.
    ///
    /// A fresh publisher, told to begin, asks for the branch's reference.
    /// Given the branch's tip it submits the one write, with the tip as the
    /// prior revision. Given the new revision it finishes with the receipt.
    /// A failed request finishes the publication with the error of that
    /// failure, and an answer that the stage does not expect finishes it as a
    /// transport error. Nothing is asked twice.
    pub fn step(&mut self, event: RemoteEvent) -> (action: PublishAction)
        ensures
            old(self).responds(event, action, final(self).stage),
            final(self).same_publication(*old(self)),
    {
        let stage = self.stage;
        match (stage, event) {
            (Stage::Fresh, RemoteEvent::Begin) => {
                let mut reference = String::from_str("heads/");
                reference.append(self.target.branch.as_str());
                self.stage = Stage::AwaitingBranch;
                PublishAction::ResolveBranch(reference)
            },
            (Stage::AwaitingBranch, RemoteEvent::BranchTip(tip)) => {
                let request = WriteRequest {
                    path: self.remote_path.clone(),
                    branch: self.target.branch.clone(),
                    content: self.content.clone(),
                    message: String::from_str("Add student report card PDF"),
                    prior_revision: Some(tip),
                };
                self.stage = Stage::AwaitingCommit;
                PublishAction::WriteFile(request)
            },
            (Stage::AwaitingCommit, RemoteEvent::Committed(revision)) => {
                let receipt = PublicationResult {
                    remote_path: self.remote_path.clone(),
                    branch: self.target.branch.clone(),
                    commit_reference: revision,
                };
                self.stage = Stage::Finished;
                PublishAction::Finish(Ok(receipt))
            },
            (Stage::AwaitingBranch, RemoteEvent::Failed(failure)) => {
                self.stage = Stage::Finished;
                PublishAction::Finish(Err(classify(failure)))
            },
            (Stage::AwaitingCommit, RemoteEvent::Failed(failure)) => {
                self.stage = Stage::Finished;
                PublishAction::Finish(Err(classify(failure)))
            },
            _ => {
                self.stage = Stage::Finished;
                PublishAction::Finish(Err(PublishError::Transport))
            },
        }
    }
}

/// A publication whose two requests succeed: a fresh publisher asks for the
/// reference of the target's branch, then submits one write, to the prefix
/// followed by the file's name, on that branch, with the document in base64,
/// the fixed message and the branch's tip as prior revision, and finishes
/// with a receipt that names the same path and branch and the new revision.
pub proof fn lemma_successful_publication(
    target: PublicationTarget,
    file_name: Seq<char>,
    document: Seq<u8>,
    fresh: Publisher,
    tip: String,
    revision: String,
    asked: (PublishAction, Publisher),
    wrote: (PublishAction, Publisher),
    done: (PublishAction, Publisher),
)
    requires
        fresh.publishes(target, file_name, document),
        fresh.stage == Stage::Fresh,
        fresh.responds(RemoteEvent::Begin, asked.0, asked.1.stage),
        asked.1.same_publication(fresh),
        asked.1.responds(RemoteEvent::BranchTip(tip), wrote.0, wrote.1.stage),
        wrote.1.same_publication(asked.1),
        wrote.1.responds(RemoteEvent::Committed(revision), done.0, done.1.stage),
    ensures
        asked.0 matches PublishAction::ResolveBranch(reference) && reference@ == reference_of(
            target.branch@,
        ),
        wrote.0 matches PublishAction::WriteFile(request) && {
            &&& request.path@ == target.path_prefix@ + file_name
            &&& request.branch@ == target.branch@
            &&& request.content@ == base64_of(document)
            &&& request.message@ == commit_message()
            &&& request.prior_revision == Some(tip)
        },
        done.0 matches PublishAction::Finish(Ok(receipt)) && {
            &&& receipt.remote_path@ == target.path_prefix@ + file_name
            &&& receipt.branch@ == target.branch@
            &&& receipt.commit_reference == revision
        },
        done.1.stage == Stage::Finished,
{
}

/// A request that fails ends the publication at once, with the error of the
/// failure: a missing repository or branch as `NotFound`, a denial as
/// `Forbidden`, a conflict as `StaleUpdate`, anything else as `Transport`.
pub proof fn lemma_failure_ends_publication(
    publisher: Publisher,
    failure: RemoteFailure,
    action: PublishAction,
    next: Stage,
)
    requires
        publisher.stage == Stage::AwaitingBranch || publisher.stage == Stage::AwaitingCommit,
        publisher.responds(RemoteEvent::Failed(failure), action, next),
    ensures
        next == Stage::Finished,
        action matches PublishAction::Finish(Err(e)) && e == error_of(failure),
{
}

/// A write to a path where no file stands is accepted without a revision;
/// a write to a path where a file stands is refused without one, and
/// accepted with the file's current revision.
pub proof fn lemma_store_rule(current: Seq<char>, supplied: Option<Seq<char>>)
    ensures
        write_accepted(None, None),
        write_accepted(None, supplied),
        !write_accepted(Some(current), None),
        write_accepted(Some(current), Some(current)),
        write_accepted(Some(current), supplied) <==> supplied == Some(current),
{
}

} // verus!
