//! Decisions of batch operations that process their items one at a time
//! and stop at the first failure.
//!
//! The caller performs each item's request; the library says which item
//! comes next and what error a failure ends the batch with.

use vstd::prelude::*;
use crate::error::Error;
use crate::text::{owned, concat2, concat3};

verus! {

/// Progress of a batch: how many items there are and how many succeeded.
#[derive(Debug, Clone, Copy)]
pub struct BatchProgress {
    /// Items in the batch.
    pub total: usize,
    /// Items processed successfully so far, all before any other.
    pub successful: usize,
}

/// Message of an empty text batch.
pub open spec fn empty_texts_message() -> Seq<char> {
    "Cannot process empty text list"@
}

/// Message of an empty content batch.
pub open spec fn empty_contents_message() -> Seq<char> {
    "Cannot process empty content list"@
}

/// Message of an empty prompt batch.
pub open spec fn empty_prompts_message() -> Seq<char> {
    "Cannot process empty prompt list"@
}

/// The validation error of an empty batch of texts.
pub fn empty_texts_error() -> (r: Error)
    ensures
        r matches Error::ValidationError { message } && message@ == empty_texts_message(),
{
    proof { reveal_strlit("Cannot process empty text list"); }
    Error::ValidationError { message: owned("Cannot process empty text list") }
}

/// The validation error of an empty batch of contents.
pub fn empty_contents_error() -> (r: Error)
    ensures
        r matches Error::ValidationError { message } && message@ == empty_contents_message(),
{
    proof { reveal_strlit("Cannot process empty content list"); }
    Error::ValidationError { message: owned("Cannot process empty content list") }
}

/// The validation error of an empty batch of prompts.
pub fn empty_prompts_error() -> (r: Error)
    ensures
        r matches Error::ValidationError { message } && message@ == empty_prompts_message(),
{
    proof { reveal_strlit("Cannot process empty prompt list"); }
    Error::ValidationError { message: owned("Cannot process empty prompt list") }
}

/// The error that ends batch `p` when its next item fails with `error`.
pub open spec fn batch_failure(p: BatchProgress, error: Error, message: String) -> Error {
    if p.successful == 0 {
        error
    } else {
        Error::BatchProcessingError { successful: p.successful, failed: (p.total - p.successful) as usize, message }
    }
}

impl BatchProgress {
    /// Starts a batch of `total` items; an empty batch is refused with
    /// `empty_error`.
    pub fn begin(total: usize, empty_error: Error) -> (r: Result<BatchProgress, Error>)
        ensures
            total == 0 <==> r is Err,
            r matches Err(e) ==> e == empty_error,
            r matches Ok(p) ==> p.total == total && p.successful == 0,
    {
        if total == 0 {
            return Err(empty_error);
        }
        Ok(BatchProgress { total, successful: 0 })
    }

    /// The index of the next item, if any is left.
    pub fn next_index(&self) -> (r: Option<usize>)
        ensures
            self.successful < self.total ==> r == Some(self.successful),
            self.successful >= self.total ==> r is None,
    {
        if self.successful < self.total { Some(self.successful) } else { None }
    }

    /// Records that the next item succeeded.
    pub fn record_success(&mut self)
        requires
            old(self).successful < old(self).total,
        ensures
            *final(self) == (BatchProgress { successful: (old(self).successful + 1) as usize, ..*old(self) }),
    {
        self.successful = self.successful + 1;
    }

    /// The error that ends the batch when the next item fails with `error`:
    /// the error itself when no item succeeded before; otherwise a batch
    /// error that counts the failing item and every item after it as failed,
    /// so that the two counts add up to the batch size.
    pub fn failure(&self, error: Error, message: String) -> (r: Error)
        requires
            self.successful < self.total,
        ensures
            r == batch_failure(*self, error, message),
    {
        if self.successful == 0 {
            error
        } else {
            Error::BatchProcessingError { successful: self.successful, failed: self.total - self.successful, message }
        }
    }
}

/// Message of a batch error on a text.
pub fn text_failure_message(text: &str, error_text: &str) -> (r: String)
    ensures
        r@ == "Batch processing failed on text '"@ + text@ + "': "@ + error_text@,
{
    proof { reveal_strlit("Batch processing failed on text '"); reveal_strlit("': "); }
    let s = concat3("Batch processing failed on text '", text, "': ");
    s.concat(error_text)
}

/// Message of a batch error on a content item.
pub fn content_failure_message(error_text: &str) -> (r: String)
    ensures
        r@ == "Batch processing failed on content : "@ + error_text@,
{
    proof { reveal_strlit("Batch processing failed on content : "); }
    concat2("Batch processing failed on content : ", error_text)
}

/// Message of a batch error on a prompt.
pub fn prompt_failure_message(prompt: &str, error_text: &str) -> (r: String)
    ensures
        r@ == "Batch processing failed on prompt '"@ + prompt@ + "': "@ + error_text@,
{
    proof { reveal_strlit("Batch processing failed on prompt '"); reveal_strlit("': "); }
    let s = concat3("Batch processing failed on prompt '", prompt, "': ");
    s.concat(error_text)
}

/// A failure on the first item ends the batch with that item's own error;
/// a later failure ends it with a batch error that accounts for every item:
/// the successful ones before the failure, then the failing one and the rest.
pub proof fn law_batch_failure_accounts_for_all(p: BatchProgress, error: Error, message: String)
    requires
        p.successful < p.total,
    ensures
        p.successful == 0 ==> batch_failure(p, error, message) == error,
        p.successful > 0 ==> (batch_failure(p, error, message) matches Error::BatchProcessingError { successful, failed, .. }
            && successful == p.successful && successful + failed == p.total && failed >= 1),
{
}

} // verus!
