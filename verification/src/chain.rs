//! Errors of `anyhow` as failures of this library.

use vstd::prelude::*;
use std::fmt::Write;
use crate::failure::{cause_texts, Failure};
use crate::report::{report, MAX_CAUSES};
use crate::text::{string_views, text_of};

verus! {

/// An error of `anyhow`, of which nothing is known here.
#[verifier::external_type_specification]
#[verifier::external_body]
pub struct ExError(anyhow::Error);

/// The text of the link that `anyhow::Error::chain` of `error` holds at
/// `depth`, the error itself being the link at depth 0; `None` where the
/// chain ends before.
pub uninterp spec fn link_view(error: anyhow::Error, depth: nat) -> Option<Seq<char>>;

/// Walks `anyhow::Error::chain` of `error` to the link at `depth` and writes
/// out that link. The contract claims that what comes back depends on the
/// error and the depth alone, that is, that following "caused by" and
/// writing out a link give the same on every reading of one error; and that
/// the chain has a first link.
#[verifier::external_body]
fn link_text(error: &anyhow::Error, depth: usize) -> (text: Option<String>)
    ensures
        text_of(text) == link_view(*error, depth as nat),
        depth == 0 ==> text is Some,
{
    match error.chain().nth(depth) {
        Some(link) => {
            let mut text = String::new();
            let _ = write!(text, "{}", link);
            Some(text)
        },
        None => None,
    }
}

/// The failure that stands for `error`: its text, and the texts of its
/// causes in the order in which "caused by" reaches them, up to the first
/// link that is missing or to `MAX_CAUSES` causes, whichever comes first.
/// No more links than that are read, however long the chain is.
pub fn failure_of(error: &anyhow::Error) -> (failure: Failure)
    ensures
        Some(failure.text@) == link_view(*error, 0),
        cause_texts(&failure).len() <= MAX_CAUSES,
        forall|i: int|
            0 <= i < cause_texts(&failure).len() ==> link_view(*error, (i + 1) as nat) == Some(
                #[trigger] cause_texts(&failure)[i],
            ),
        cause_texts(&failure).len() < MAX_CAUSES ==> link_view(
            *error,
            (cause_texts(&failure).len() + 1) as nat,
        ) is None,
{
    let text = link_text(error, 0).unwrap();
    let mut causes: Vec<String> = Vec::new();
    let mut ended = false;
    while !ended && causes.len() < MAX_CAUSES
        invariant
            causes@.len() <= MAX_CAUSES,
            forall|i: int|
                0 <= i < causes@.len() ==> link_view(*error, (i + 1) as nat) == Some(
                    #[trigger] string_views(causes@)[i],
                ),
            ended ==> link_view(*error, (causes@.len() + 1) as nat) is None,
        decreases MAX_CAUSES - causes@.len() + if ended { 0int } else { 1int },
    {
        let ghost before = string_views(causes@);
        match link_text(error, causes.len() + 1) {
            Some(cause) => {
                causes.push(cause);
                assert forall|i: int| 0 <= i < causes@.len() implies link_view(
                    *error,
                    (i + 1) as nat,
                ) == Some(#[trigger] string_views(causes@)[i]) by {
                    if i < before.len() {
                        assert(string_views(causes@)[i] == before[i]);
                    }
                }
            },
            None => {
                ended = true;
            },
        }
    }
    Failure::chained(text, causes)
}

/// The record of the failure that stands for an error holds the error's
/// text and, as far as the chain goes, the texts of its first causes in
/// their order, each under its own name.
pub proof fn lemma_record_holds_the_links(message: Seq<char>, error: anyhow::Error, failure: &Failure)
    requires
        Some(failure.text@) == link_view(error, 0),
        cause_texts(failure).len() <= MAX_CAUSES,
        forall|i: int|
            0 <= i < cause_texts(failure).len() ==> link_view(error, (i + 1) as nat) == Some(
                #[trigger] cause_texts(failure)[i],
            ),
        cause_texts(failure).len() < MAX_CAUSES ==> link_view(
            error,
            (cause_texts(failure).len() + 1) as nat,
        ) is None,
    ensures
        Some(report(message, failure).error) == link_view(error, 0),
        report(message, failure).source == link_view(error, 1),
        report(message, failure).source is Some ==> report(message, failure).source2 == link_view(
            error,
            2,
        ),
        report(message, failure).source2 is Some ==> report(message, failure).source3
            == link_view(error, 3),
{
    let causes = cause_texts(failure);
    if causes.len() > 0 {
        assert(link_view(error, 1) == Some(causes[0]));
    }
    if causes.len() > 1 {
        assert(link_view(error, 2) == Some(causes[1]));
    }
    if causes.len() > 2 {
        assert(link_view(error, 3) == Some(causes[2]));
    }
}

} // verus!
