//! Failures and the chain of causes behind them.

use vstd::prelude::*;
use crate::text::string_views;

verus! {

/// A failure as it is reported: its own text and, where it has one, the
/// failure that caused it.
#[derive(Debug, PartialEq, Eq)]
pub struct Failure {
    pub text: String,
    pub cause: Option<Box<Failure>>,
}

/// The failure that follows `e` in its chain, if any.
pub open spec fn next_link<'a>(e: &'a Failure) -> Option<&'a Failure> {
    match e.cause {
        Some(c) => Some(&*c),
        None => None,
    }
}

/// A failure that may be absent, as a link of a chain.
pub open spec fn as_link<'a>(f: &'a Option<Failure>) -> Option<&'a Failure> {
    match f {
        Some(l) => Some(l),
        None => None,
    }
}

/// The failures reached from `e` by following "caused by", `e` itself first.
pub open spec fn lineage<'a>(e: Option<&'a Failure>) -> Seq<&'a Failure>
    decreases e,
{
    match e {
        Some(f) => seq![f] + lineage(next_link(f)),
        None => Seq::empty(),
    }
}

/// The texts of a chain of failures.
pub open spec fn texts(chain: Seq<&Failure>) -> Seq<Seq<char>> {
    chain.map_values(|f: &Failure| f.text@)
}

/// The texts of the causes of `e`, the immediate cause first.
pub open spec fn cause_texts(e: &Failure) -> Seq<Seq<char>> {
    texts(lineage(next_link(e)))
}

/// A failure that may be absent, boxed as the cause of another.
fn boxed(f: Option<Failure>) -> (cause: Option<Box<Failure>>)
    ensures
        f matches Some(l) ==> cause == Some(Box::new(l)),
        f is None ==> cause is None,
{
    match f {
        Some(l) => Some(Box::new(l)),
        None => None,
    }
}

impl Failure {
    /// A failure without a cause.
    pub fn new(text: String) -> (f: Failure)
        ensures
            f.text@ == text@,
            f.cause is None,
    {
        Failure { text, cause: None }
    }

    /// The failure with the text `text` and with causes of the texts
    /// `causes`, the immediate cause first.
    pub fn chained(text: String, causes: Vec<String>) -> (f: Failure)
        ensures
            f.text@ == text@,
            cause_texts(&f) == string_views(causes@),
    {
        let ghost wanted = string_views(causes@);
        let mut causes = causes;
        let mut last: Option<Failure> = None;
        while causes.len() > 0
            invariant
                causes@.len() <= wanted.len(),
                string_views(causes@) == wanted.take(causes@.len() as int),
                texts(lineage(as_link(&last))) == wanted.skip(causes@.len() as int),
            decreases causes@.len(),
        {
            let ghost before = causes@;
            let ghost rest = lineage(as_link(&last));
            let cause = causes.pop().unwrap();
            assert(cause@ == wanted[causes@.len() as int]) by {
                assert(string_views(before)[before.len() - 1] == cause@);
            }
            assert(string_views(causes@) =~= wanted.take(causes@.len() as int)) by {
                assert forall|i: int| 0 <= i < causes@.len() implies string_views(causes@)[i]
                    == wanted[i] by {
                    assert(string_views(before)[i] == wanted[i]);
                }
            }
            let link = Failure { text: cause, cause: boxed(last) };
            assert(lineage(next_link(&link)) == rest);
            assert(texts(lineage(Some(&link))) =~= seq![link.text@] + texts(rest));
            assert(texts(lineage(Some(&link))) =~= wanted.skip(causes@.len() as int));
            last = Some(link);
        }
        assert(wanted.skip(0) =~= wanted);
        Failure { text, cause: boxed(last) }
    }

    /// A failure with the text `text` that this failure caused.
    pub fn context(self, text: String) -> (f: Failure)
        ensures
            f.text@ == text@,
            f.cause == Some(Box::new(self)),
    {
        Failure { text, cause: Some(Box::new(self)) }
    }

    /// The failure that caused this one.
    pub fn source(&self) -> (next: Option<&Failure>)
        ensures
            next == next_link(self),
    {
        match &self.cause {
            Some(c) => Some(&**c),
            None => None,
        }
    }
}

} // verus!
