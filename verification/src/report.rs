//! The structured record of a fatal failure, with a bounded number of cause
//! fields.

use vstd::prelude::*;
use crate::failure::{cause_texts, lineage, next_link, Failure};
use crate::text::text_of;

verus! {

/// How many causes a record names at most.
pub const MAX_CAUSES: usize = 3;

/// How many links `build_error_chain` appends to a chain that already holds
/// `held` of them, when `available` more can be reached.
pub open spec fn collected(held: nat, available: nat) -> nat {
    if held >= MAX_CAUSES {
        0
    } else if available <= MAX_CAUSES - held {
        available
    } else {
        (MAX_CAUSES - held) as nat
    }
}

/// Appends to `chain` the failures reached from `e` by following "caused
/// by", `e` itself first, and stops when none is left or the chain holds
/// `MAX_CAUSES` of them.
pub fn build_error_chain<'a>(chain: &mut Vec<&'a Failure>, e: Option<&'a Failure>)
    ensures
        final(chain)@ == old(chain)@ + lineage(e).take(
            collected(old(chain)@.len(), lineage(e).len()) as int,
        ),
{
    let mut current = e;
    let ghost taken: int = 0;
    while current.is_some() && chain.len() < MAX_CAUSES
        invariant
            0 <= taken <= lineage(e).len(),
            lineage(current) == lineage(e).skip(taken),
            chain@ == old(chain)@ + lineage(e).take(taken),
            taken == 0 || chain@.len() <= MAX_CAUSES,
        decreases MAX_CAUSES - chain@.len(),
    {
        let f = current.unwrap();
        proof {
            assert(lineage(current) == seq![f] + lineage(next_link(f)));
            assert(lineage(e).skip(taken)[0] == f);
            assert(lineage(next_link(f)) =~= lineage(e).skip(taken).skip(1));
            assert(lineage(e).skip(taken).skip(1) =~= lineage(e).skip(taken + 1));
            assert(lineage(e).take(taken + 1) =~= lineage(e).take(taken).push(f));
        }
        chain.push(f);
        current = f.source();
        proof {
            taken = taken + 1;
        }
    }
}

/// A structured record of one failure: a caller's message, the failure's
/// own text, and the texts of its first causes under fixed field names.
#[derive(Debug, PartialEq, Eq)]
pub struct LogRecord {
    pub message: String,
    pub error: String,
    pub source: Option<String>,
    pub source2: Option<String>,
    pub source3: Option<String>,
}

/// What a `LogRecord` holds, as mathematical text.
pub struct LogRecordView {
    pub message: Seq<char>,
    pub error: Seq<char>,
    pub source: Option<Seq<char>>,
    pub source2: Option<Seq<char>>,
    pub source3: Option<Seq<char>>,
}

/// The field `name`, where it has a value.
pub open spec fn field(name: Seq<char>, value: Option<Seq<char>>) -> Seq<(Seq<char>, Seq<char>)> {
    match value {
        Some(v) => seq![(name, v)],
        None => Seq::empty(),
    }
}

impl LogRecordView {
    /// The fields of the record, by name and value, in the order in which
    /// they are written.
    pub open spec fn fields(self) -> Seq<(Seq<char>, Seq<char>)> {
        seq![("message"@, self.message), ("error"@, self.error)] + field("source"@, self.source)
            + field("source2"@, self.source2) + field("source3"@, self.source3)
    }

    /// No cause field is present unless the one before it is.
    pub open spec fn gapless(self) -> bool {
        &&& self.source3 is Some ==> self.source2 is Some
        &&& self.source2 is Some ==> self.source is Some
    }
}

impl View for LogRecord {
    type V = LogRecordView;

    open spec fn view(&self) -> LogRecordView {
        LogRecordView {
            message: self.message@,
            error: self.error@,
            source: text_of(self.source),
            source2: text_of(self.source2),
            source3: text_of(self.source3),
        }
    }
}

/// The `i`-th of `texts`, if there are that many.
pub open spec fn text_at(texts: Seq<Seq<char>>, i: int) -> Option<Seq<char>> {
    if 0 <= i < texts.len() {
        Some(texts[i])
    } else {
        None
    }
}

/// The record of failure `e` under `message`: the causes of `e` are taken
/// in the order in which "caused by" reaches them, and those after the
/// third are left out.
pub open spec fn report(message: Seq<char>, e: &Failure) -> LogRecordView {
    LogRecordView {
        message,
        error: e.text@,
        source: text_at(cause_texts(e), 0),
        source2: text_at(cause_texts(e), 1),
        source3: text_at(cause_texts(e), 2),
    }
}

/// A record has the fields `message` and `error` and one more for each
/// cause, but never more than `MAX_CAUSES` of these, and none of them
/// without the one before it.
pub proof fn lemma_report_is_bounded(message: Seq<char>, e: &Failure)
    ensures
        report(message, e).gapless(),
        report(message, e).fields().len() == 2 + collected(0, cause_texts(e).len()),
        report(message, e).fields().len() <= 2 + MAX_CAUSES,
{
}

/// The texts of a list of fields.
pub open spec fn field_texts(fields: Seq<(String, String)>) -> Seq<(Seq<char>, Seq<char>)> {
    fields.map_values(|f: (String, String)| (f.0@, f.1@))
}

impl LogRecord {
    /// The fields of the record, by name and value: `message` and `error`,
    /// then `source`, `source2` and `source3` as far as they are present.
    pub fn fields(&self) -> (fields: Vec<(String, String)>)
        ensures
            field_texts(fields@) == self@.fields(),
    {
        let mut fields: Vec<(String, String)> = Vec::new();
        fields.push(("message".to_owned(), self.message.clone()));
        fields.push(("error".to_owned(), self.error.clone()));
        let ghost fixed = seq![("message"@, self.message@), ("error"@, self.error@)];
        assert(field_texts(fields@) == fixed);
        if let Some(s) = &self.source {
            fields.push(("source".to_owned(), s.clone()));
        }
        assert(field_texts(fields@) == fixed + field("source"@, self@.source));
        if let Some(s) = &self.source2 {
            fields.push(("source2".to_owned(), s.clone()));
        }
        assert(field_texts(fields@) == fixed + field("source"@, self@.source) + field(
            "source2"@,
            self@.source2,
        ));
        if let Some(s) = &self.source3 {
            fields.push(("source3".to_owned(), s.clone()));
        }
        fields
    }
}

/// Renders failure `e` as a structured record under the caller's `message`.
/// The record names at most `MAX_CAUSES` causes, however long the chain is.
pub fn log_error(message: &str, e: &Failure) -> (record: LogRecord)
    ensures
        record@ == report(message@, e),
{
    let mut error_chain: Vec<&Failure> = Vec::new();
    build_error_chain(&mut error_chain, e.source());
    let found: usize = error_chain.len();
    let source = if found > 0 {
        Some(error_chain[0].text.clone())
    } else {
        None
    };
    let source2 = if found > 1 {
        Some(error_chain[1].text.clone())
    } else {
        None
    };
    let source3 = if found > 2 {
        Some(error_chain[2].text.clone())
    } else {
        None
    };
    LogRecord { message: message.to_owned(), error: e.text.clone(), source, source2, source3 }
}

} // verus!
