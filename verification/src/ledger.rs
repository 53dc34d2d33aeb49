//! Rules of the transaction ledger: how a batch of writes is reported when
//! some of its identifiers are already on record.

use crate::api::texts_view;
use vstd::prelude::*;
use vstd::string::*;

verus! {

/// The error code by which the relational store reports that a unique key
/// is already taken.
pub const DUPLICATE_CODE: &'static str = "23505";

/// How the write of one transaction ended.
#[derive(Clone, Copy, Debug, PartialEq, Eq, Structural)]
pub enum CreateOutcome {
    /// The transaction is on record now.
    Created,
    /// A transaction with this identifier was on record already.
    Duplicate,
    /// The write failed for another reason.
    Failed,
}

/// The outcome that a write's result stands for. `Ok` is a write that
/// succeeded; `Err` holds the store's error code, where the error has one.
pub open spec fn outcome_of(result: Result<(), Option<Seq<char>>>) -> CreateOutcome {
    match result {
        Ok(()) => CreateOutcome::Created,
        Err(Some(code)) => if code == DUPLICATE_CODE@ {
            CreateOutcome::Duplicate
        } else {
            CreateOutcome::Failed
        },
        Err(None) => CreateOutcome::Failed,
    }
}

/// The view of a write's result.
pub open spec fn write_view(result: Result<(), Option<String>>) -> Result<(), Option<Seq<char>>> {
    match result {
        Ok(()) => Ok(()),
        Err(Some(code)) => Err(Some(code@)),
        Err(None) => Err(None),
    }
}

/// Reads the result of a write.
pub fn create_outcome(result: Result<(), Option<String>>) -> (r: CreateOutcome)
    ensures
        r == outcome_of(write_view(result)),
{
    match result {
        Ok(()) => CreateOutcome::Created,
        Err(Some(code)) => {
            let duplicate = String::from_str(DUPLICATE_CODE);
            if code == duplicate {
                CreateOutcome::Duplicate
            } else {
                CreateOutcome::Failed
            }
        },
        Err(None) => CreateOutcome::Failed,
    }
}

/// The report on a batch of writes: the identifiers that were created,
/// those that were on record before the batch, and those whose write
/// failed. No list names an identifier twice.
#[derive(Debug)]
pub struct BatchReport {
    created: Vec<String>,
    duplicates: Vec<String>,
    errors: Vec<String>,
}

/// The mathematical value of a [`BatchReport`]: three sets of identifiers.
pub struct BatchReportView {
    pub created: Set<Seq<char>>,
    pub duplicates: Set<Seq<char>>,
    pub errors: Set<Seq<char>>,
}

/// The report after one more write: a created identifier joins the created
/// ones; a duplicate joins the duplicates unless this batch created it; a
/// failed one joins the errors.
pub open spec fn record_of(report: BatchReportView, id: Seq<char>, outcome: CreateOutcome) -> BatchReportView {
    match outcome {
        CreateOutcome::Created => BatchReportView { created: report.created.insert(id), ..report },
        CreateOutcome::Duplicate => if report.created.contains(id) {
            report
        } else {
            BatchReportView { duplicates: report.duplicates.insert(id), ..report }
        },
        CreateOutcome::Failed => BatchReportView { errors: report.errors.insert(id), ..report },
    }
}

/// Tells whether a list names an identifier.
fn names(list: &Vec<String>, id: &String) -> (r: bool)
    ensures
        r == texts_view(list@).contains(id@),
        r == texts_view(list@).to_set().contains(id@),
{
    let mut i: usize = 0;
    while i < list.len()
        invariant
            i <= list.len(),
            forall|j: int| 0 <= j < i ==> texts_view(list@)[j] != id@,
        decreases list.len() - i,
    {
        if list[i] == *id {
            assert(texts_view(list@)[i as int] == id@);
            return true;
        }
        i += 1;
    }
    false
}

/// Adds an identifier to a list that does not name it yet.
fn insert_unique(list: Vec<String>, id: String) -> (r: Vec<String>)
    requires
        texts_view(list@).no_duplicates(),
    ensures
        texts_view(r@).no_duplicates(),
        texts_view(r@).to_set() == texts_view(list@).to_set().insert(id@),
{
    let mut list = list;
    let ghost before = texts_view(list@);
    if names(&list, &id) {
        list
    } else {
        list.push(id);
        proof {
            assert(texts_view(list@) =~= before.push(id@));
            before.lemma_push_to_set_commute(id@);
        }
        list
    }
}

impl View for BatchReport {
    type V = BatchReportView;

    closed spec fn view(&self) -> BatchReportView {
        BatchReportView {
            created: texts_view(self.created@).to_set(),
            duplicates: texts_view(self.duplicates@).to_set(),
            errors: texts_view(self.errors@).to_set(),
        }
    }
}

impl BatchReport {
    /// No list names an identifier twice.
    #[verifier::type_invariant]
    spec fn inv(&self) -> bool {
        &&& texts_view(self.created@).no_duplicates()
        &&& texts_view(self.duplicates@).no_duplicates()
        &&& texts_view(self.errors@).no_duplicates()
    }

    /// The report on a batch before its first write.
    pub fn new() -> (r: BatchReport)
        ensures
            r@.created == Set::<Seq<char>>::empty(),
            r@.duplicates == Set::<Seq<char>>::empty(),
            r@.errors == Set::<Seq<char>>::empty(),
    {
        BatchReport { created: Vec::new(), duplicates: Vec::new(), errors: Vec::new() }
    }

    /// Takes in how the write of the transaction `id` ended.
    pub fn record(self, id: String, outcome: CreateOutcome) -> (r: BatchReport)
        ensures
            r@ == record_of(self@, id@, outcome),
    {
        proof {
            use_type_invariant(&self);
        }
        let BatchReport { created, duplicates, errors } = self;
        match outcome {
            CreateOutcome::Created => BatchReport {
                created: insert_unique(created, id),
                duplicates,
                errors,
            },
            CreateOutcome::Duplicate => {
                if names(&created, &id) {
                    BatchReport { created, duplicates, errors }
                } else {
                    BatchReport { created, duplicates: insert_unique(duplicates, id), errors }
                }
            },
            CreateOutcome::Failed => BatchReport {
                created,
                duplicates,
                errors: insert_unique(errors, id),
            },
        }
    }

    /// The identifiers that this batch created, each once.
    pub fn created(&self) -> (r: &Vec<String>)
        ensures
            texts_view(r@).to_set() == self@.created,
            texts_view(r@).no_duplicates(),
    {
        proof {
            use_type_invariant(self);
        }
        &self.created
    }

    /// The identifiers that were on record before this batch, each once.
    pub fn duplicates(&self) -> (r: &Vec<String>)
        ensures
            texts_view(r@).to_set() == self@.duplicates,
            texts_view(r@).no_duplicates(),
    {
        proof {
            use_type_invariant(self);
        }
        &self.duplicates
    }

    /// The identifiers whose write failed, each once.
    pub fn errors(&self) -> (r: &Vec<String>)
        ensures
            texts_view(r@).to_set() == self@.errors,
            texts_view(r@).no_duplicates(),
    {
        proof {
            use_type_invariant(self);
        }
        &self.errors
    }
}

} // verus!
