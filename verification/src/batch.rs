//! Adding several identifiers, one after the other.
//!
//! Resolving an identifier is work that this library cannot do: it goes over
//! the network. A [`Batch`] therefore only keeps the books. It hands out the
//! identifier whose turn it is, takes back what came of it, and in the end
//! gives two lists: the names of the mods that were added, and the identifiers
//! that failed, each with its error. A failure never ends the batch.
//!
//! ```text
//! let mut batch = Batch::new(identifiers);
//! while let Some(identifier) = batch.next_identifier() {
//!     let outcome = /* resolve the identifier */;
//!     batch = batch.record(outcome);
//! }
//! let (added, failed) = batch.finish();
//! ```

use crate::error::Error;
use vstd::prelude::*;

verus! {

/// The names of the mods that were added, in the order of the attempts.
pub open spec fn successes_of(outcomes: Seq<Result<String, Error>>) -> Seq<String>
    decreases outcomes.len(),
{
    if outcomes.len() == 0 {
        Seq::empty()
    } else {
        let earlier = successes_of(outcomes.drop_last());
        match outcomes.last() {
            Ok(name) => earlier.push(name),
            Err(_) => earlier,
        }
    }
}

/// The identifiers that failed, each with its error as a batch lists it, in
/// the order of the attempts. The attempt at position `i` was made for
/// `identifiers[i]`.
pub open spec fn failures_of(
    identifiers: Seq<String>,
    outcomes: Seq<Result<String, Error>>,
) -> Seq<(String, Error)>
    recommends
        outcomes.len() <= identifiers.len(),
    decreases outcomes.len(),
{
    if outcomes.len() == 0 {
        Seq::empty()
    } else {
        let earlier = failures_of(identifiers, outcomes.drop_last());
        match outcomes.last() {
            Ok(_) => earlier,
            Err(err) => earlier.push((identifiers[outcomes.len() - 1], err.rekinded())),
        }
    }
}

/// How many of the first `upto` attempts succeeded.
pub open spec fn successes_before(outcomes: Seq<Result<String, Error>>, upto: int) -> nat {
    successes_of(outcomes.take(upto)).len()
}

/// How many of the first `upto` attempts failed.
pub open spec fn failures_before(
    identifiers: Seq<String>,
    outcomes: Seq<Result<String, Error>>,
    upto: int,
) -> nat {
    failures_of(identifiers, outcomes.take(upto)).len()
}

/// Every attempt ends in exactly one of the two lists: their lengths add up to
/// the number of attempts.
pub proof fn lemma_partition_is_total(
    identifiers: Seq<String>,
    outcomes: Seq<Result<String, Error>>,
)
    ensures
        successes_of(outcomes).len() + failures_of(identifiers, outcomes).len() == outcomes.len(),
    decreases outcomes.len(),
{
    if outcomes.len() > 0 {
        lemma_partition_is_total(identifiers, outcomes.drop_last());
    }
}

/// The lists of a run that is cut short are the beginnings of the lists of the
/// whole run.
pub proof fn lemma_lists_grow(
    identifiers: Seq<String>,
    outcomes: Seq<Result<String, Error>>,
    upto: int,
)
    requires
        0 <= upto <= outcomes.len(),
    ensures
        successes_of(outcomes.take(upto)) == successes_of(outcomes).take(
            successes_before(outcomes, upto) as int,
        ),
        failures_of(identifiers, outcomes.take(upto)) == failures_of(identifiers, outcomes).take(
            failures_before(identifiers, outcomes, upto) as int,
        ),
        successes_before(outcomes, upto) <= successes_of(outcomes).len(),
        failures_before(identifiers, outcomes, upto) <= failures_of(identifiers, outcomes).len(),
    decreases outcomes.len(),
{
    if upto == outcomes.len() {
        assert(outcomes.take(upto) == outcomes);
    } else {
        let shorter = outcomes.drop_last();
        assert(shorter.take(upto) == outcomes.take(upto));
        lemma_lists_grow(identifiers, shorter, upto);
    }
}

/// Where each attempt ends. The attempt at position `at` stands in the list of
/// its kind behind exactly those of the same kind that were made before it: a
/// success with its name, a failure with its own identifier and its error as a
/// batch lists it.
pub proof fn lemma_attempt_is_listed(
    identifiers: Seq<String>,
    outcomes: Seq<Result<String, Error>>,
    at: int,
)
    requires
        0 <= at < outcomes.len() <= identifiers.len(),
    ensures
        successes_before(outcomes, at) + failures_before(identifiers, outcomes, at) == at,
        match outcomes[at] {
            Ok(name) => {
                &&& successes_before(outcomes, at) < successes_of(outcomes).len()
                &&& successes_of(outcomes)[successes_before(outcomes, at) as int] == name
            },
            Err(err) => {
                &&& failures_before(identifiers, outcomes, at) < failures_of(
                    identifiers,
                    outcomes,
                ).len()
                &&& failures_of(identifiers, outcomes)[failures_before(
                    identifiers,
                    outcomes,
                    at,
                ) as int] == (identifiers[at], err.rekinded())
            },
        },
{
    let through = outcomes.take(at + 1);
    assert(through.drop_last() == outcomes.take(at));
    lemma_partition_is_total(identifiers, outcomes.take(at));
    lemma_lists_grow(identifiers, outcomes, at + 1);
    match outcomes[at] {
        Ok(name) => {
            let listed = successes_of(through);
            assert(listed[successes_before(outcomes, at) as int] == name);
        },
        Err(err) => {
            let listed = failures_of(identifiers, through);
            assert(listed == failures_of(identifiers, outcomes.take(at)).push(
                (identifiers[at], err.rekinded()),
            ));
            assert(listed[failures_before(identifiers, outcomes, at) as int] == (
                identifiers[at],
                err.rekinded(),
            ));
        },
    }
}

/// The order of the attempts is kept: of two attempts, the later one never
/// stands before the earlier one in a list, and where the earlier one
/// succeeded (failed), a later success (failure) stands behind it.
pub proof fn lemma_order_is_kept(
    identifiers: Seq<String>,
    outcomes: Seq<Result<String, Error>>,
    earlier: int,
    later: int,
)
    requires
        0 <= earlier < later < outcomes.len(),
    ensures
        successes_before(outcomes, earlier) <= successes_before(outcomes, later),
        failures_before(identifiers, outcomes, earlier) <= failures_before(
            identifiers,
            outcomes,
            later,
        ),
        outcomes[earlier] is Ok ==> successes_before(outcomes, earlier) < successes_before(
            outcomes,
            later,
        ),
        outcomes[earlier] is Err ==> failures_before(identifiers, outcomes, earlier)
            < failures_before(identifiers, outcomes, later),
{
    let cut = outcomes.take(later);
    assert(cut.take(earlier) == outcomes.take(earlier));
    lemma_lists_grow(identifiers, cut, earlier);
    lemma_lists_grow(identifiers, cut, earlier + 1);
    let through = cut.take(earlier + 1);
    assert(through.drop_last() == cut.take(earlier));
}

/// The books of one batch.
pub struct Batch {
    identifiers: Vec<String>,
    success_names: Vec<String>,
    failures: Vec<(String, Error)>,
    history: Ghost<Seq<Result<String, Error>>>,
}

impl Batch {
    #[verifier::type_invariant]
    spec fn well_formed(self) -> bool {
        &&& self.history@.len() <= self.identifiers@.len()
        &&& self.success_names@ == successes_of(self.history@)
        &&& self.failures@ == failures_of(self.identifiers@, self.history@)
    }

    /// The identifiers of the batch, in the order in which they are tried.
    pub closed spec fn identifiers(&self) -> Seq<String> {
        self.identifiers@
    }

    /// What came of the attempts made so far, in their order.
    pub closed spec fn history(&self) -> Seq<Result<String, Error>> {
        self.history@
    }

    /// Whether every identifier has been tried.
    pub open spec fn is_finished(&self) -> bool {
        self.history().len() >= self.identifiers().len()
    }

    /// A batch of `identifiers`, none of them tried yet.
    pub fn new(identifiers: Vec<String>) -> (batch: Self)
        ensures
            batch.identifiers() == identifiers@,
            batch.history() == Seq::<Result<String, Error>>::empty(),
    {
        Batch {
            identifiers,
            success_names: Vec::new(),
            failures: Vec::new(),
            history: Ghost(Seq::empty()),
        }
    }

    /// How many identifiers have been tried.
    fn position(&self) -> (position: usize)
        ensures
            position == self.history().len(),
            position <= self.identifiers().len(),
    {
        proof {
            use_type_invariant(self);
            lemma_partition_is_total(self.identifiers@, self.history@);
            // Together the two lists are no longer than the identifiers, and
            // those are held by a vector: the sum below fits.
            assert(self.identifiers@.len() == self.identifiers.len());
        }
        self.success_names.len() + self.failures.len()
    }

    /// The identifier whose turn it is, or `None` when all have been tried.
    pub fn next_identifier(&self) -> (next: Option<&str>)
        ensures
            next is None <==> self.is_finished(),
            next matches Some(identifier) ==> {
                identifier@ == self.identifiers()[self.history().len() as int]@
            },
    {
        let position = self.position();
        if position < self.identifiers.len() {
            Some(self.identifiers[position].as_str())
        } else {
            None
        }
    }

    /// Takes down what came of the attempt for the identifier whose turn it
    /// was: a success adds its name to the one list, a failure adds the
    /// identifier and the error to the other. On a finished batch there is no
    /// such identifier, and the batch stays as it is.
    pub fn record(self, outcome: Result<String, Error>) -> (batch: Self)
        ensures
            batch.identifiers() == self.identifiers(),
            self.is_finished() ==> batch.history() == self.history(),
            !self.is_finished() ==> batch.history() == self.history().push(outcome),
    {
        proof {
            use_type_invariant(&self);
        }
        let position = self.position();
        if position >= self.identifiers.len() {
            return self;
        }
        let ghost longer = self.history@.push(outcome);
        assert(longer.drop_last() =~= self.history@);
        let Batch { identifiers, mut success_names, mut failures, history: _ } = self;
        match outcome {
            Ok(name) => {
                success_names.push(name);
            },
            Err(err) => {
                let identifier = identifiers[position].clone();
                failures.push((identifier, err.rekind()));
            },
        }
        Batch { identifiers, success_names, failures, history: Ghost(longer) }
    }

    /// Ends the batch and gives its two lists: the names of the mods that were
    /// added, and the identifiers that failed with their errors.
    pub fn finish(self) -> (lists: (Vec<String>, Vec<(String, Error)>))
        ensures
            lists.0@ == successes_of(self.history()),
            lists.1@ == failures_of(self.identifiers(), self.history()),
            lists.0@.len() + lists.1@.len() == self.history().len(),
            self.is_finished() ==> lists.0@.len() + lists.1@.len() == self.identifiers().len(),
    {
        proof {
            use_type_invariant(&self);
            lemma_partition_is_total(self.identifiers@, self.history@);
        }
        (self.success_names, self.failures)
    }
}

} // verus!
