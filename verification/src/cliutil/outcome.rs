//! How the workers of a progress display ended, and what that makes of a
//! stop.

use crate::text::{join, joined, texts};
use vstd::prelude::*;

verus! {

/// How a worker thread ended.
#[derive(Debug)]
pub enum Joined {
    /// It returned without a failure.
    Clean,
    /// It returned a failure, here in words.
    Failed(String),
    /// It ended abnormally; what it left behind, in words.
    Panicked(String),
}

/// The words that stand before what a worker that ended abnormally left.
pub open spec fn panic_prefix() -> Seq<char> {
    "thread panicked: "@
}

/// The line that `outcome` adds to a failure report, if any.
pub open spec fn failure_of(outcome: Joined) -> Option<Seq<char>> {
    match outcome {
        Joined::Clean => None,
        Joined::Failed(why) => Some(why@),
        Joined::Panicked(what) => Some(panic_prefix() + what@),
    }
}

/// The lines that `outcomes` add to a failure report, in order.
pub open spec fn failures_of(outcomes: Seq<Joined>) -> Seq<Seq<char>>
    decreases outcomes.len(),
{
    if outcomes.len() == 0 {
        Seq::empty()
    } else {
        match failure_of(outcomes.last()) {
            Some(line) => failures_of(outcomes.drop_last()).push(line),
            None => failures_of(outcomes.drop_last()),
        }
    }
}

/// What a stop returns once its workers ended as `outcomes` say: success
/// where none failed, else the failures, one per line.
pub open spec fn report_of(outcomes: Seq<Joined>) -> Result<(), Seq<char>> {
    if failures_of(outcomes).len() == 0 {
        Ok(())
    } else {
        Err(joined(failures_of(outcomes), seq!['\n']))
    }
}

/// A stop that had no worker to wait for succeeds.
pub proof fn lemma_report_of_none()
    ensures
        report_of(Seq::empty()) == Ok::<(), Seq<char>>(()),
{
}

/// Gathers the failures of the workers that a stop waited for. No failure
/// is dropped: each adds its line to the report.
pub fn join_report(outcomes: &Vec<Joined>) -> (r: Result<(), String>)
    ensures
        match r {
            Ok(_) => report_of(outcomes@) == Ok::<(), Seq<char>>(()),
            Err(text) => report_of(outcomes@) == Err::<(), Seq<char>>(text@),
        },
{
    let mut errors: Vec<String> = Vec::new();
    let mut i: usize = 0;
    while i < outcomes.len()
        invariant
            i <= outcomes.len(),
            texts(errors@) == failures_of(outcomes@.take(i as int)),
        decreases outcomes.len() - i,
    {
        proof {
            assert(outcomes@.take(i + 1).drop_last() =~= outcomes@.take(i as int));
        }
        let ghost earlier = texts(errors@);
        match &outcomes[i] {
            Joined::Clean => {},
            Joined::Failed(why) => {
                errors.push(why.clone());
                proof {
                    assert(texts(errors@) =~= earlier.push(why@));
                }
            },
            Joined::Panicked(what) => {
                let mut line = String::from_str("thread panicked: ");
                line.append(what.as_str());
                errors.push(line);
                proof {
                    assert(texts(errors@) =~= earlier.push(line@));
                }
            },
        }
        i += 1;
    }
    proof {
        assert(outcomes@.take(outcomes.len() as int) =~= outcomes@);
        reveal_strlit("\n");
        assert("\n"@ =~= seq!['\n']);
    }
    if errors.len() == 0 {
        Ok(())
    } else {
        Err(join(&errors, "\n"))
    }
}

} // verus!
