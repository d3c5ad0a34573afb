//! The directory primitives: the working directory, listing a directory,
//! and creating one and checking that it is there.

use crate::error::{IOError, IOErrorView, ShawtyError, ShawtyErrorView};
use crate::protocol::{Next, NextView};
use crate::text::join;
use vstd::prelude::*;

verus! {

/// Get the working directory: takes what the query for it gave, and
/// returns the path, or the failure that keeps the fault.
pub fn get_cwd_path<P>(found: Result<P, std::io::Error>) -> (result: Result<P, ShawtyError>)
    ensures
        match found {
            Ok(path) => result matches Ok(same) && same == path,
            Err(fault) => result matches Err(error) && error@ == ShawtyErrorView::IO(
                IOErrorView::OtherError {
                    message: "Failed to get cwd path, perhaps you don't have permission or it doesn't exist."@,
                    source: fault,
                },
            ),
        },
{
    match found {
        Ok(path) => Ok(path),
        Err(fault) => Err(
            ShawtyError::from(
                IOError::OtherError {
                    message: String::from_str(
                        "Failed to get cwd path, perhaps you don't have permission or it doesn't exist.",
                    ),
                    source: fault,
                },
            ),
        ),
    }
}

/// The entries that could be read, in their order; the others are left
/// out.
pub open spec fn valid_entries<E>(entries: Seq<Result<E, std::io::Error>>) -> Seq<E>
    decreases entries.len(),
{
    if entries.len() == 0 {
        Seq::empty()
    } else {
        match entries.last() {
            Ok(entry) => valid_entries(entries.drop_last()).push(entry),
            Err(_) => valid_entries(entries.drop_last()),
        }
    }
}

/// How many of the entries could be read.
pub open spec fn valid_count<E>(entries: Seq<Result<E, std::io::Error>>) -> nat
    decreases entries.len(),
{
    if entries.len() == 0 {
        0
    } else {
        valid_count(entries.drop_last()) + if entries.last() is Ok {
            1nat
        } else {
            0nat
        }
    }
}

/// List a directory: takes what opening the directory at `path` gave, and
/// returns its entries without those that could not be read, or the read
/// failure that keeps the fault.
pub fn list_directory<E>(
    path: &str,
    opened: Result<Vec<Result<E, std::io::Error>>, std::io::Error>,
) -> (result: Result<Vec<E>, ShawtyError>)
    ensures
        match opened {
            Ok(entries) => result matches Ok(listed) && listed@ == valid_entries(entries@),
            Err(fault) => result matches Err(error) && error@ == ShawtyErrorView::IO(
                IOErrorView::ReadError {
                    message: "Failed to read directory: "@ + path@,
                    source: fault,
                },
            ),
        },
{
    match opened {
        Err(fault) => Err(
            ShawtyError::from(
                IOError::ReadError {
                    message: String::from_str("Failed to read directory: ").concat(path),
                    source: fault,
                },
            ),
        ),
        Ok(entries) => {
            let ghost all = entries@;
            let mut listed: Vec<E> = Vec::new();
            for entry in it: entries
                invariant
                    it.seq() == all,
                    listed@ == valid_entries(all.take(it.index())),
            {
                proof {
                    let seen = all.take(it.index() + 1);
                    assert(seen.drop_last() == all.take(it.index()));
                }
                if let Ok(valid) = entry {
                    listed.push(valid);
                }
            }
            proof {
                assert(all.take(all.len() as int) == all);
            }
            Ok(listed)
        },
    }
}

/// Listing returns exactly the entries that could be read: as many as
/// there are of them, each of them, and nothing else. Of an empty directory
/// it returns nothing.
pub proof fn lemma_valid_entries_are_exact<E>(entries: Seq<Result<E, std::io::Error>>)
    ensures
        entries.len() == 0 ==> valid_entries(entries).len() == 0,
        valid_entries(entries).len() == valid_count(entries),
        forall|i: int|
            0 <= i < entries.len() && (#[trigger] entries[i]) is Ok ==> valid_entries(
                entries,
            ).contains(entries[i]->Ok_0),
        forall|j: int|
            0 <= j < valid_entries(entries).len() ==> entries.contains(
                Ok(#[trigger] valid_entries(entries)[j]),
            ),
    decreases entries.len(),
{
    if entries.len() > 0 {
        let before = entries.drop_last();
        let listed = valid_entries(entries);
        lemma_valid_entries_are_exact(before);
        assert forall|i: int| 0 <= i < entries.len() && (#[trigger] entries[i]) is Ok implies listed.contains(
            entries[i]->Ok_0,
        ) by {
            if i < before.len() {
                assert(before[i] == entries[i]);
                let j = choose|j: int|
                    0 <= j < valid_entries(before).len() && valid_entries(before)[j]
                        == entries[i]->Ok_0;
                assert(listed[j] == entries[i]->Ok_0);
            } else {
                assert(listed[listed.len() - 1] == entries[i]->Ok_0);
            }
        }
        assert forall|j: int| 0 <= j < listed.len() implies entries.contains(
            Ok(#[trigger] listed[j]),
        ) by {
            if j < valid_entries(before).len() {
                let i = choose|i: int|
                    0 <= i < before.len() && before[i] == Ok::<E, std::io::Error>(
                        valid_entries(before)[j],
                    );
                assert(entries[i] == before[i]);
            } else {
                assert(entries.last() == Ok::<E, std::io::Error>(listed[j]));
            }
        }
    }
}

/// A step of [`create_dir_and_check`].
#[derive(Debug)]
pub enum DirStep {
    /// Ask whether something exists at the path.
    Probe { path: String },
    /// Create the directory at the path.
    Create { path: String },
    /// Ask again whether something exists at the path.
    Confirm { path: String },
}

/// The mathematical value of a [`DirStep`].
pub enum DirStepView {
    Probe { path: Seq<char> },
    Create { path: Seq<char> },
    Confirm { path: Seq<char> },
}

impl View for DirStep {
    type V = DirStepView;

    open spec fn view(&self) -> DirStepView {
        match *self {
            DirStep::Probe { path } => DirStepView::Probe { path: path@ },
            DirStep::Create { path } => DirStepView::Create { path: path@ },
            DirStep::Confirm { path } => DirStepView::Confirm { path: path@ },
        }
    }
}

/// Whether the outcome of a probe says that the path exists. A probe that
/// failed says that it does not.
pub open spec fn exists_at(outcome: Result<bool, std::io::Error>) -> bool {
    outcome matches Ok(found) && found
}

impl DirStepView {
    /// How many steps the primitive may still take, this one included.
    pub open spec fn steps_left(self) -> nat {
        match self {
            DirStepView::Probe { .. } => 3,
            DirStepView::Create { .. } => 2,
            DirStepView::Confirm { .. } => 1,
        }
    }

    /// The path that the step is about.
    pub open spec fn path(self) -> Seq<char> {
        match self {
            DirStepView::Probe { path } => path,
            DirStepView::Create { path } => path,
            DirStepView::Confirm { path } => path,
        }
    }

    /// What follows the step, given how it went. For `Create`, `Ok` with
    /// either value says that no fault was reported.
    pub open spec fn resumed(self, outcome: Result<bool, std::io::Error>) -> NextView<
        DirStepView,
        (),
    > {
        match self {
            DirStepView::Probe { path } => if exists_at(outcome) {
                NextView::Finished(Ok(()))
            } else {
                NextView::Perform(DirStepView::Create { path })
            },
            DirStepView::Create { path } => match outcome {
                Ok(_) => NextView::Perform(DirStepView::Confirm { path }),
                Err(fault) => NextView::Finished(
                    Err(
                        ShawtyErrorView::IO(
                            IOErrorView::WriteError {
                                message: "Failed to create directory: '"@ + path + "'"@,
                                source: fault,
                            },
                        ),
                    ),
                ),
            },
            DirStepView::Confirm { path } => if exists_at(outcome) {
                NextView::Finished(Ok(()))
            } else {
                NextView::Finished(
                    Err(
                        ShawtyErrorView::WeirdError {
                            message: "After creation with no error, the directory still not exist. Path: '"@
                                + path + "'"@,
                        },
                    ),
                )
            },
        }
    }
}

/// Create a directory and check that it is there: names the first step,
/// which asks whether `path` exists already.
pub fn create_dir_and_check(path: &str) -> (step: DirStep)
    ensures
        step@ == (DirStepView::Probe { path: path@ }),
{
    DirStep::Probe { path: String::from_str(path) }
}

impl DirStep {
    /// Takes how the step went and says what follows. A path that exists is
    /// left alone. One that does not is created and asked for again; if
    /// it is still missing though creating it reported no fault, the
    /// result is a `WeirdError`, as there is no fault to keep.
    pub fn resume(self, outcome: Result<bool, std::io::Error>) -> (next: Next<DirStep, ()>)
        ensures
            next@ == self@.resumed(outcome),
    {
        match self {
            DirStep::Probe { path } => {
                if found(&outcome) {
                    Next::Finished(Ok(()))
                } else {
                    Next::Perform(DirStep::Create { path })
                }
            },
            DirStep::Create { path } => match outcome {
                Ok(_) => Next::Perform(DirStep::Confirm { path }),
                Err(fault) => Next::Finished(
                    Err(
                        ShawtyError::from(
                            IOError::WriteError {
                                message: join("Failed to create directory: '", path.as_str(), "'"),
                                source: fault,
                            },
                        ),
                    ),
                ),
            },
            DirStep::Confirm { path } => {
                if found(&outcome) {
                    Next::Finished(Ok(()))
                } else {
                    Next::Finished(
                        Err(
                            ShawtyError::WeirdError {
                                message: join(
                                    "After creation with no error, the directory still not exist. Path: '",
                                    path.as_str(),
                                    "'",
                                ),
                            },
                        ),
                    )
                }
            },
        }
    }
}

/// Whether the outcome of a probe says that the path exists.
fn found(outcome: &Result<bool, std::io::Error>) -> (yes: bool)
    ensures
        yes == exists_at(*outcome),
{
    match outcome {
        Ok(found) => *found,
        Err(_) => false,
    }
}

/// No step of `create_dir_and_check` is tried again, and every step is
/// about the path that the first one was about: the path is asked for,
/// created at most once, and asked for once more.
pub proof fn lemma_create_dir_never_retries(
    step: DirStepView,
    outcome: Result<bool, std::io::Error>,
)
    ensures
        step.resumed(outcome) matches NextView::Perform(next) ==> next.steps_left()
            < step.steps_left() && next.path() == step.path(),
        step.steps_left() == 1 ==> step.resumed(outcome) is Finished,
        step.resumed(outcome) matches NextView::Perform(next) ==> (next is Create ==> step is Probe
            && !exists_at(outcome)),
{
}

/// How a run of [`create_dir_and_check`] ended on a disk that does as it is
/// told.
pub struct DirRun {
    /// What the primitive returned.
    pub result: Result<(), ShawtyErrorView>,
    /// Whether the directory is there after the run.
    pub present: bool,
    /// How many times the run created the directory.
    pub created: nat,
}

/// The run that starts at `step`, on a disk that does as it is told: a
/// probe says whether the directory is there, and creating it puts it
/// there and reports no fault. `present` says whether the directory is
/// there before the step; `budget` bounds the steps that may follow it.
pub open spec fn run_on_obedient_disk(step: DirStepView, present: bool, budget: nat) -> Option<
    DirRun,
>
    decreases budget,
{
    let creates = step is Create;
    let after = present || creates;
    let made: nat = if creates {
        1
    } else {
        0
    };
    match step.resumed(Ok(after)) {
        NextView::Finished(result) => Some(DirRun { result, present: after, created: made }),
        NextView::Perform(next) => if budget == 0 {
            None
        } else {
            match run_on_obedient_disk(next, after, (budget - 1) as nat) {
                Some(rest) => Some(
                    DirRun { result: rest.result, present: rest.present, created: rest.created + made },
                ),
                None => None,
            }
        },
    }
}

/// On a disk that does as it is told, creating a directory that is not
/// there succeeds, creates it once and leaves it there; doing so again
/// right after succeeds too, creates nothing and leaves it there. For a
/// directory that is there already, the primitive succeeds and creates
/// nothing.
pub proof fn lemma_create_dir_is_idempotent(path: Seq<char>)
    ensures
        ({
            let first = run_on_obedient_disk(DirStepView::Probe { path }, false, 2);
            let second = run_on_obedient_disk(DirStepView::Probe { path }, first->0.present, 2);
            &&& first == Some(DirRun { result: Ok(()), present: true, created: 1 })
            &&& second == Some(DirRun { result: Ok(()), present: true, created: 0 })
        }),
        run_on_obedient_disk(DirStepView::Probe { path }, true, 2) == Some(
            DirRun { result: Ok(()), present: true, created: 0 },
        ),
{
    reveal_with_fuel(run_on_obedient_disk, 3);
}

} // verus!
