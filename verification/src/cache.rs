//! The deduplication cache: a bounded table of successful runs.

use crate::lru::{
    evicted, has_key, lemma_key_at, lemma_refreshed, lemma_stored, refreshed, stored,
    table_capacity, table_entries, table_get, table_insert, table_len, table_new, value_of,
    well_formed, Entries, KeyView, Table, ValueView,
};
use crate::request::{launch_request, LaunchRequest};
use crate::status::{
    append_timeout_marker, timeout_marker, ExecError, ExecutionResult, ExecutionResultView,
};
use vstd::prelude::*;

verus! {

/// The number of runs that the cache remembers.
pub const CACHE_CAPACITY: usize = 256;

/// The table key of a `(command, input)` pair: both strings as they are,
/// with nothing trimmed or folded.
pub open spec fn cache_key(command: Seq<char>, input: Seq<char>) -> KeyView {
    (command, input)
}

/// What a stored value gives back when it is found: its status and output,
/// not timed out.
pub open spec fn hit(value: ValueView) -> ExecutionResultView {
    ExecutionResultView { exit_status: value.0, output: value.1, timed_out: false }
}

/// What the caller is shown of a finished run: the run as it ended, with
/// the timeout marker after its output if it was cut off.
pub open spec fn shown(run: ExecutionResultView) -> ExecutionResultView {
    ExecutionResultView {
        exit_status: run.exit_status,
        output: if run.timed_out {
            run.output + timeout_marker()
        } else {
            run.output
        },
        timed_out: run.timed_out,
    }
}

/// The mathematical value of what a run attempt gave.
pub open spec fn outcome_view(outcome: Result<ExecutionResult, ExecError>) -> Result<
    ExecutionResultView,
    ExecError,
> {
    match outcome {
        Ok(run) => Ok(run@),
        Err(error) => Err(error),
    }
}

/// What the caller gets for an attempt: the error as it is, a run as
/// [`shown`].
pub open spec fn reported(outcome: Result<ExecutionResultView, ExecError>) -> Result<
    ExecutionResultView,
    ExecError,
> {
    match outcome {
        Ok(run) => Ok(shown(run)),
        Err(error) => Err(error),
    }
}

/// The table after an attempt for `key`: a run that succeeded is stored, and
/// anything else (a failing status, a timeout, an error) leaves the table
/// as it was.
pub open spec fn recorded(
    entries: Entries,
    key: KeyView,
    outcome: Result<ExecutionResultView, ExecError>,
) -> Entries {
    match outcome {
        Ok(run) => if run.is_success() {
            stored(entries, key, (run.exit_status, run.output), CACHE_CAPACITY as nat)
        } else {
            entries
        },
        Err(_) => entries,
    }
}

/// A table of successful runs, found again by `(command, input)`.
pub struct Cache {
    table: Table,
}

impl View for Cache {
    type V = Entries;

    closed spec fn view(&self) -> Entries {
        table_entries(self.table)
    }
}

impl Cache {
    /// The number of entries that the table was made for.
    pub closed spec fn limit(&self) -> nat {
        table_capacity(self.table)
    }

    /// The cache's invariant: made for `CACHE_CAPACITY` entries and within
    /// that bound, no key twice, only successful runs.
    pub open spec fn wf(&self) -> bool {
        &&& self.limit() == CACHE_CAPACITY
        &&& well_formed(self@, CACHE_CAPACITY as nat)
    }

    /// An empty cache.
    pub fn new() -> (cache: Cache)
        ensures
            cache.wf(),
            cache@ == Seq::<(KeyView, ValueView)>::empty(),
    {
        Cache { table: table_new(CACHE_CAPACITY) }
    }

    /// The number of runs remembered.
    pub fn len(&self) -> (n: usize)
        requires
            self.wf(),
        ensures
            n == self@.len(),
            n <= CACHE_CAPACITY,
    {
        table_len(&self.table)
    }

    fn find(&mut self, key: &(String, String)) -> (found: Option<ExecutionResult>)
        requires
            old(self).wf(),
        ensures
            final(self).wf(),
            final(self)@ == refreshed(old(self)@, (key.0@, key.1@)),
            match found {
                Some(result) => value_of(old(self)@, (key.0@, key.1@)) == Some(
                    (result.exit_status, result.output@),
                ) && !result.timed_out,
                None => value_of(old(self)@, (key.0@, key.1@)).is_none(),
            },
    {
        proof {
            lemma_refreshed(self@, (key.0@, key.1@));
        }
        match table_get(&mut self.table, key) {
            Some(value) => Some(
                ExecutionResult { exit_status: value.0, output: value.1, timed_out: false },
            ),
            None => None,
        }
    }

    fn settle(&mut self, key: (String, String), outcome: Result<ExecutionResult, ExecError>) -> (result:
        Result<ExecutionResult, ExecError>)
        requires
            old(self).wf(),
        ensures
            final(self).wf(),
            outcome_view(result) == reported(outcome_view(outcome)),
            final(self)@ == recorded(old(self)@, (key.0@, key.1@), outcome_view(outcome)),
    {
        match outcome {
            Err(error) => Err(error),
            Ok(run) => {
                let mut run = run;
                if run.timed_out {
                    append_timeout_marker(&mut run.output);
                }
                if run.success() {
                    proof {
                        lemma_stored(
                            self@,
                            (key.0@, key.1@),
                            (run.exit_status, run.output@),
                            CACHE_CAPACITY as nat,
                        );
                    }
                    table_insert(&mut self.table, key, (run.exit_status, run.output.clone()));
                }
                Ok(run)
            },
        }
    }

    /// Looks `(command, input)` up. A remembered run is returned as it was
    /// stored, marked as not timed out, and becomes the most recently used
    /// entry; `None` says that the run has to be made. Nothing else in the
    /// table changes.
    pub fn lookup(&mut self, command: &str, input: &str) -> (found: Option<ExecutionResult>)
        requires
            old(self).wf(),
        ensures
            final(self).wf(),
            final(self)@ == refreshed(old(self)@, cache_key(command@, input@)),
            match found {
                Some(result) => value_of(old(self)@, cache_key(command@, input@)) == Some(
                    (result.exit_status, result.output@),
                ) && result@ == hit((result.exit_status, result.output@)),
                None => value_of(old(self)@, cache_key(command@, input@)).is_none(),
            },
    {
        let key = (command.to_owned(), input.to_owned());
        self.find(&key)
    }

    /// Takes in what an attempt to run `(command, input)` gave. An error is
    /// handed back as it is. A run is handed back with the timeout marker
    /// after its output if it was cut off, and is stored, under the pair, only
    /// if it ended in time with a successful status.
    pub fn record(
        &mut self,
        command: &str,
        input: String,
        outcome: Result<ExecutionResult, ExecError>,
    ) -> (result: Result<ExecutionResult, ExecError>)
        requires
            old(self).wf(),
        ensures
            final(self).wf(),
            outcome_view(result) == reported(outcome_view(outcome)),
            final(self)@ == recorded(
                old(self)@,
                cache_key(command@, input@),
                outcome_view(outcome),
            ),
    {
        let key = (command.to_owned(), input);
        self.settle(key, outcome)
    }

    /// Runs `input` through `command`, or answers from the table.
    ///
    /// A pair that the table holds is answered from it: `run` is not called.
    /// Otherwise `run` is called once, with the request that the pair stands
    /// for, and what it gives is taken in as by [`Cache::record`].
    ///
    /// A cache shared between threads is better served by [`Cache::lookup`]
    /// and [`Cache::record`], so that no lock is held while the sandbox runs.
    pub fn exec<F>(&mut self, command: &str, input: String, run: F) -> (result: Result<
        ExecutionResult,
        ExecError,
    >) where F: FnOnce(LaunchRequest) -> Result<ExecutionResult, ExecError>
        requires
            old(self).wf(),
            forall|request: LaunchRequest|
                request@ == launch_request(command@, input@) ==> call_requires(run, (request,)),
        ensures
            final(self).wf(),
            match value_of(old(self)@, cache_key(command@, input@)) {
                Some(value) => {
                    &&& outcome_view(result) == Ok::<ExecutionResultView, ExecError>(hit(value))
                    &&& final(self)@ == refreshed(old(self)@, cache_key(command@, input@))
                },
                None => exists|request: LaunchRequest, outcome: Result<ExecutionResult, ExecError>|
                    {
                        &&& request@ == launch_request(command@, input@)
                        &&& call_ensures(run, (request,), outcome)
                        &&& outcome_view(result) == reported(outcome_view(outcome))
                        &&& final(self)@ == recorded(
                            old(self)@,
                            cache_key(command@, input@),
                            outcome_view(outcome),
                        )
                    },
            },
    {
        let key = (command.to_owned(), input);
        match self.find(&key) {
            Some(result) => {
                return Ok(result);
            },
            None => {},
        }
        let request = LaunchRequest::new(command, key.1.as_str());
        let ghost shown_request = request;
        let outcome = run(request);
        let ghost shown_outcome = outcome;
        let result = self.settle(key, outcome);
        assert(call_ensures(run, (shown_request,), shown_outcome));
        result
    }
}

/// One use of the cache: a lookup, or the taking in of an attempt.
pub enum Access {
    Lookup(KeyView),
    Record(KeyView, Result<ExecutionResultView, ExecError>),
}

/// The table after one use.
pub open spec fn after_use(entries: Entries, one: Access) -> Entries {
    match one {
        Access::Lookup(key) => refreshed(entries, key),
        Access::Record(key, outcome) => recorded(entries, key, outcome),
    }
}

/// The table after a sequence of uses, the first of them first.
pub open spec fn after_uses(entries: Entries, uses: Seq<Access>) -> Entries
    decreases uses.len(),
{
    if uses.len() == 0 {
        entries
    } else {
        after_use(after_uses(entries, uses.drop_last()), uses.last())
    }
}

/// Two requests have the same key exactly when they have the same command
/// and the same input: nothing is trimmed or folded.
pub proof fn law_key_identity(
    command: Seq<char>,
    input: Seq<char>,
    other_command: Seq<char>,
    other_input: Seq<char>,
)
    ensures
        cache_key(command, input) == cache_key(other_command, other_input) <==> command
            == other_command && input == other_input,
{
}

/// Cache hits are determined: once a run for a pair has ended in time with a
/// successful status, a lookup of the same pair finds it, and what the lookup
/// gives has the status and the output that the first caller was given.
pub proof fn law_hit_after_success(entries: Entries, key: KeyView, run: ExecutionResultView)
    requires
        well_formed(entries, CACHE_CAPACITY as nat),
        run.is_success(),
    ensures
        reported(Ok(run)) == Ok::<ExecutionResultView, ExecError>(run),
        value_of(recorded(entries, key, Ok(run)), key) == Some((run.exit_status, run.output)),
        hit(value_of(recorded(entries, key, Ok(run)), key).unwrap()) == run,
{
    lemma_stored(entries, key, (run.exit_status, run.output), CACHE_CAPACITY as nat);
}

/// Nothing but a success is stored: an error, a failing status or a timeout
/// leaves the table as it was, so that a pair that was not in the table is not
/// in it afterwards and has to be run again.
pub proof fn law_failure_not_cached(
    entries: Entries,
    key: KeyView,
    outcome: Result<ExecutionResultView, ExecError>,
)
    requires
        match outcome {
            Ok(run) => !run.exit_status.is_success() || run.timed_out,
            Err(_) => true,
        },
    ensures
        recorded(entries, key, outcome) == entries,
        value_of(entries, key).is_none() ==> value_of(recorded(entries, key, outcome), key).is_none(),
{
}

/// A run that was cut off is reported, with the marker after the bytes it
/// wrote, but never stored.
pub proof fn law_timeout_not_cached(entries: Entries, key: KeyView, run: ExecutionResultView)
    requires
        run.timed_out,
    ensures
        recorded(entries, key, Ok(run)) == entries,
        reported(Ok(run)) == Ok::<ExecutionResultView, ExecError>(
            ExecutionResultView {
                exit_status: run.exit_status,
                output: run.output + timeout_marker(),
                timed_out: true,
            },
        ),
        !shown(run).is_success(),
{
}

/// The bytes that the process wrote reach the caller and the table
/// unchanged: a run that ended in time is shown with exactly its output, a
/// run that was cut off with its output followed by the marker, and what is
/// stored is the output itself.
pub proof fn law_output_preserved(entries: Entries, key: KeyView, run: ExecutionResultView)
    requires
        well_formed(entries, CACHE_CAPACITY as nat),
    ensures
        shown(run).output.len() >= run.output.len(),
        shown(run).output.subrange(0, run.output.len() as int) == run.output,
        !run.timed_out ==> shown(run).output == run.output,
        run.timed_out ==> shown(run).output.subrange(
            run.output.len() as int,
            shown(run).output.len() as int,
        ) == timeout_marker(),
        run.is_success() ==> value_of(recorded(entries, key, Ok(run)), key) == Some(
            (run.exit_status, run.output),
        ),
{
    assert(shown(run).output.subrange(0, run.output.len() as int) =~= run.output);
    if run.timed_out {
        assert(shown(run).output.subrange(
            run.output.len() as int,
            shown(run).output.len() as int,
        ) =~= timeout_marker());
    }
    if run.is_success() {
        lemma_stored(entries, key, (run.exit_status, run.output), CACHE_CAPACITY as nat);
    }
}

/// Storing never takes the table over its bound, and what it pushes out is
/// the least recently used entry and nothing else: a full table that gets a
/// new key loses its first entry; in every other case no key is lost.
pub proof fn law_eviction(entries: Entries, key: KeyView, run: ExecutionResultView)
    requires
        well_formed(entries, CACHE_CAPACITY as nat),
        run.is_success(),
    ensures
        well_formed(recorded(entries, key, Ok(run)), CACHE_CAPACITY as nat),
        entries.len() == CACHE_CAPACITY && !has_key(entries, key) ==> {
            &&& recorded(entries, key, Ok(run)) == entries.subrange(
                1,
                entries.len() as int,
            ).push((key, (run.exit_status, run.output)))
            &&& value_of(recorded(entries, key, Ok(run)), entries[0].0).is_none()
        },
        forall|other: KeyView|
            other != key && !(entries.len() == CACHE_CAPACITY && !has_key(entries, key) && other
                == entries[0].0) ==> value_of(recorded(entries, key, Ok(run)), other) == value_of(
                entries,
                other,
            ),
{
    let value = (run.exit_status, run.output);
    lemma_stored(entries, key, value, CACHE_CAPACITY as nat);
    if entries.len() == CACHE_CAPACITY && !has_key(entries, key) {
        assert(evicted(entries, key, CACHE_CAPACITY as nat) == Some(entries[0].0));
        lemma_key_at(entries, 0);
        assert(entries[0].0 != key);
    }
}

/// A lookup counts as a use: the entry found becomes the most recently
/// used, every key keeps its value, and in a table of more than one entry the
/// key just looked up is not the one that the next store pushes out.
pub proof fn law_lookup_is_use(entries: Entries, key: KeyView, next: KeyView)
    requires
        well_formed(entries, CACHE_CAPACITY as nat),
        has_key(entries, key),
    ensures
        well_formed(refreshed(entries, key), CACHE_CAPACITY as nat),
        refreshed(entries, key).last().0 == key,
        forall|other: KeyView|
            value_of(refreshed(entries, key), other) == value_of(entries, other),
        entries.len() >= 2 ==> evicted(refreshed(entries, key), next, CACHE_CAPACITY as nat)
            != Some(key),
{
    lemma_refreshed(entries, key);
    let after = refreshed(entries, key);
    if entries.len() >= 2 {
        lemma_key_at(after, 0);
        lemma_key_at(after, after.len() - 1);
    }
}

/// Whatever is looked up and taken in, in whatever order, a cache that
/// started empty holds at most `CACHE_CAPACITY` entries, no key twice, and
/// only successful runs.
pub proof fn law_always_within_bound(uses: Seq<Access>)
    ensures
        well_formed(
            after_uses(Seq::<(KeyView, ValueView)>::empty(), uses),
            CACHE_CAPACITY as nat,
        ),
    decreases uses.len(),
{
    let start = Seq::<(KeyView, ValueView)>::empty();
    if uses.len() > 0 {
        law_always_within_bound(uses.drop_last());
        let before = after_uses(start, uses.drop_last());
        match uses.last() {
            Access::Lookup(key) => {
                lemma_refreshed(before, key);
            },
            Access::Record(key, outcome) => {
                match outcome {
                    Ok(run) => {
                        if run.is_success() {
                            lemma_stored(
                                before,
                                key,
                                (run.exit_status, run.output),
                                CACHE_CAPACITY as nat,
                            );
                        }
                    },
                    Err(_) => {},
                }
            },
        }
    }
}

} // verus!
