//! Batch runs over the files of a directory.
//!
//! The caller walks the directory, reads the files and writes the results.
//! What is decided here: which entries are images, where each result goes,
//! what becomes of each file, and how the outcomes add up. One file's
//! failure is that file's outcome and touches no other file.

use vstd::prelude::*;
use crate::config::ProcessConfig;
use crate::error::{Failure, ImageToolError};
use crate::paths::{file_name, file_name_of, join, joined};
use crate::processor::{
    contents_view, process_outcome, sized_as_asked, ImageProcessor, Processed, ProcessedImage,
    ProcessingStats,
};
use crate::stats::{
    bytes_after, bytes_before, capped, error_views, failures, lemma_all_succeeded,
    lemma_failures_come_from_outcomes, lemma_outcomes_partition, lemma_single_failure, succeeded,
    BatchStats, FileOutcome, Outcome,
};
use crate::text::concat;
use crate::utils::{is_supported_format, supports};

verus! {

/// What stands at a path of the file system.
#[derive(Clone, Copy, Debug, PartialEq, Eq, Structural)]
pub enum PathKind {
    /// Nothing.
    Missing,
    /// Something that is not a directory.
    File,
    /// A directory.
    Directory,
}

/// One entry that the walk of a directory came across.
#[derive(Debug)]
pub struct FoundEntry {
    /// The path of the entry.
    pub path: String,
    /// Whether the entry is a regular file.
    pub is_file: bool,
}

/// One entry of a walk together with what was read from it.
#[derive(Debug)]
pub struct SourceFile {
    /// The path of the entry.
    pub path: String,
    /// Whether the entry is a regular file.
    pub is_file: bool,
    /// The contents of the file; `None` if it was gone when it was read.
    pub contents: Option<Vec<u8>>,
}

/// One file to process: where it is read and where its result goes.
#[derive(Debug)]
pub struct FileTask {
    /// The path of the source file.
    pub source_path: String,
    /// The path of the result.
    pub destination_path: String,
}

/// One result to write.
#[derive(Debug)]
pub struct OutputFile {
    /// The path of the result.
    pub path: String,
    /// The contents of the result.
    pub bytes: Vec<u8>,
}

/// What a batch run hands back: its statistics, and the results to write.
#[derive(Debug)]
pub struct BatchResult {
    /// The statistics of the run.
    pub stats: BatchStats,
    /// The results of the files that succeeded, in the order of the walk.
    pub outputs: Vec<OutputFile>,
}

/// Where a run stands.
#[derive(Clone, Copy, Debug, PartialEq, Eq, Structural)]
pub enum BatchPhase {
    /// Nothing has happened yet.
    Idle,
    /// The directory is being walked.
    Discovering,
    /// Files are being processed.
    Processing,
    /// Every file has an outcome; the statistics are complete.
    Finalizing,
    /// The run is over.
    Done,
}

/// The course of one run: its phase, how many files it found, how many of
/// them have an outcome, and the statistics so far.
///
/// A run goes from `Idle` through `Discovering`, `Processing` and
/// `Finalizing` to `Done`. A run that finds no file, or that is given up
/// before it processes one, goes to `Done` at once. A step that does not fit
/// the phase leaves the run as it is.
pub struct BatchRun {
    phase: BatchPhase,
    total: usize,
    completed: usize,
    stats: BatchStats,
    history: Ghost<Seq<Outcome>>,
}

/// Runs batches under one configuration.
#[derive(Clone, Copy, Debug)]
pub struct BatchProcessor {
    config: ProcessConfig,
    max_threads: usize,
}

/// Why a run cannot start, if it cannot: the input must be a directory, and
/// the output must be a directory or not exist yet.
pub open spec fn path_fault(
    input_dir: Seq<char>,
    input: PathKind,
    output_dir: Seq<char>,
    output: PathKind,
) -> Option<Failure> {
    if input == PathKind::Missing {
        Some(Failure::invalid("Input directory does not exist: "@ + input_dir))
    } else if input == PathKind::File {
        Some(Failure::invalid("Input path is not a directory: "@ + input_dir))
    } else if output == PathKind::File {
        Some(Failure::invalid("Output path exists but is not a directory: "@ + output_dir))
    } else {
        None
    }
}

/// Whether an entry is an image to process: a regular file with a supported
/// extension.
pub open spec fn is_image_entry(path: Seq<char>, is_file: bool) -> bool {
    is_file && supports(path)
}

/// The paths of the images among the entries, in the order of the walk.
pub open spec fn image_paths(entries: Seq<FoundEntry>) -> Seq<Seq<char>> {
    entries.filter(|e: FoundEntry| is_image_entry(e.path@, e.is_file)).map_values(
        |e: FoundEntry| e.path@,
    )
}

/// The images among the files, in the order of the walk.
pub open spec fn selected(files: Seq<SourceFile>) -> Seq<SourceFile> {
    files.filter(|f: SourceFile| is_image_entry(f.path@, f.is_file))
}

/// The task for a source: its result goes into `output_dir` under the
/// source's own file name. A path without a file name is refused.
pub open spec fn task_outcome(source: Seq<char>, output_dir: Seq<char>) -> Result<
    (Seq<char>, Seq<char>),
    Failure,
> {
    match file_name_of(source) {
        None => Err(Failure::invalid("Invalid file name: "@ + source)),
        Some(name) => Ok((source, joined(output_dir, name))),
    }
}

/// What processing one file of a batch gives: the path and the contents of
/// its result with its statistics, or its failure.
pub open spec fn single_outcome(
    config: ProcessConfig,
    source: Seq<char>,
    contents: Option<Seq<u8>>,
    output_dir: Seq<char>,
) -> Result<(Seq<char>, Processed), Failure> {
    match task_outcome(source, output_dir) {
        Err(failure) => Err(failure),
        Ok(task) => match process_outcome(config, task.0, contents, task.1) {
            Err(failure) => Err(failure),
            Ok(processed) => Ok((task.1, processed)),
        },
    }
}

/// The contents of a file as contracts speak of them.
pub open spec fn file_contents(file: SourceFile) -> Option<Seq<u8>> {
    match file.contents {
        Some(data) => Some(data@),
        None => None,
    }
}

/// The outcome of one file of a batch.
pub open spec fn outcome_of(
    config: ProcessConfig,
    file: SourceFile,
    output_dir: Seq<char>,
) -> Outcome {
    Outcome {
        path: file.path@,
        result: match single_outcome(config, file.path@, file_contents(file), output_dir) {
            Ok(done) => Ok(done.1.stats),
            Err(failure) => Err(failure),
        },
    }
}

/// The outcomes of a batch: one for each image among the files, in the
/// order of the walk. Entries that are not images have no outcome.
pub open spec fn batch_outcomes(
    config: ProcessConfig,
    files: Seq<SourceFile>,
    output_dir: Seq<char>,
) -> Seq<Outcome> {
    selected(files).map_values(|f: SourceFile| outcome_of(config, f, output_dir))
}

/// The results of a batch: path and contents for each image that was
/// processed with success, in the order of the walk.
pub open spec fn batch_outputs(
    config: ProcessConfig,
    files: Seq<SourceFile>,
    output_dir: Seq<char>,
) -> Seq<(Seq<char>, Seq<u8>)> {
    selected(files).filter_map(
        |f: SourceFile|
            match single_outcome(config, f.path@, file_contents(f), output_dir) {
                Ok(done) => Some((done.0, done.1.bytes)),
                Err(_) => None,
            },
    )
}

/// A list of results as contracts speak of it.
pub open spec fn output_views(outputs: Seq<OutputFile>) -> Seq<(Seq<char>, Seq<u8>)> {
    outputs.map_values(|o: OutputFile| (o.path@, o.bytes@))
}

/// The tasks of a batch: one for each image among the entries, in the order
/// of the walk, each result going into `output_dir` under the file name of
/// its source.
pub open spec fn planned_tasks(entries: Seq<FoundEntry>, output_dir: Seq<char>) -> Seq<
    (Seq<char>, Seq<char>),
> {
    image_paths(entries).map_values(
        |p: Seq<char>| (p, joined(output_dir, file_name_of(p)->Some_0)),
    )
}

/// A list of tasks as contracts speak of it: source and destination.
pub open spec fn task_views(tasks: Seq<FileTask>) -> Seq<(Seq<char>, Seq<char>)> {
    tasks.map_values(|t: FileTask| (t.source_path@, t.destination_path@))
}

/// A path with a supported extension has a file name, so it has a task.
pub proof fn lemma_image_has_task(path: Seq<char>, output_dir: Seq<char>)
    requires
        supports(path),
    ensures
        file_name_of(path) is Some,
        task_outcome(path, output_dir) == Ok::<(Seq<char>, Seq<char>), Failure>(
            (path, joined(output_dir, file_name_of(path)->Some_0)),
        ),
{
}

/// Every path that the discovery keeps has a supported extension.
pub proof fn lemma_image_paths_are_supported(entries: Seq<FoundEntry>, i: int)
    requires
        0 <= i < image_paths(entries).len(),
    ensures
        supports(image_paths(entries)[i]),
{
    let keep = |e: FoundEntry| is_image_entry(e.path@, e.is_file);
    lemma_kept_is_member(entries, keep, i);
}

/// The texts of a list of paths.
pub open spec fn path_views(paths: Seq<String>) -> Seq<Seq<char>> {
    paths.map_values(|p: String| p@)
}

/// Taking one more file into a batch: an entry that is no image changes
/// nothing; an image adds its outcome at the end, and its result if it has
/// one.
pub proof fn lemma_batch_step(
    config: ProcessConfig,
    files: Seq<SourceFile>,
    output_dir: Seq<char>,
    i: int,
)
    requires
        0 <= i < files.len(),
    ensures
        ({
            let before = files.take(i);
            let now = files.take(i + 1);
            let file = files[i];
            let single = single_outcome(config, file.path@, file_contents(file), output_dir);
            if is_image_entry(file.path@, file.is_file) {
                &&& selected(now) == selected(before).push(file)
                &&& batch_outcomes(config, now, output_dir) == batch_outcomes(
                    config,
                    before,
                    output_dir,
                ).push(outcome_of(config, file, output_dir))
                &&& batch_outputs(config, now, output_dir) == match single {
                    Ok(done) => batch_outputs(config, before, output_dir).push(
                        (done.0, done.1.bytes),
                    ),
                    Err(_) => batch_outputs(config, before, output_dir),
                }
            } else {
                &&& selected(now) == selected(before)
                &&& batch_outcomes(config, now, output_dir) == batch_outcomes(
                    config,
                    before,
                    output_dir,
                )
                &&& batch_outputs(config, now, output_dir) == batch_outputs(
                    config,
                    before,
                    output_dir,
                )
            }
        }),
{
    let before = files.take(i);
    let now = files.take(i + 1);
    let file = files[i];
    let keep = |f: SourceFile| is_image_entry(f.path@, f.is_file);
    let result = |f: SourceFile|
        match single_outcome(config, f.path@, file_contents(f), output_dir) {
            Ok(done) => Some((done.0, done.1.bytes)),
            Err(_) => None,
        };
    assert(now.drop_last() =~= before);
    assert(now.last() == file);
    reveal_with_fuel(Seq::filter, 2);
    if keep(file) {
        let chosen = selected(before).push(file);
        assert(selected(now) =~= chosen);
        assert(chosen.drop_last() =~= selected(before));
        assert(chosen.last() == file);
        assert(batch_outcomes(config, now, output_dir) =~= batch_outcomes(
            config,
            before,
            output_dir,
        ).push(outcome_of(config, file, output_dir)));
        reveal_with_fuel(Seq::filter_map, 2);
        match result(file) {
            Some(out) => {
                assert(chosen.filter_map(result) =~= selected(before).filter_map(result).push(out));
            },
            None => {
                assert(chosen.filter_map(result) =~= selected(before).filter_map(result));
            },
        }
    } else {
        assert(selected(now) =~= selected(before));
    }
}

/// The images among the first files of a walk are among the images of the
/// whole walk: there are no more of them.
pub proof fn lemma_selected_prefix(files: Seq<SourceFile>, i: int)
    requires
        0 <= i <= files.len(),
    ensures
        selected(files.take(i)).len() <= selected(files).len(),
{
    let keep = |f: SourceFile| is_image_entry(f.path@, f.is_file);
    assert(files.take(i) + files.skip(i) =~= files);
    Seq::filter_distributes_over_add(files.take(i), files.skip(i), keep);
}

/// What a filter keeps was there before, and passes the filter.
proof fn lemma_kept_is_member<A>(s: Seq<A>, keep: spec_fn(A) -> bool, i: int)
    requires
        0 <= i < s.filter(keep).len(),
    ensures
        s.contains(s.filter(keep)[i]),
        keep(s.filter(keep)[i]),
    decreases s.len(),
{
    reveal(Seq::filter);
    if s.len() > 0 {
        let rest = s.drop_last();
        let kept = rest.filter(keep);
        if i < kept.len() {
            lemma_kept_is_member(rest, keep, i);
            let k = choose|k: int| 0 <= k < rest.len() && rest[k] == kept[i];
            assert(s[k] == rest[k]);
        } else {
            assert(s[s.len() - 1] == s.last());
        }
    }
}

/// Whether `path` is the path of an image among the files.
pub open spec fn names_image(files: Seq<SourceFile>, path: Seq<char>) -> bool {
    exists|k: int|
        0 <= k < files.len() && is_image_entry((#[trigger] files[k]).path@, files[k].is_file)
            && files[k].path@ == path
}

/// Every image has one outcome, and nothing else has: the successes and the
/// failures of a batch together are as many as the images among the files,
/// and every failure stands under the path of an image. An entry that is no
/// image is neither counted nor reported.
pub proof fn lemma_batch_covers_images(
    config: ProcessConfig,
    files: Seq<SourceFile>,
    output_dir: Seq<char>,
)
    ensures
        ({
            let outcomes = batch_outcomes(config, files, output_dir);
            &&& outcomes.len() == selected(files).len()
            &&& succeeded(outcomes) + failures(outcomes).len() == selected(files).len()
            &&& forall|j: int|
                0 <= j < failures(outcomes).len() ==> names_image(
                    files,
                    (#[trigger] failures(outcomes)[j]).0,
                )
        }),
{
    let outcomes = batch_outcomes(config, files, output_dir);
    let keep = |f: SourceFile| is_image_entry(f.path@, f.is_file);
    lemma_outcomes_partition(outcomes);
    assert forall|j: int| 0 <= j < failures(outcomes).len() implies names_image(
        files,
        (#[trigger] failures(outcomes)[j]).0,
    ) by {
        lemma_failures_come_from_outcomes(outcomes, j);
        let m = choose|m: int|
            0 <= m < outcomes.len() && (#[trigger] outcomes[m]).result is Err && failures(
                outcomes,
            )[j] == (outcomes[m].path, outcomes[m].result->Err_0);
        let file = selected(files)[m];
        lemma_kept_is_member(files, keep, m);
        let k = choose|k: int| 0 <= k < files.len() && files[k] == file;
        assert(files[k].path@ == outcomes[m].path);
    }
}

/// Where every image can be processed, every image is counted and nothing
/// is reported: `N` images and any number of other entries give a count of
/// `N` and no failure.
pub proof fn lemma_batch_all_processed(
    config: ProcessConfig,
    files: Seq<SourceFile>,
    output_dir: Seq<char>,
    stats: BatchStats,
)
    requires
        files.len() <= usize::MAX,
        stats.summarizes(batch_outcomes(config, files, output_dir)),
        forall|i: int|
            0 <= i < selected(files).len() ==> single_outcome(
                config,
                (#[trigger] selected(files)[i]).path@,
                file_contents(selected(files)[i]),
                output_dir,
            ) is Ok,
    ensures
        stats.processed_count == selected(files).len(),
        stats.errors@.len() == 0,
{
    let outcomes = batch_outcomes(config, files, output_dir);
    let keep = |f: SourceFile| is_image_entry(f.path@, f.is_file);
    files.lemma_filter_len(keep);
    assert forall|i: int| 0 <= i < outcomes.len() implies (#[trigger] outcomes[i]).result is Ok by {
        let file = selected(files)[i];
        assert(outcomes[i] == outcome_of(config, file, output_dir));
    }
    lemma_all_succeeded(outcomes);
    assert(error_views(stats.errors@).len() == stats.errors@.len());
}

/// One image that cannot be processed among `N`: the count is `N - 1`, the
/// list of failures holds that image alone, under its path, and the sums are
/// those of the other images. The run itself succeeds.
pub proof fn lemma_batch_one_failure(
    config: ProcessConfig,
    files: Seq<SourceFile>,
    output_dir: Seq<char>,
    stats: BatchStats,
    k: int,
)
    requires
        files.len() <= usize::MAX,
        stats.summarizes(batch_outcomes(config, files, output_dir)),
        0 <= k < selected(files).len(),
        forall|i: int|
            0 <= i < selected(files).len() ==> (single_outcome(
                config,
                (#[trigger] selected(files)[i]).path@,
                file_contents(selected(files)[i]),
                output_dir,
            ) is Err <==> i == k),
    ensures
        stats.processed_count == selected(files).len() - 1,
        error_views(stats.errors@) == seq![
            (
                selected(files)[k].path@,
                single_outcome(
                    config,
                    selected(files)[k].path@,
                    file_contents(selected(files)[k]),
                    output_dir,
                )->Err_0,
            ),
        ],
        stats.total_size_before == capped(
            bytes_before(batch_outcomes(config, files, output_dir).remove(k)),
        ),
        stats.total_size_after == capped(
            bytes_after(batch_outcomes(config, files, output_dir).remove(k)),
        ),
{
    let outcomes = batch_outcomes(config, files, output_dir);
    let keep = |f: SourceFile| is_image_entry(f.path@, f.is_file);
    files.lemma_filter_len(keep);
    assert forall|i: int| 0 <= i < outcomes.len() implies ((#[trigger] outcomes[i]).result is Err
        <==> i == k) by {
        let file = selected(files)[i];
        assert(outcomes[i] == outcome_of(config, file, output_dir));
    }
    assert(outcomes[k] == outcome_of(config, selected(files)[k], output_dir));
    lemma_single_failure(outcomes, k);
}

impl FileTask {
    /// The task for a source file whose result goes into `output_dir`.
    pub fn new(source_path: &str, output_dir: &str) -> (r: Result<FileTask, ImageToolError>)
        ensures
            match task_outcome(source_path@, output_dir@) {
                Ok(task) => r is Ok && r->Ok_0.source_path@ == task.0
                    && r->Ok_0.destination_path@ == task.1,
                Err(failure) => r is Err && r->Err_0.reports(failure),
            },
    {
        match file_name(source_path) {
            None => Err(
                ImageToolError::InvalidParameter(concat("Invalid file name: ", source_path)),
            ),
            Some(name) => Ok(
                FileTask {
                    source_path: String::from_str(source_path),
                    destination_path: join(output_dir, name.as_str()),
                },
            ),
        }
    }
}

impl BatchRun {
    #[verifier::type_invariant]
    spec fn consistent(self) -> bool {
        &&& self.completed <= self.total
        &&& self.history@.len() == self.completed
        &&& self.stats.summarizes(self.history@)
        &&& self.phase == BatchPhase::Idle || self.phase == BatchPhase::Discovering ==> self.total
            == 0
        &&& self.phase == BatchPhase::Processing ==> self.completed < self.total
        &&& self.phase == BatchPhase::Finalizing || self.phase == BatchPhase::Done
            ==> self.completed == self.total
    }

    /// The phase of the run.
    pub closed spec fn spec_phase(&self) -> BatchPhase {
        self.phase
    }

    /// The number of files that the run found.
    pub closed spec fn spec_total(&self) -> usize {
        self.total
    }

    /// The number of files that have an outcome.
    pub closed spec fn spec_completed(&self) -> usize {
        self.completed
    }

    /// The outcomes so far, in order of arrival.
    pub closed spec fn outcomes(&self) -> Seq<Outcome> {
        self.history@
    }

    /// The statistics so far.
    pub closed spec fn spec_stats(&self) -> BatchStats {
        self.stats
    }

    /// What holds of every run: no more outcomes than files, the statistics
    /// are those of the outcomes so far, and a run that is finalizing or
    /// done has an outcome for every file it found.
    pub open spec fn wf(&self) -> bool {
        &&& self.completed() <= self.total()
        &&& self.outcomes().len() == self.completed()
        &&& self.spec_stats().summarizes(self.outcomes())
        &&& self.phase() == BatchPhase::Processing ==> self.completed() < self.total()
        &&& self.phase() == BatchPhase::Finalizing || self.phase() == BatchPhase::Done
            ==> self.completed() == self.total()
    }

    /// A run in which nothing has happened yet.
    pub fn new() -> (run: BatchRun)
        ensures
            run.phase() == BatchPhase::Idle,
            run.total() == 0,
            run.completed() == 0,
            run.outcomes() == Seq::<Outcome>::empty(),
            run.wf(),
    {
        BatchRun {
            phase: BatchPhase::Idle,
            total: 0,
            completed: 0,
            stats: BatchStats::new(),
            history: Ghost(Seq::empty()),
        }
    }

    /// The phase of the run.
    #[verifier::when_used_as_spec(spec_phase)]
    pub fn phase(&self) -> (phase: BatchPhase)
        ensures
            phase == self.spec_phase(),
    {
        self.phase
    }

    /// The number of files that the run found.
    #[verifier::when_used_as_spec(spec_total)]
    pub fn total(&self) -> (n: usize)
        ensures
            n == self.spec_total(),
    {
        self.total
    }

    /// The number of files that have an outcome: the progress of the run.
    #[verifier::when_used_as_spec(spec_completed)]
    pub fn completed(&self) -> (n: usize)
        ensures
            n == self.spec_completed(),
            n <= self.total(),
    {
        proof {
            use_type_invariant(self);
        }
        self.completed
    }

    /// The statistics so far.
    pub fn stats(&self) -> (stats: &BatchStats)
        ensures
            *stats == self.spec_stats(),
            stats.summarizes(self.outcomes()),
            self.wf(),
    {
        proof {
            use_type_invariant(self);
        }
        &self.stats
    }

    /// The walk begins: `Idle` becomes `Discovering`.
    pub fn begin(self) -> (next: BatchRun)
        ensures
            next.wf(),
            self.phase() == BatchPhase::Idle ==> next.phase() == BatchPhase::Discovering,
            self.phase() != BatchPhase::Idle ==> next == self,
            next.total() == self.total(),
            next.completed() == self.completed(),
            next.outcomes() == self.outcomes(),
            next.spec_stats() == self.spec_stats(),
    {
        proof {
            use_type_invariant(&self);
        }
        match self.phase {
            BatchPhase::Idle => BatchRun {
                phase: BatchPhase::Discovering,
                total: self.total,
                completed: self.completed,
                stats: self.stats,
                history: self.history,
            },
            _ => self,
        }
    }

    /// The walk has ended with `count` files: `Discovering` becomes
    /// `Processing`, or `Done` where there is nothing to process.
    pub fn discovered(self, count: usize) -> (next: BatchRun)
        ensures
            next.wf(),
            self.phase() == BatchPhase::Discovering ==> next.total() == count && next.phase() == (
            if count == 0 {
                BatchPhase::Done
            } else {
                BatchPhase::Processing
            }),
            self.phase() != BatchPhase::Discovering ==> next == self,
            next.completed() == self.completed(),
            next.outcomes() == self.outcomes(),
            next.spec_stats() == self.spec_stats(),
    {
        proof {
            use_type_invariant(&self);
        }
        match self.phase {
            BatchPhase::Discovering => BatchRun {
                phase: if count == 0 {
                    BatchPhase::Done
                } else {
                    BatchPhase::Processing
                },
                total: count,
                completed: self.completed,
                stats: self.stats,
                history: self.history,
            },
            _ => self,
        }
    }

    /// One file has its outcome. The outcome enters the statistics and the
    /// progress goes up by one; with the last file, `Processing` becomes
    /// `Finalizing`. The progress never goes down.
    pub fn file_done(self, outcome: FileOutcome) -> (next: BatchRun)
        ensures
            next.wf(),
            next.total() == self.total(),
            next.completed() >= self.completed(),
            self.phase() == BatchPhase::Processing ==> {
                &&& next.completed() == self.completed() + 1
                &&& next.outcomes() == self.outcomes().push(outcome@)
                &&& next.phase() == if next.completed() == next.total() {
                    BatchPhase::Finalizing
                } else {
                    BatchPhase::Processing
                }
            },
            self.phase() != BatchPhase::Processing ==> next == self,
    {
        proof {
            use_type_invariant(&self);
        }
        match self.phase {
            BatchPhase::Processing => {
                let mut stats = self.stats;
                stats.record(outcome);
                let completed: usize = self.completed + 1;
                BatchRun {
                    phase: if completed == self.total {
                        BatchPhase::Finalizing
                    } else {
                        BatchPhase::Processing
                    },
                    total: self.total,
                    completed,
                    stats,
                    history: Ghost(self.history@.push(outcome@)),
                }
            },
            _ => self,
        }
    }

    /// The statistics are handed over: `Finalizing` becomes `Done`.
    pub fn finish(self) -> (next: BatchRun)
        ensures
            next.wf(),
            self.phase() == BatchPhase::Finalizing ==> next.phase() == BatchPhase::Done,
            self.phase() != BatchPhase::Finalizing ==> next == self,
            next.total() == self.total(),
            next.completed() == self.completed(),
            next.outcomes() == self.outcomes(),
            next.spec_stats() == self.spec_stats(),
    {
        proof {
            use_type_invariant(&self);
        }
        match self.phase {
            BatchPhase::Finalizing => BatchRun {
                phase: BatchPhase::Done,
                total: self.total,
                completed: self.completed,
                stats: self.stats,
                history: self.history,
            },
            _ => self,
        }
    }

    /// The run is given up before any file is processed, as when its
    /// directories are not usable: `Idle` or `Discovering` becomes `Done`.
    pub fn abort(self) -> (next: BatchRun)
        ensures
            next.wf(),
            self.phase() == BatchPhase::Idle || self.phase() == BatchPhase::Discovering
                ==> next.phase() == BatchPhase::Done && next.total() == 0,
            !(self.phase() == BatchPhase::Idle || self.phase() == BatchPhase::Discovering) ==> next
                == self,
            next.completed() == self.completed(),
            next.outcomes() == self.outcomes(),
            next.spec_stats() == self.spec_stats(),
    {
        proof {
            use_type_invariant(&self);
        }
        match self.phase {
            BatchPhase::Idle | BatchPhase::Discovering => BatchRun {
                phase: BatchPhase::Done,
                total: 0,
                completed: self.completed,
                stats: self.stats,
                history: self.history,
            },
            _ => self,
        }
    }

    /// The statistics of the run, which are those of its outcomes. Of a run
    /// that is done, every file that was found has its outcome among them.
    pub fn into_stats(self) -> (stats: BatchStats)
        ensures
            stats == self.spec_stats(),
            stats.summarizes(self.outcomes()),
            self.phase() == BatchPhase::Done ==> self.outcomes().len() == self.total(),
    {
        proof {
            use_type_invariant(&self);
        }
        self.stats
    }
}

impl BatchProcessor {
    /// The configuration under which each file is processed.
    pub closed spec fn spec_config(&self) -> ProcessConfig {
        self.config
    }

    /// The number of worker threads asked for; zero for as many as the
    /// machine offers.
    pub closed spec fn spec_max_threads(&self) -> usize {
        self.max_threads
    }

    /// A batch processor. The thread count belongs to the runs of this
    /// processor alone and changes nothing outside of them.
    pub fn new(config: ProcessConfig, max_threads: usize) -> (processor: BatchProcessor)
        ensures
            processor.spec_config() == config,
            processor.spec_max_threads() == max_threads,
    {
        BatchProcessor { config, max_threads }
    }

    /// The configuration under which each file is processed.
    #[verifier::when_used_as_spec(spec_config)]
    pub fn config(&self) -> (config: ProcessConfig)
        ensures
            config == self.spec_config(),
    {
        self.config
    }

    /// The number of worker threads asked for.
    #[verifier::when_used_as_spec(spec_max_threads)]
    pub fn max_threads(&self) -> (n: usize)
        ensures
            n == self.spec_max_threads(),
    {
        self.max_threads
    }

    /// The size of the worker pool of a run: the number asked for, or, where
    /// none was asked for, what the machine offers; one at the least.
    pub fn worker_count(&self, available: usize) -> (n: usize)
        ensures
            n >= 1,
            self.max_threads() > 0 ==> n == self.max_threads(),
            self.max_threads() == 0 && available > 0 ==> n == available,
            self.max_threads() == 0 && available == 0 ==> n == 1,
    {
        if self.max_threads > 0 {
            self.max_threads
        } else if available > 0 {
            available
        } else {
            1
        }
    }

    /// How deep the walk goes: one level, or without bound for a recursive
    /// run.
    pub fn walk_depth(&self, recursive: bool) -> (depth: Option<usize>)
        ensures
            depth == if recursive {
                None
            } else {
                Some(1usize)
            },
    {
        if recursive {
            None
        } else {
            Some(1)
        }
    }

    /// Checks the directories of a run against what the caller found at
    /// their paths. A failure here ends the run before any file is touched.
    pub fn validate_paths(
        &self,
        input_dir: &str,
        input: PathKind,
        output_dir: &str,
        output: PathKind,
    ) -> (r: Result<(), ImageToolError>)
        ensures
            match path_fault(input_dir@, input, output_dir@, output) {
                Some(failure) => r is Err && r->Err_0.reports(failure),
                None => r is Ok,
            },
            r is Ok <==> input == PathKind::Directory && output != PathKind::File,
    {
        match input {
            PathKind::Missing => Err(
                ImageToolError::InvalidParameter(
                    concat("Input directory does not exist: ", input_dir),
                ),
            ),
            PathKind::File => Err(
                ImageToolError::InvalidParameter(
                    concat("Input path is not a directory: ", input_dir),
                ),
            ),
            PathKind::Directory => match output {
                PathKind::File => Err(
                    ImageToolError::InvalidParameter(
                        concat("Output path exists but is not a directory: ", output_dir),
                    ),
                ),
                _ => Ok(()),
            },
        }
    }

    /// The paths of the images among the entries of a walk: the regular
    /// files with a supported extension, in the order of the walk. No
    /// image at all is no failure.
    pub fn collect_image_paths(&self, entries: &Vec<FoundEntry>) -> (paths: Vec<String>)
        ensures
            path_views(paths@) == image_paths(entries@),
            paths@.len() <= entries@.len(),
    {
        let mut paths: Vec<String> = Vec::new();
        let mut i: usize = 0;
        let ghost keep = |e: FoundEntry| is_image_entry(e.path@, e.is_file);
        while i < entries.len()
            invariant
                i <= entries.len(),
                keep == (|e: FoundEntry| is_image_entry(e.path@, e.is_file)),
                path_views(paths@) == image_paths(entries@.take(i as int)),
                paths@.len() <= i,
            decreases entries.len() - i,
        {
            let entry = &entries[i];
            proof {
                let before = entries@.take(i as int);
                let now = entries@.take(i + 1);
                assert(now.drop_last() =~= before);
                assert(now.last() == entries@[i as int]);
                reveal_with_fuel(Seq::filter, 2);
                if keep(*entry) {
                    assert(now.filter(keep) =~= before.filter(keep).push(*entry));
                    assert(image_paths(now) =~= image_paths(before).push(entry.path@));
                } else {
                    assert(now.filter(keep) =~= before.filter(keep));
                }
            }
            if entry.is_file && is_supported_format(entry.path.as_str()) {
                let ghost old_paths = paths@;
                paths.push(entry.path.clone());
                assert(path_views(paths@) =~= path_views(old_paths).push(entry.path@));
            }
            i = i + 1;
        }
        assert(entries@.take(entries.len() as int) =~= entries@);
        paths
    }

    /// The tasks of a run: one for each image among the entries of the
    /// walk, in the order of the walk. No image at all is no failure: the
    /// list is empty then.
    pub fn discover(&self, entries: &Vec<FoundEntry>, output_dir: &str) -> (tasks: Vec<FileTask>)
        ensures
            task_views(tasks@) == planned_tasks(entries@, output_dir@),
            tasks@.len() == image_paths(entries@).len(),
    {
        let paths = self.collect_image_paths(entries);
        let mut tasks: Vec<FileTask> = Vec::new();
        let mut i: usize = 0;
        while i < paths.len()
            invariant
                i <= paths.len(),
                path_views(paths@) == image_paths(entries@),
                task_views(tasks@) == planned_tasks(entries@, output_dir@).take(i as int),
            decreases paths.len() - i,
        {
            let path = &paths[i];
            proof {
                assert(path_views(paths@)[i as int] == path@);
                lemma_image_paths_are_supported(entries@, i as int);
                lemma_image_has_task(path@, output_dir@);
            }
            let ghost before = tasks@;
            match FileTask::new(path.as_str(), output_dir) {
                Ok(task) => {
                    tasks.push(task);
                    let ghost planned = planned_tasks(entries@, output_dir@);
                    let ghost next = (path@, joined(output_dir@, file_name_of(path@)->Some_0));
                    assert(task_views(tasks@) =~= task_views(before).push(next));
                    assert(planned.take(i + 1) =~= planned.take(i as int).push(next));
                },
                Err(_) => {},
            }
            i = i + 1;
        }
        assert(planned_tasks(entries@, output_dir@).take(paths.len() as int)
            =~= planned_tasks(entries@, output_dir@));
        tasks
    }

    /// Carries out one task on the contents of its source, as the caller
    /// read them, and returns the contents of its result. The failure of the
    /// task is returned, not raised: it is for the caller to record it and
    /// go on.
    pub fn run_task(&self, task: &FileTask, contents: Option<&[u8]>) -> (r: Result<
        ProcessedImage,
        ImageToolError,
    >)
        ensures
            crate::processor::processed_result_is(
                r,
                process_outcome(
                    self.config(),
                    task.source_path@,
                    contents_view(contents),
                    task.destination_path@,
                ),
            ),
            r is Ok ==> sized_as_asked(self.config(), r->Ok_0.stats),
    {
        let processor = ImageProcessor::new(self.config);
        processor.process(
            task.source_path.as_str(),
            contents,
            task.destination_path.as_str(),
        )
    }

    /// Processes one file of a batch: its result goes into `output_dir`
    /// under the file's own name. The failure of the file is returned, not
    /// raised: it is for the caller to record it and go on.
    pub fn process_single_image(
        &self,
        input_path: &str,
        contents: Option<&[u8]>,
        output_dir: &str,
    ) -> (r: Result<(String, ProcessedImage), ImageToolError>)
        ensures
            match single_outcome(self.config(), input_path@, contents_view(contents), output_dir@) {
                Ok(done) => r is Ok && r->Ok_0.0@ == done.0 && r->Ok_0.1.bytes@ == done.1.bytes
                    && r->Ok_0.1.stats == done.1.stats,
                Err(failure) => r is Err && r->Err_0.reports(failure),
            },
            r is Ok ==> sized_as_asked(self.config(), r->Ok_0.1.stats),
    {
        let task = FileTask::new(input_path, output_dir)?;
        let processed = self.run_task(&task, contents)?;
        Ok((task.destination_path, processed))
    }

    /// The number of images among the files.
    fn count_images(&self, files: &Vec<SourceFile>) -> (count: usize)
        ensures
            count == selected(files@).len(),
    {
        let mut count: usize = 0;
        let mut i: usize = 0;
        while i < files.len()
            invariant
                i <= files.len(),
                count == selected(files@.take(i as int)).len(),
                count <= i,
            decreases files.len() - i,
        {
            proof {
                lemma_batch_step(self.config, files@, Seq::empty(), i as int);
            }
            if files[i].is_file && is_supported_format(files[i].path.as_str()) {
                count = count + 1;
            }
            i = i + 1;
        }
        assert(files@.take(files.len() as int) =~= files@);
        count
    }

    /// Runs a batch over the files that the walk of `input_dir` found and
    /// the contents that were read from them, and returns the statistics
    /// and the results to write into `output_dir`.
    ///
    /// The run fails as a whole only where its directories are not usable,
    /// and then before any file is processed. Otherwise it succeeds,
    /// whatever becomes of the files: each image has one outcome, a success
    /// that is counted or a failure that is listed under its path. Entries
    /// that are not images are passed over and appear nowhere.
    pub fn process_directory(
        &self,
        input_dir: &str,
        input: PathKind,
        output_dir: &str,
        output: PathKind,
        files: &Vec<SourceFile>,
    ) -> (r: Result<BatchResult, ImageToolError>)
        ensures
            match path_fault(input_dir@, input, output_dir@, output) {
                Some(failure) => r is Err && r->Err_0.reports(failure),
                None => {
                    &&& r is Ok
                    &&& r->Ok_0.stats.summarizes(
                        batch_outcomes(self.config(), files@, output_dir@),
                    )
                    &&& output_views(r->Ok_0.outputs@) == batch_outputs(
                        self.config(),
                        files@,
                        output_dir@,
                    )
                    &&& r->Ok_0.stats.processed_count + r->Ok_0.stats.errors@.len() == selected(
                        files@,
                    ).len()
                    &&& r->Ok_0.outputs@.len() == r->Ok_0.stats.processed_count
                },
            },
    {
        self.validate_paths(input_dir, input, output_dir, output)?;
        let count: usize = self.count_images(files);
        let mut run = BatchRun::new().begin().discovered(count);
        let mut outputs: Vec<OutputFile> = Vec::new();
        let mut i: usize = 0;
        assert(selected(files@.take(0)) =~= Seq::<SourceFile>::empty());
        assert(batch_outcomes(self.config, files@.take(0), output_dir@) =~= Seq::<
            Outcome,
        >::empty());
        assert(batch_outputs(self.config, files@.take(0), output_dir@) =~= Seq::<
            (Seq<char>, Seq<u8>),
        >::empty());
        while i < files.len()
            invariant
                i <= files.len(),
                run.wf(),
                run.total() == selected(files@).len(),
                run.outcomes() == batch_outcomes(self.config, files@.take(i as int), output_dir@),
                run.completed() == selected(files@.take(i as int)).len(),
                run.phase() == if run.completed() < run.total() {
                    BatchPhase::Processing
                } else if run.total() == 0 {
                    BatchPhase::Done
                } else {
                    BatchPhase::Finalizing
                },
                output_views(outputs@) == batch_outputs(
                    self.config,
                    files@.take(i as int),
                    output_dir@,
                ),
                outputs@.len() == crate::stats::succeeded(run.outcomes()),
            decreases files.len() - i,
        {
            let file = &files[i];
            proof {
                lemma_batch_step(self.config, files@, output_dir@, i as int);
                lemma_selected_prefix(files@, i + 1);
            }
            if file.is_file && is_supported_format(file.path.as_str()) {
                let contents: Option<&[u8]> = match &file.contents {
                    Some(data) => Some(data.as_slice()),
                    None => None,
                };
                let ghost old_outputs = outputs@;
                let ghost old_outcomes = run.outcomes();
                let processed = self.process_single_image(
                    file.path.as_str(),
                    contents,
                    output_dir,
                );
                let result: Result<ProcessingStats, ImageToolError> = match processed {
                    Ok((path, processed)) => {
                        outputs.push(OutputFile { path, bytes: processed.bytes });
                        assert(output_views(outputs@) =~= output_views(old_outputs).push(
                            (path@, processed.bytes@),
                        ));
                        Ok(processed.stats)
                    },
                    Err(e) => Err(e),
                };
                let outcome = FileOutcome { path: file.path.clone(), result };
                assert(outcome@ == outcome_of(self.config, *file, output_dir@));
                run = run.file_done(outcome);
                assert(run.outcomes().drop_last() =~= old_outcomes);
            }
            i = i + 1;
        }
        assert(files@.take(files.len() as int) =~= files@);
        let run = run.finish();
        proof {
            crate::stats::lemma_outcomes_partition(run.outcomes());
        }
        let stats = run.into_stats();
        proof {
            assert(crate::stats::error_views(stats.errors@).len() == stats.errors@.len());
        }
        Ok(BatchResult { stats, outputs })
    }
}

} // verus!
