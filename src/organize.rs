//! Where one file goes, the order of the steps that take it there, and the
//! result reported for it.
use vstd::prelude::*;
use crate::category::{CategoryMap, classify, get_category};
use crate::mover::{MoveStep, MoveStrategy, give_up_failure, is_over};
use crate::destination::{DestinationSearch, candidate};
use crate::outcome::{FileFailure, MoveResult, failure_message, result_view};
use crate::path::{dotted_extension, dotted_extension_of, file_name, file_name_of, join, join_path};

verus! {

/// The category of a file, its folder under the output root, and the file's name.
pub struct FilePlan {
    pub category: String,
    pub category_dir: String,
    pub file_name: String,
}

/// Plans the move of `source_path` under `output_root`: the category comes
/// from the extension of the file name. A path without a file name cannot be
/// moved.
pub fn plan_file(source_path: &str, output_root: &str, categories: &CategoryMap) -> (r: Result<
    FilePlan,
    FileFailure,
>)
    ensures
        r is Err <==> file_name(source_path@) is None,
        r matches Err(f) ==> f == FileFailure::InvalidName,
        r matches Ok(p) ==> {
            &&& file_name(source_path@) == Some(p.file_name@)
            &&& p.category@ == classify(categories@, dotted_extension(source_path@))
            &&& p.category_dir@ == join(output_root@, p.category@)
        },
{
    match file_name_of(source_path) {
        None => Err(FileFailure::InvalidName),
        Some(name) => {
            let ext = dotted_extension_of(source_path);
            let category = get_category(ext.as_str(), categories);
            let category_dir = join_path(output_root, category.as_str());
            Ok(FilePlan { category, category_dir, file_name: name })
        },
    }
}

/// The result for `source_path` once its move is over: moved into `category`,
/// or the failure that the move ended with.
pub fn move_result(source_path: &str, category: &str, strategy: &MoveStrategy) -> (r: MoveResult)
    requires
        is_over(strategy.step),
    ensures
        r.source_path@ == source_path@,
        r.succeeded == (strategy.step == MoveStep::Moved),
        r.succeeded ==> r.detail@ == category@,
        !r.succeeded ==> r.detail@ == failure_message(give_up_failure(*strategy)),
{
    match strategy.failure() {
        None => MoveResult::moved(source_path, category),
        Some(f) => MoveResult::failed(source_path, &f),
    }
}

/// What a file job asks of the caller next.
pub enum FileAction {
    /// Report whether the source file exists.
    CheckSource,
    /// Make sure this folder exists, creating it and its parents if needed,
    /// and report how that went.
    CreateFolder(String),
    /// Report whether an entry already exists at this path.
    CheckPath(String),
    /// Move the source to this path with a `MoveStrategy` and report it once over.
    Move(String),
    /// Nothing more: the result is ready.
    Done,
}

/// Where a file job stands.
#[derive(PartialEq, Eq, Structural, Clone, Copy, Debug)]
pub enum JobStage {
    CheckSource,
    CreateFolder,
    FindName,
    Move,
    Done,
}

/// The handling of one file: the source must exist and have a file name, its
/// category folder must be there, a free destination is searched, then the
/// file is moved. Each failure ends the job with its own result.
pub struct FileJob {
    source: String,
    output_root: String,
    stage: JobStage,
    category: String,
    folder: String,
    search: DestinationSearch,
    dest: String,
    result: Option<MoveResult>,
}

impl FileJob {
    pub closed spec fn stage(&self) -> JobStage {
        self.stage
    }

    pub closed spec fn source(&self) -> Seq<char> {
        self.source@
    }

    pub closed spec fn output_root(&self) -> Seq<char> {
        self.output_root@
    }

    pub closed spec fn category(&self) -> Seq<char> {
        self.category@
    }

    /// The category folder.
    pub closed spec fn folder(&self) -> Seq<char> {
        self.folder@
    }

    /// The file name of the source.
    pub closed spec fn file_name(&self) -> Seq<char> {
        self.search.name()
    }

    /// The counter of the destination name being tried.
    pub closed spec fn counter(&self) -> nat {
        self.search.counter()
    }

    /// The destination chosen.
    pub closed spec fn dest(&self) -> Seq<char> {
        self.dest@
    }

    /// The result, once the job is done.
    pub closed spec fn outcome(&self) -> Option<(Seq<char>, bool, Seq<char>)> {
        match self.result {
            Some(r) => Some(result_view(r)),
            None => None,
        }
    }

    pub closed spec fn wf(&self) -> bool {
        &&& self.search.wf()
        &&& self.search.dir() == self.folder@
        &&& (self.stage == JobStage::Done <==> self.result is Some)
    }

    /// A job for `source_path`, to be placed under `output_root`.
    pub fn new(source_path: &str, output_root: &str) -> (r: FileJob)
        ensures
            r.wf(),
            r.stage() == JobStage::CheckSource,
            r.source() == source_path@,
            r.output_root() == output_root@,
            r.outcome() is None,
    {
        let folder = String::new();
        let search = DestinationSearch::new(folder.as_str(), "");
        FileJob {
            source: String::from_str(source_path),
            output_root: String::from_str(output_root),
            stage: JobStage::CheckSource,
            category: String::new(),
            folder,
            search,
            dest: String::new(),
            result: None,
        }
    }

    /// What the caller is asked to do now.
    pub fn action(&self) -> (r: FileAction)
        requires
            self.wf(),
        ensures
            self.stage() == JobStage::CheckSource ==> r is CheckSource,
            self.stage() == JobStage::CreateFolder ==> (r matches FileAction::CreateFolder(f) && f@
                == self.folder()),
            self.stage() == JobStage::FindName ==> (r matches FileAction::CheckPath(p) && p@ == join(
                self.folder(),
                candidate(self.file_name(), self.counter()),
            )),
            self.stage() == JobStage::Move ==> (r matches FileAction::Move(p) && p@ == self.dest()),
            self.stage() == JobStage::Done ==> r is Done,
    {
        match self.stage {
            JobStage::CheckSource => FileAction::CheckSource,
            JobStage::CreateFolder => FileAction::CreateFolder(self.folder.clone()),
            JobStage::FindName => FileAction::CheckPath(self.search.candidate()),
            JobStage::Move => FileAction::Move(self.dest.clone()),
            JobStage::Done => FileAction::Done,
        }
    }

    /// Takes whether the source exists. A missing source or one without a file
    /// name ends the job; otherwise its category folder is asked for.
    pub fn source_checked(&mut self, exists: bool, categories: &CategoryMap)
        requires
            old(self).wf(),
            old(self).stage() == JobStage::CheckSource,
        ensures
            final(self).wf(),
            final(self).source() == old(self).source(),
            final(self).output_root() == old(self).output_root(),
            !exists ==> final(self).stage() == JobStage::Done && final(self).outcome() == Some(
                (old(self).source(), false, failure_message(FileFailure::NotFound)),
            ),
            exists && file_name(old(self).source()) is None ==> final(self).stage() == JobStage::Done
                && final(self).outcome() == Some(
                (old(self).source(), false, failure_message(FileFailure::InvalidName)),
            ),
            exists && file_name(old(self).source()) is Some ==> {
                &&& final(self).stage() == JobStage::CreateFolder
                &&& final(self).category() == classify(categories@, dotted_extension(old(self).source()))
                &&& final(self).folder() == join(old(self).output_root(), final(self).category())
                &&& file_name(old(self).source()) == Some(final(self).file_name())
                &&& final(self).counter() == 0
            },
    {
        if !exists {
            self.result = Some(MoveResult::failed(self.source.as_str(), &FileFailure::NotFound));
            self.stage = JobStage::Done;
            return;
        }
        match plan_file(self.source.as_str(), self.output_root.as_str(), categories) {
            Err(f) => {
                self.result = Some(MoveResult::failed(self.source.as_str(), &f));
                self.stage = JobStage::Done;
            },
            Ok(plan) => {
                self.search = DestinationSearch::new(plan.category_dir.as_str(), plan.file_name.as_str());
                self.category = plan.category;
                self.folder = plan.category_dir;
                self.stage = JobStage::CreateFolder;
            },
        }
    }

    /// Takes how making sure of the category folder went: an error ends the job.
    pub fn folder_ready(&mut self, outcome: Result<(), String>)
        requires
            old(self).wf(),
            old(self).stage() == JobStage::CreateFolder,
        ensures
            final(self).wf(),
            final(self).source() == old(self).source(),
            final(self).category() == old(self).category(),
            final(self).folder() == old(self).folder(),
            final(self).file_name() == old(self).file_name(),
            final(self).counter() == old(self).counter(),
            outcome is Ok ==> final(self).stage() == JobStage::FindName,
            outcome matches Err(e) ==> final(self).stage() == JobStage::Done && final(self).outcome()
                == Some((old(self).source(), false, failure_message(FileFailure::DirectoryCreateFailed(e)))),
    {
        match outcome {
            Ok(()) => {
                self.stage = JobStage::FindName;
            },
            Err(e) => {
                let f = FileFailure::DirectoryCreateFailed(e);
                self.result = Some(MoveResult::failed(self.source.as_str(), &f));
                self.stage = JobStage::Done;
            },
        }
    }

    /// Takes whether the offered destination is taken: a free one is chosen,
    /// a taken one makes way for the next name.
    pub fn path_checked(&mut self, taken: bool)
        requires
            old(self).wf(),
            old(self).stage() == JobStage::FindName,
            taken ==> old(self).counter() < u64::MAX,
        ensures
            final(self).wf(),
            final(self).source() == old(self).source(),
            final(self).category() == old(self).category(),
            final(self).folder() == old(self).folder(),
            final(self).file_name() == old(self).file_name(),
            taken ==> final(self).stage() == JobStage::FindName && final(self).counter() == old(
                self,
            ).counter() + 1,
            !taken ==> final(self).stage() == JobStage::Move && final(self).dest() == join(
                old(self).folder(),
                candidate(old(self).file_name(), old(self).counter()),
            ),
    {
        match self.search.record(taken) {
            Some(p) => {
                self.dest = p;
                self.stage = JobStage::Move;
            },
            None => {},
        }
    }

    /// The counter of the destination name being tried.
    pub fn counter_value(&self) -> (r: u64)
        ensures
            r == self.counter(),
    {
        self.search.counter_value()
    }

    /// Takes the move once it is over; the job is then done.
    pub fn moved(&mut self, strategy: &MoveStrategy)
        requires
            old(self).wf(),
            old(self).stage() == JobStage::Move,
            is_over(strategy.step),
        ensures
            final(self).wf(),
            final(self).stage() == JobStage::Done,
            final(self).source() == old(self).source(),
            final(self).outcome() == Some(
                (
                    old(self).source(),
                    strategy.step == MoveStep::Moved,
                    if strategy.step == MoveStep::Moved {
                        old(self).category()
                    } else {
                        failure_message(give_up_failure(*strategy))
                    },
                ),
            ),
    {
        self.result = Some(move_result(self.source.as_str(), self.category.as_str(), strategy));
        self.stage = JobStage::Done;
    }

    /// The result, once the job is done.
    pub fn result(&self) -> (r: Option<MoveResult>)
        ensures
            match r {
                Some(x) => self.outcome() == Some(result_view(x)),
                None => self.outcome() is None,
            },
    {
        match &self.result {
            Some(x) => Some(x.duplicate()),
            None => None,
        }
    }
}

} // verus!
