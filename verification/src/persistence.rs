//! What a save and a load do, step by step. The functions here decide; the
//! caller touches the file system and the live scene. A save asks for the
//! probes of its candidate files and says what to write where; a load asks
//! for what was read and says what to remove and what to spawn.

use crate::codec::{decode, decoded, encode, encoded};
use crate::error::{ErrorView, PersistenceError};
use crate::hierarchy::{resolve, resolved};
use crate::live_scene::LiveScene;
use crate::paths::{allocate, allocation, path_text, scene_path, Probe};
use crate::scene::{LoadRequest, ObjectView, SaveRequest, SpawnRequest, SpawnRequestView};
use vstd::prelude::*;

verus! {

/// How a request ended, for the user to read.
#[derive(Clone, Debug, PartialEq, Eq)]
pub enum Report {
    SaveSucceeded { name: String, path: String },
    SaveFailed { name: String, error: PersistenceError },
    LoadSucceeded { name: String, path: String },
    LoadFailed { name: String, error: PersistenceError },
}

/// A report as contracts see it.
pub enum ReportView {
    SaveSucceeded { name: Seq<char>, path: Seq<char> },
    SaveFailed { name: Seq<char>, error: ErrorView },
    LoadSucceeded { name: Seq<char>, path: Seq<char> },
    LoadFailed { name: Seq<char>, error: ErrorView },
}

impl View for Report {
    type V = ReportView;

    open spec fn view(&self) -> ReportView {
        match self {
            Report::SaveSucceeded { name, path } => ReportView::SaveSucceeded {
                name: name@,
                path: path@,
            },
            Report::SaveFailed { name, error } => ReportView::SaveFailed {
                name: name@,
                error: error@,
            },
            Report::LoadSucceeded { name, path } => ReportView::LoadSucceeded {
                name: name@,
                path: path@,
            },
            Report::LoadFailed { name, error } => ReportView::LoadFailed {
                name: name@,
                error: error@,
            },
        }
    }
}

impl ReportView {
    /// The line that the report is shown as.
    pub open spec fn message_text(self) -> Seq<char> {
        match self {
            ReportView::SaveSucceeded { name, path } => "save succeeded: "@ + name + " at "@ + path,
            ReportView::SaveFailed { name, error } => "save failed: "@ + name + ": "@
                + error.reason_text(),
            ReportView::LoadSucceeded { name, path } => "load succeeded: "@ + name + " from "@
                + path,
            ReportView::LoadFailed { name, error } => "load failed: "@ + name + ": "@
                + error.reason_text(),
        }
    }

    /// The report tells of a failure.
    pub open spec fn is_failure(self) -> bool {
        self is SaveFailed || self is LoadFailed
    }
}

fn join(head: &str, name: &str, link: &str, tail: &str) -> (line: String)
    ensures
        line@ == head@ + name@ + link@ + tail@,
{
    let mut line = String::from_str(head);
    line.append(name);
    line.append(link);
    line.append(tail);
    line
}

impl Report {
    /// The line that the report is shown as.
    pub fn message(&self) -> (line: String)
        ensures
            line@ == self@.message_text(),
    {
        match self {
            Report::SaveSucceeded { name, path } => join(
                "save succeeded: ",
                name.as_str(),
                " at ",
                path.as_str(),
            ),
            Report::SaveFailed { name, error } => {
                let reason = error.reason();
                join("save failed: ", name.as_str(), ": ", reason.as_str())
            },
            Report::LoadSucceeded { name, path } => join(
                "load succeeded: ",
                name.as_str(),
                " from ",
                path.as_str(),
            ),
            Report::LoadFailed { name, error } => {
                let reason = error.reason();
                join("load failed: ", name.as_str(), ": ", reason.as_str())
            },
        }
    }

    /// Whether the report tells of a failure.
    pub fn is_failure(&self) -> (failed: bool)
        ensures
            failed == self@.is_failure(),
    {
        match self {
            Report::SaveFailed { .. } => true,
            Report::LoadFailed { .. } => true,
            _ => false,
        }
    }
}

/// What a save is to do once the candidate files have been probed.
#[derive(Clone, Debug, PartialEq, Eq)]
pub enum SavePlan {
    /// Write `contents` to the file `path`, which was found vacant.
    Write { path: String, contents: String },
    /// Write nothing.
    Reject { report: Report },
}

/// A save plan as contracts see it.
pub enum SavePlanView {
    Write { path: Seq<char>, contents: Seq<char> },
    Reject { report: ReportView },
}

impl View for SavePlan {
    type V = SavePlanView;

    open spec fn view(&self) -> SavePlanView {
        match self {
            SavePlan::Write { path, contents } => SavePlanView::Write {
                path: path@,
                contents: contents@,
            },
            SavePlan::Reject { report } => SavePlanView::Reject { report: report@ },
        }
    }
}

/// How writing the file went.
#[derive(Clone, Debug, PartialEq, Eq)]
pub enum WriteOutcome {
    Written,
    Failed { cause: String },
}

/// A write outcome as contracts see it.
pub enum WriteOutcomeView {
    Written,
    Failed { cause: Seq<char> },
}

impl View for WriteOutcome {
    type V = WriteOutcomeView;

    open spec fn view(&self) -> WriteOutcomeView {
        match self {
            WriteOutcome::Written => WriteOutcomeView::Written,
            WriteOutcome::Failed { cause } => WriteOutcomeView::Failed { cause: cause@ },
        }
    }
}

/// How reading the file went.
#[derive(Clone, Debug, PartialEq, Eq)]
pub enum ReadOutcome {
    Contents { text: String },
    /// There is no such file.
    Missing,
    /// The file could not be read for another reason.
    Failed { cause: String },
}

/// A read outcome as contracts see it.
pub enum ReadOutcomeView {
    Contents { text: Seq<char> },
    Missing,
    Failed { cause: Seq<char> },
}

impl View for ReadOutcome {
    type V = ReadOutcomeView;

    open spec fn view(&self) -> ReadOutcomeView {
        match self {
            ReadOutcome::Contents { text } => ReadOutcomeView::Contents { text: text@ },
            ReadOutcome::Missing => ReadOutcomeView::Missing,
            ReadOutcome::Failed { cause } => ReadOutcomeView::Failed { cause: cause@ },
        }
    }
}

/// What a load is to do once the file has been read: first remove the
/// objects in `despawn`, each with its descendants, then hand on the
/// requests in `spawn`, in their order.
#[derive(Clone, Debug, PartialEq, Eq)]
pub struct LoadPlan {
    pub despawn: Vec<u64>,
    pub spawn: Vec<SpawnRequest>,
    pub report: Report,
}

/// A load plan as contracts see it.
pub struct LoadPlanView {
    pub despawn: Seq<u64>,
    pub spawn: Seq<SpawnRequestView>,
    pub report: ReportView,
}

impl View for LoadPlan {
    type V = LoadPlanView;

    open spec fn view(&self) -> LoadPlanView {
        LoadPlanView {
            despawn: self.despawn@,
            spawn: self.spawn.deep_view(),
            report: self.report@,
        }
    }
}

/// The plan of a save: the first vacant candidate receives the encoded
/// records of the scene. Where no file can be had, or the records cannot be
/// encoded, nothing is written.
pub open spec fn planned_save(
    name: Seq<char>,
    objects: Seq<ObjectView>,
    probes: Seq<Probe>,
) -> SavePlanView {
    match allocation(name, probes) {
        Ok(path) => match encoded(resolved(objects)) {
            Some(contents) => SavePlanView::Write { path, contents },
            None => SavePlanView::Reject {
                report: ReportView::SaveFailed { name, error: ErrorView::EncodingFailed },
            },
        },
        Err(error) => SavePlanView::Reject { report: ReportView::SaveFailed { name, error } },
    }
}

/// The report of a save whose file was written or failed to be.
pub open spec fn concluded_save(
    name: Seq<char>,
    path: Seq<char>,
    outcome: WriteOutcomeView,
) -> ReportView {
    match outcome {
        WriteOutcomeView::Written => ReportView::SaveSucceeded { name, path },
        WriteOutcomeView::Failed { cause } => ReportView::SaveFailed {
            name,
            error: ErrorView::Io { cause },
        },
    }
}

/// The plan of a load that failed: nothing is removed, nothing is spawned.
pub open spec fn failed_load(name: Seq<char>, error: ErrorView) -> LoadPlanView {
    LoadPlanView {
        despawn: Seq::empty(),
        spawn: Seq::empty(),
        report: ReportView::LoadFailed { name, error },
    }
}

/// The plan of a load, where `live` holds the identifiers of the objects
/// that are tracked now. Only where the file was read and its text decoded
/// are those objects removed, all of them, and the decoded requests spawned.
pub open spec fn planned_load(
    name: Seq<char>,
    live: Seq<u64>,
    outcome: ReadOutcomeView,
) -> LoadPlanView {
    match outcome {
        ReadOutcomeView::Missing => failed_load(name, ErrorView::MissingFile),
        ReadOutcomeView::Failed { cause } => failed_load(name, ErrorView::Io { cause }),
        ReadOutcomeView::Contents { text } => match decoded(text) {
            Some(requests) => LoadPlanView {
                despawn: live,
                spawn: requests,
                report: ReportView::LoadSucceeded { name, path: path_text(name) },
            },
            None => failed_load(name, ErrorView::MalformedData),
        },
    }
}

/// Decides what a save does. `probes` holds what testing the files of
/// [`crate::paths::candidates`] for existence gave, in their order.
pub fn plan_save(request: &SaveRequest, scene: &LiveScene, probes: &Vec<Probe>) -> (plan: SavePlan)
    ensures
        plan@ == planned_save(request.filename@, scene@, probes@),
{
    match allocate(request.filename.as_str(), probes) {
        Ok(path) => {
            let records = resolve(scene);
            match encode(&records) {
                Ok(contents) => SavePlan::Write { path, contents },
                Err(error) => SavePlan::Reject {
                    report: Report::SaveFailed { name: request.filename.clone(), error },
                },
            }
        },
        Err(error) => SavePlan::Reject {
            report: Report::SaveFailed { name: request.filename.clone(), error },
        },
    }
}

/// Reports how a save ended, once the file of its plan was written or
/// failed to be.
pub fn conclude_save(request: &SaveRequest, path: &str, outcome: WriteOutcome) -> (report: Report)
    ensures
        report@ == concluded_save(request.filename@, path@, outcome@),
{
    match outcome {
        WriteOutcome::Written => Report::SaveSucceeded {
            name: request.filename.clone(),
            path: String::from_str(path),
        },
        WriteOutcome::Failed { cause } => Report::SaveFailed {
            name: request.filename.clone(),
            error: PersistenceError::Io { cause },
        },
    }
}

/// The file that a load reads: the one of the requested name itself.
pub fn load_path(request: &LoadRequest) -> (path: String)
    ensures
        path@ == path_text(request.filename@),
{
    scene_path(request.filename.as_str())
}

fn reject_load(request: &LoadRequest, error: PersistenceError) -> (plan: LoadPlan)
    ensures
        plan@ == failed_load(request.filename@, error@),
{
    let plan = LoadPlan {
        despawn: Vec::new(),
        spawn: Vec::new(),
        report: Report::LoadFailed { name: request.filename.clone(), error },
    };
    assert(plan.spawn.deep_view() =~= Seq::empty());
    plan
}

/// Decides what a load does, given the identifiers of the objects that are
/// tracked now and how reading the file of [`load_path`] went.
///
/// The requests are handed on as they were decoded. A request may ask for a
/// parent by a name that no request of the same text bears: what becomes of
/// it is for the spawn mechanism to decide, which resolves the names.
pub fn plan_load(request: &LoadRequest, live: &Vec<u64>, outcome: ReadOutcome) -> (plan: LoadPlan)
    ensures
        plan@ == planned_load(request.filename@, live@, outcome@),
{
    match outcome {
        ReadOutcome::Missing => reject_load(request, PersistenceError::MissingFile),
        ReadOutcome::Failed { cause } => reject_load(request, PersistenceError::Io { cause }),
        ReadOutcome::Contents { text } => match decode(text.as_str()) {
            Ok(requests) => LoadPlan {
                despawn: live.clone(),
                spawn: requests,
                report: Report::LoadSucceeded {
                    name: request.filename.clone(),
                    path: load_path(request),
                },
            },
            Err(error) => reject_load(request, error),
        },
    }
}

} // verus!
