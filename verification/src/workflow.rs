use vstd::prelude::*;

verus! {

/// Progress is measured in millionths of completion: `0` is not started,
/// `PROGRESS_SCALE` is fully done.
pub const PROGRESS_SCALE: u32 = 1_000_000;

/// Lifecycle tag of a workflow.
#[derive(Clone, Copy, Debug, PartialEq, Eq, Structural)]
pub enum Status {
    Created,
    Running,
    Completed,
    Failed,
}

impl Status {
    /// The display label of this status, as the front end shows it.
    pub open spec fn label_spec(self) -> Seq<char> {
        match self {
            Status::Created => "created"@,
            Status::Running => "running"@,
            Status::Completed => "completed"@,
            Status::Failed => "failed"@,
        }
    }

    pub fn label(&self) -> (r: String)
        ensures
            r@ == self.label_spec(),
    {
        match self {
            Status::Created => "created".to_owned(),
            Status::Running => "running".to_owned(),
            Status::Completed => "completed".to_owned(),
            Status::Failed => "failed".to_owned(),
        }
    }
}

/// A tracked unit of work: identifier, display name, lifecycle status,
/// scaled progress, and the ordered labels of its planned steps.
#[derive(Debug)]
pub struct Workflow {
    pub id: String,
    pub name: String,
    pub status: Status,
    pub progress: u32,
    pub steps: Vec<String>,
}

/// The mathematical content of a workflow record.
pub ghost struct WorkflowView {
    pub id: Seq<char>,
    pub name: Seq<char>,
    pub status: Status,
    pub progress: int,
    pub steps: Seq<Seq<char>>,
}

impl View for Workflow {
    type V = WorkflowView;

    open spec fn view(&self) -> WorkflowView {
        WorkflowView {
            id: self.id@,
            name: self.name@,
            status: self.status,
            progress: self.progress as int,
            steps: self.steps.deep_view(),
        }
    }
}

impl WorkflowView {
    /// The progress field stays inside the scaled unit interval.
    pub open spec fn valid(self) -> bool {
        0 <= self.progress <= PROGRESS_SCALE
    }

    /// The same record with a new progress value and status.
    pub open spec fn with_progress(self, progress: int, status: Status) -> WorkflowView {
        WorkflowView { progress, status, ..self }
    }
}

impl Clone for Workflow {
    fn clone(&self) -> (r: Self)
        ensures
            r@ == self@,
    {
        let steps = self.steps.clone();
        proof {
            assert forall|i: int| 0 <= i < self.steps@.len() implies steps.deep_view()[i]
                == self.steps.deep_view()[i] by {
                assert(cloned::<String>(self.steps@[i], steps@[i]));
            }
            assert(steps.deep_view() =~= self.steps.deep_view());
        }
        Workflow {
            id: self.id.clone(),
            name: self.name.clone(),
            status: self.status,
            progress: self.progress,
            steps,
        }
    }
}

} // verus!
