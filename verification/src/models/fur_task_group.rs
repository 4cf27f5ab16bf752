use vstd::prelude::*;
use crate::helpers::text::{lowercase, spec_lowercase};
use crate::models::fur_task::FurTask;
use crate::models::rate::Rate;
use crate::models::record::SyncedRecord;

verus! {

/// Tasks of one day that are the same piece of work: same name, tags,
/// project and rate.
#[derive(Debug)]
pub struct FurTaskGroup {
    pub uid: String,
    pub name: String,
    pub tags: String,
    pub project: String,
    pub rate: Rate,
    pub total_time: i64,
    pub tasks: Vec<FurTask>,
}

/// `a + b`, held to the range of an `i64`.
pub open spec fn clamped_sum(a: int, b: int) -> int {
    if a + b > i64::MAX {
        i64::MAX as int
    } else if a + b < i64::MIN {
        i64::MIN as int
    } else {
        a + b
    }
}

/// Adds two numbers of seconds without leaving the range of an `i64`.
pub fn add_clamped(a: i64, b: i64) -> (sum: i64)
    ensures
        sum == clamped_sum(a as int, b as int),
{
    let wide: i128 = a as i128 + b as i128;
    if wide > i64::MAX as i128 {
        i64::MAX
    } else if wide < i64::MIN as i128 {
        i64::MIN
    } else {
        wide as i64
    }
}

/// The seconds that a task lasted.
pub open spec fn duration(task: FurTask) -> int {
    task.stop_time.spec_span(task.start_time)
}

/// Whether a task belongs to a group with this name, tags, project and
/// rate: names and tags agree exactly, projects without regard to case, and
/// rates as numbers.
pub open spec fn belongs(
    name: Seq<char>,
    tags: Seq<char>,
    project: Seq<char>,
    rate: Rate,
    task: FurTask,
) -> bool {
    &&& name == task.name@
    &&& tags == task.tags@
    &&& spec_lowercase(project) == spec_lowercase(task.project@)
    &&& rate.spec_same(task.rate)
}

impl FurTaskGroup {
    /// A group of one task: it takes the task's identifier, name, tags,
    /// project and rate, and the task's duration as its total.
    pub fn new_from(task: FurTask) -> (group: FurTaskGroup)
        ensures
            group.uid == task.uid,
            group.name == task.name,
            group.tags == task.tags,
            group.project == task.project,
            group.rate == task.rate,
            group.total_time == duration(task),
            group.tasks@ == seq![task],
    {
        let total_time = task.stop_time.span(&task.start_time);
        let mut tasks: Vec<FurTask> = Vec::new();
        let uid = task.uid.clone();
        let name = task.name.clone();
        let tags = task.tags.clone();
        let project = task.project.clone();
        let rate = task.rate;
        tasks.push(task);
        FurTaskGroup { uid, name, tags, project, rate, total_time, tasks }
    }

    /// Adds a task to the group: its duration goes into the total, which
    /// stays within the range of an `i64`.
    pub fn add(&mut self, task: FurTask)
        ensures
            final(self).tasks@ == old(self).tasks@.push(task),
            final(self).total_time == clamped_sum(old(self).total_time as int, duration(task)),
            final(self).uid == old(self).uid,
            final(self).name == old(self).name,
            final(self).tags == old(self).tags,
            final(self).project == old(self).project,
            final(self).rate == old(self).rate,
    {
        let seconds = task.stop_time.span(&task.start_time);
        self.total_time = add_clamped(self.total_time, seconds);
        self.tasks.push(task);
    }

    /// Whether a task belongs to this group.
    pub fn is_equal_to(&self, task: &FurTask) -> (equal: bool)
        ensures
            equal == belongs(self.name@, self.tags@, self.project@, self.rate, *task),
    {
        self.name == task.name && self.tags == task.tags && lowercase(self.project.as_str())
            == lowercase(task.project.as_str()) && self.rate.same(&task.rate)
    }

    /// The identifiers of the group's tasks, in the group's order.
    pub fn all_task_ids(&self) -> (ids: Vec<String>)
        ensures
            ids@.len() == self.tasks@.len(),
            forall|i: int| 0 <= i < ids@.len() ==> (#[trigger] ids@[i])@ == self.tasks@[i].uid@,
    {
        let mut ids: Vec<String> = Vec::new();
        let n = self.tasks.len();
        let mut i: usize = 0;
        while i < n
            invariant
                n == self.tasks@.len(),
                i <= n,
                ids@.len() == i,
                forall|j: int| 0 <= j < i ==> (#[trigger] ids@[j])@ == self.tasks@[j].uid@,
            decreases n - i,
        {
            ids.push(self.tasks[i].uid().clone());
            i += 1;
        }
        ids
    }
}

/// A piece of work as a line of text: the name, then the project after
/// ` @`, the tags after ` #` and the rate after ` $`, each only where there
/// is one.
pub open spec fn spec_work_line(
    name: Seq<char>,
    project: Seq<char>,
    tags: Seq<char>,
    rate: Rate,
    rate_text: Seq<char>,
) -> Seq<char> {
    name + (if project.len() > 0 {
        " @"@ + project
    } else {
        Seq::<char>::empty()
    }) + (if tags.len() > 0 {
        " #"@ + tags
    } else {
        Seq::<char>::empty()
    }) + (if !rate.spec_is_zero() {
        " $"@ + rate_text
    } else {
        Seq::<char>::empty()
    })
}

/// Writes a piece of work as a line of text. `rate_text` is the rate as it
/// is written with two decimals.
pub fn work_line(name: &str, project: &str, tags: &str, rate: &Rate, rate_text: &str) -> (line:
    String)
    ensures
        line@ == spec_work_line(name@, project@, tags@, *rate, rate_text@),
{
    let mut line = String::from_str(name);
    if project.unicode_len() > 0 {
        line.append(" @");
        line.append(project);
    }
    if tags.unicode_len() > 0 {
        line.append(" #");
        line.append(tags);
    }
    if !rate.is_zero() {
        line.append(" $");
        line.append(rate_text);
    }
    assert(line@ =~= spec_work_line(name@, project@, tags@, *rate, rate_text@));
    line
}

impl FurTaskGroup {
    /// The group as a line of text.
    pub fn to_string(&self, rate_text: &str) -> (line: String)
        ensures
            line@ == spec_work_line(self.name@, self.project@, self.tags@, self.rate, rate_text@),
    {
        work_line(
            self.name.as_str(),
            self.project.as_str(),
            self.tags.as_str(),
            &self.rate,
            rate_text,
        )
    }
}

} // verus!
