use vstd::prelude::*;

verus! {

/// Which line of the selected section has the keyboard.
#[derive(Clone, Copy, Debug, PartialEq, Eq, Structural)]
pub enum SectionFocus {
    Header,
    Task(usize),
    NewTaskLine,
    Notes,
}

/// One task line.
pub struct Task {
    pub id: usize,
    pub text: String,
}

/// A named list of tasks, with the text typed so far for the next task.
pub struct Section {
    pub name: String,
    pub tasks: Vec<Task>,
    pub new_task_text: String,
}

/// A named list of sections.
pub struct Project {
    pub name: String,
    pub sections: Vec<Section>,
}

/// What is written to disk and read back.
pub struct SaveData {
    pub projects: Vec<Project>,
    pub next_id: usize,
    pub notes: String,
}

#[verifier::ext_equal]
pub struct TaskView {
    pub id: usize,
    pub text: Seq<char>,
}

#[verifier::ext_equal]
pub struct SectionView {
    pub name: Seq<char>,
    pub tasks: Seq<TaskView>,
    pub new_task_text: Seq<char>,
}

#[verifier::ext_equal]
pub struct ProjectView {
    pub name: Seq<char>,
    pub sections: Seq<SectionView>,
}

#[verifier::ext_equal]
pub struct SaveView {
    pub projects: Seq<ProjectView>,
    pub next_id: usize,
    pub notes: Seq<char>,
}

impl View for Task {
    type V = TaskView;

    open spec fn view(&self) -> TaskView {
        TaskView { id: self.id, text: self.text@ }
    }
}

pub open spec fn tasks_view(tasks: Seq<Task>) -> Seq<TaskView> {
    tasks.map_values(|t: Task| t@)
}

impl View for Section {
    type V = SectionView;

    open spec fn view(&self) -> SectionView {
        SectionView {
            name: self.name@,
            tasks: tasks_view(self.tasks@),
            new_task_text: self.new_task_text@,
        }
    }
}

pub open spec fn sections_view(sections: Seq<Section>) -> Seq<SectionView> {
    sections.map_values(|s: Section| s@)
}

impl View for Project {
    type V = ProjectView;

    open spec fn view(&self) -> ProjectView {
        ProjectView { name: self.name@, sections: sections_view(self.sections@) }
    }
}

pub open spec fn projects_view(projects: Seq<Project>) -> Seq<ProjectView> {
    projects.map_values(|p: Project| p@)
}

impl View for SaveData {
    type V = SaveView;

    open spec fn view(&self) -> SaveView {
        SaveView { projects: projects_view(self.projects@), next_id: self.next_id, notes: self.notes@ }
    }
}

/// A section named `name` with no tasks and an empty new-task line.
pub open spec fn blank_section(name: Seq<char>) -> SectionView {
    SectionView { name: name, tasks: Seq::empty(), new_task_text: Seq::empty() }
}

impl SectionView {
    pub open spec fn with_tasks(self, tasks: Seq<TaskView>) -> SectionView {
        SectionView { name: self.name, tasks: tasks, new_task_text: self.new_task_text }
    }
}

impl ProjectView {
    pub open spec fn with_tasks(self, s: int, tasks: Seq<TaskView>) -> ProjectView {
        ProjectView {
            name: self.name,
            sections: self.sections.update(s, self.sections[s].with_tasks(tasks)),
        }
    }
}

impl Task {
    /// A task with id `id` and text `text`.
    pub fn new(id: usize, text: &str) -> (r: Task)
        ensures
            r@ == (TaskView { id: id, text: text@ }),
    {
        Task { id, text: text.to_owned() }
    }

    /// A copy of the task.
    pub fn duplicate(&self) -> (r: Task)
        ensures
            r@ == self@,
    {
        Task { id: self.id, text: self.text.clone() }
    }
}

impl Section {
    /// A copy of the section.
    pub fn duplicate(&self) -> (r: Section)
        ensures
            r@ == self@,
    {
        let mut tasks: Vec<Task> = Vec::new();
        let n = self.tasks.len();
        let mut i: usize = 0;
        while i < n
            invariant
                n == self.tasks@.len(),
                i <= n,
                tasks_view(tasks@) =~= tasks_view(self.tasks@).take(i as int),
            decreases n - i,
        {
            let t = self.tasks[i].duplicate();
            let ghost before = tasks@;
            tasks.push(t);
            assert(tasks_view(tasks@) =~= tasks_view(before).push(self.tasks[i as int]@));
            i = i + 1;
            assert(tasks_view(tasks@) =~= tasks_view(self.tasks@).take(i as int));
        }
        assert(tasks_view(self.tasks@).take(n as int) =~= tasks_view(self.tasks@));
        Section { name: self.name.clone(), tasks, new_task_text: self.new_task_text.clone() }
    }

    /// A section named `name` holding `tasks`, with an empty new-task line.
    pub fn with_tasks_named(name: &str, tasks: Vec<Task>) -> (r: Section)
        ensures
            r@ == (SectionView { name: name@, tasks: tasks_view(tasks@), new_task_text: Seq::empty() }),
    {
        Section { name: name.to_owned(), tasks, new_task_text: String::new() }
    }

    /// A section named `name` with no tasks and an empty new-task line.
    pub fn blank(name: &str) -> (r: Section)
        ensures
            r@ == blank_section(name@),
    {
        let r = Section { name: name.to_owned(), tasks: Vec::new(), new_task_text: String::new() };
        assert(r@.tasks =~= Seq::<TaskView>::empty());
        r
    }

    /// Takes the task at `idx` out of the section.
    pub fn remove_task(&mut self, idx: usize) -> (r: Task)
        requires
            idx < old(self).tasks@.len(),
        ensures
            r@ == old(self)@.tasks[idx as int],
            final(self)@ == old(self)@.with_tasks(old(self)@.tasks.remove(idx as int)),
    {
        let r = self.tasks.remove(idx);
        assert(tasks_view(self.tasks@) =~= tasks_view(old(self).tasks@).remove(idx as int));
        r
    }

    /// Appends a task at the end of the section.
    pub fn push_task(&mut self, t: Task)
        ensures
            final(self)@ == old(self)@.with_tasks(old(self)@.tasks.push(t@)),
    {
        self.tasks.push(t);
        assert(tasks_view(self.tasks@) =~= tasks_view(old(self).tasks@).push(t@));
    }
}

impl Project {
    /// A copy of the project.
    pub fn duplicate(&self) -> (r: Project)
        ensures
            r@ == self@,
    {
        let mut sections: Vec<Section> = Vec::new();
        let n = self.sections.len();
        let mut i: usize = 0;
        while i < n
            invariant
                n == self.sections@.len(),
                i <= n,
                sections_view(sections@) =~= sections_view(self.sections@).take(i as int),
            decreases n - i,
        {
            let c = self.sections[i].duplicate();
            let ghost before = sections@;
            sections.push(c);
            assert(sections_view(sections@) =~= sections_view(before).push(self.sections[i as int]@));
            i = i + 1;
            assert(sections_view(sections@) =~= sections_view(self.sections@).take(i as int));
        }
        assert(sections_view(self.sections@).take(n as int) =~= sections_view(self.sections@));
        Project { name: self.name.clone(), sections }
    }

    /// Takes the task at `idx` of section `s` out of the project.
    pub fn remove_task(&mut self, s: usize, idx: usize) -> (r: Task)
        requires
            s < old(self).sections@.len(),
            idx < old(self)@.sections[s as int].tasks.len(),
        ensures
            r@ == old(self)@.sections[s as int].tasks[idx as int],
            final(self)@ == old(self)@.with_tasks(
                s as int,
                old(self)@.sections[s as int].tasks.remove(idx as int),
            ),
    {
        let r = self.sections[s].remove_task(idx);
        assert(sections_view(self.sections@) =~= old(self)@.with_tasks(
            s as int,
            old(self)@.sections[s as int].tasks.remove(idx as int),
        ).sections);
        r
    }

    /// Appends a task at the end of section `s`.
    pub fn push_task(&mut self, s: usize, t: Task)
        requires
            s < old(self).sections@.len(),
        ensures
            final(self)@ == old(self)@.with_tasks(
                s as int,
                old(self)@.sections[s as int].tasks.push(t@),
            ),
    {
        let ghost tv = t@;
        self.sections[s].push_task(t);
        assert(sections_view(self.sections@) =~= old(self)@.with_tasks(
            s as int,
            old(self)@.sections[s as int].tasks.push(tv),
        ).sections);
    }
}

/// A copy of every project of `projects`, in order.
pub fn duplicate_projects(projects: &Vec<Project>) -> (r: Vec<Project>)
    ensures
        projects_view(r@) == projects_view(projects@),
{
    let mut out: Vec<Project> = Vec::new();
    let n = projects.len();
    let mut i: usize = 0;
    while i < n
        invariant
            n == projects@.len(),
            i <= n,
            projects_view(out@) =~= projects_view(projects@).take(i as int),
        decreases n - i,
    {
        let c = projects[i].duplicate();
        let ghost before = out@;
        out.push(c);
        assert(projects_view(out@) =~= projects_view(before).push(projects[i as int]@));
        i = i + 1;
        assert(projects_view(out@) =~= projects_view(projects@).take(i as int));
    }
    assert(projects_view(projects@).take(n as int) =~= projects_view(projects@));
    out
}

} // verus!
