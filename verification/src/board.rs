use vstd::prelude::*;
use crate::laws::lemma_with_tasks_shape;
use crate::text::{decimal, trim_str, trimmed, with_number};
use crate::model::{blank_section, duplicate_projects, projects_view, sections_view, tasks_view, Project, ProjectView, SaveData, SaveView, Section, SectionFocus, SectionView, Task, TaskView};

verus! {

/// The whole board together with what is selected on it.
pub struct TaskApp {
    pub projects: Vec<Project>,
    pub selected_project: usize,
    pub next_id: usize,
    pub selected_section: usize,
    pub focus: SectionFocus,
    pub notes: String,
    pub notes_header: String,
}

/// The keys of one frame that the board reacts to.
pub struct KeyInput {
    pub ctrl: bool,
    pub arrow_up: bool,
    pub arrow_down: bool,
    pub arrow_left: bool,
    pub arrow_right: bool,
    pub delete: bool,
    pub f2: bool,
}

/// What a frame notes of the board before it handles keys.
#[derive(Clone, Copy)]
pub struct FrameInfo {
    pub sec_count: usize,
    pub current_sec: usize,
    pub current_tasks_len: usize,
}

/// The project that the "+" tab adds when the board has `count` projects.
pub open spec fn added_project(count: nat) -> ProjectView {
    ProjectView {
        name: "project-"@ + decimal(count + 1),
        sections: seq![
            blank_section("pending-"@),
            blank_section("improvements to do-"@),
            blank_section("bugs-"@),
            blank_section("pushed updates-"@),
        ],
    }
}

/// The project that the welcome screen creates.
pub open spec fn first_project() -> ProjectView {
    ProjectView {
        name: "Project-1"@,
        sections: seq![blank_section("pending-"@), blank_section("bugs-"@)],
    }
}

/// The board a session starts on: projects, next id and notes as given,
/// the first project and its first section selected, focused on that
/// section's first task, or on the new-task line when there is none.
pub open spec fn opened(projects: Seq<ProjectView>, next_id: usize, notes: Seq<char>) -> AppView {
    let focus = if projects.len() > 0 && projects[0].sections.len() > 0
        && projects[0].sections[0].tasks.len() > 0 {
        SectionFocus::Task(0)
    } else {
        SectionFocus::NewTaskLine
    };
    AppView {
        projects: projects,
        selected_project: 0,
        next_id: next_id,
        selected_section: 0,
        focus: focus,
        notes: notes,
        notes_header: "notes-"@,
    }
}

/// What is saved of a board.
pub open spec fn saved(m: AppView) -> SaveView {
    SaveView { projects: m.projects, next_id: m.next_id, notes: m.notes }
}

pub open spec fn sample_task(id: usize, text: Seq<char>) -> TaskView {
    TaskView { id: id, text: text }
}

pub open spec fn sample_section(name: Seq<char>, tasks: Seq<TaskView>) -> SectionView {
    SectionView { name: name, tasks: tasks, new_task_text: Seq::empty() }
}

/// The board's contents when nothing was saved before.
pub open spec fn sample_projects() -> Seq<ProjectView> {
    seq![
        ProjectView {
            name: "project-1"@,
            sections: seq![
                sample_section(
                    "pending-"@,
                    seq![
                        sample_task(1, "private lobby?"@),
                        sample_task(2, "invite email"@),
                        sample_task(3, "seat change option"@),
                    ],
                ),
                sample_section(
                    "improvements to do-"@,
                    seq![
                        sample_task(4, "control panel orientation on hand after loose app focus"@),
                        sample_task(5, "hand gestures"@),
                    ],
                ),
                sample_section(
                    "bugs-"@,
                    seq![sample_task(6, "control panel on controller changes orientation"@)],
                ),
                sample_section(
                    "pushed updates for testing-"@,
                    seq![
                        sample_task(7, "fullscreen annotation for sphere"@),
                        sample_task(8, "annotation panel position for all theatres"@),
                        sample_task(9, "sphere screen integration"@),
                        sample_task(10, "change theatre"@),
                    ],
                ),
            ],
        },
    ]
}

/// What the tab row reported this frame: a tab clicked, a tab's close mark
/// clicked, the "+" tab clicked.
pub struct TabEvents {
    pub select: Option<usize>,
    pub close: Option<usize>,
    pub add: bool,
}

/// What the sections reported this frame: Enter on the selected section's
/// header, Enter on the new-task line of a section.
pub struct EditEvents {
    pub header_enter: bool,
    pub submit: Option<usize>,
}

/// Everything one frame reports: the welcome screen's button (when there is
/// no project), the keys, the tab row and the sections.
pub struct FrameEvents {
    pub create: bool,
    pub keys: KeyInput,
    pub tabs: TabEvents,
    pub edits: EditEvents,
}

#[verifier::ext_equal]
pub struct AppView {
    pub projects: Seq<ProjectView>,
    pub selected_project: usize,
    pub next_id: usize,
    pub selected_section: usize,
    pub focus: SectionFocus,
    pub notes: Seq<char>,
    pub notes_header: Seq<char>,
}

impl View for TaskApp {
    type V = AppView;

    open spec fn view(&self) -> AppView {
        AppView {
            projects: projects_view(self.projects@),
            selected_project: self.selected_project,
            next_id: self.next_id,
            selected_section: self.selected_section,
            focus: self.focus,
            notes: self.notes@,
            notes_header: self.notes_header@,
        }
    }
}

impl AppView {
    /// Number of sections of project `p`.
    pub open spec fn section_count(self, p: int) -> int {
        self.projects[p].sections.len() as int
    }

    /// The tasks of section `s` of project `p`.
    pub open spec fn tasks_of(self, p: int, s: int) -> Seq<TaskView> {
        self.projects[p].sections[s].tasks
    }

    /// The board with the tasks of section `s` of project `p` replaced.
    pub open spec fn with_tasks(self, p: int, s: int, tasks: Seq<TaskView>) -> AppView {
        AppView { projects: self.projects.update(p, self.projects[p].with_tasks(s, tasks)), ..self }
    }

    pub open spec fn with_selection(self, s: usize, focus: SectionFocus) -> AppView {
        AppView { selected_section: s, focus: focus, ..self }
    }

    pub open spec fn with_focus(self, focus: SectionFocus) -> AppView {
        AppView { focus: focus, ..self }
    }

    /// Same projects with the same numbers of sections, and the same project selected.
    pub open spec fn same_shape(self, other: AppView) -> bool {
        &&& self.projects.len() == other.projects.len()
        &&& forall|q: int| 0 <= q < self.projects.len() ==> #[trigger] self.section_count(q) == other.section_count(q)
        &&& self.selected_project == other.selected_project
    }

    /// Every project has a section.
    pub open spec fn sections_present(self) -> bool {
        forall|p: int| 0 <= p < self.projects.len() ==> #[trigger] self.section_count(p) > 0
    }

    /// Every project has a section, and the selected project exists when any does.
    pub open spec fn valid(self) -> bool {
        &&& self.sections_present()
        &&& self.projects.len() > 0 ==> self.selected_project < self.projects.len()
    }

    /// A project and one of its sections are selected.
    pub open spec fn selection_ok(self) -> bool {
        &&& self.selected_project < self.projects.len()
        &&& self.selected_section < self.section_count(self.selected_project as int)
    }

    /// Valid, with a project and a section selected.
    pub open spec fn settled(self) -> bool {
        &&& self.valid()
        &&& self.selection_ok()
    }

    /// The board after moving the focused task to the end of section `target`.
    pub open spec fn moved_to_section(self, target: usize) -> AppView {
        let p = self.selected_project as int;
        let from = self.selected_section as int;
        if target >= self.section_count(p) {
            self
        } else {
            match self.focus {
                SectionFocus::Task(idx) => {
                    if from == target || idx >= self.tasks_of(p, from).len() {
                        self
                    } else {
                        let task = self.tasks_of(p, from)[idx as int];
                        let new_idx = self.tasks_of(p, target as int).len();
                        self.with_tasks(p, from, self.tasks_of(p, from).remove(idx as int))
                            .with_tasks(p, target as int, self.tasks_of(p, target as int).push(task))
                            .with_selection(target, SectionFocus::Task(new_idx as usize))
                    }
                },
                _ => self,
            }
        }
    }

    /// The project that a new frame starts on: the selected one, or the first
    /// when the selection points past the last project.
    pub open spec fn frame_project(self) -> usize {
        if self.selected_project >= self.projects.len() {
            0
        } else {
            self.selected_project
        }
    }

    /// The board at the start of a frame: the selected project brought back
    /// onto the board, the selected section onto the project's last one at most.
    pub open spec fn clamped(self) -> AppView {
        let p = self.frame_project();
        let count = self.section_count(p as int);
        AppView {
            selected_project: p,
            selected_section: if self.selected_section < count {
                self.selected_section
            } else {
                (count - 1) as usize
            },
            ..self
        }
    }

    /// The focus that entering section `s` of project `p` from the top gives:
    /// its first task, or the new-task line when it has none.
    pub open spec fn entry_focus(self, p: int, s: int) -> SectionFocus {
        if self.tasks_of(p, s).len() > 0 {
            SectionFocus::Task(0)
        } else {
            SectionFocus::NewTaskLine
        }
    }

    /// The section above `s` among `count` sections, the last one above the first.
    pub open spec fn section_above(s: usize, count: usize) -> usize {
        if s == 0 {
            (count - 1) as usize
        } else {
            (s - 1) as usize
        }
    }

    /// The section below `s` among `count` sections, the first one below the last.
    pub open spec fn section_below(s: usize, count: usize) -> usize {
        if s + 1 >= count {
            0
        } else {
            (s + 1) as usize
        }
    }

    /// The board after an unmodified up arrow, given the frame's snapshot.
    pub open spec fn arrow_up_view(self, f: FrameInfo) -> (AppView, bool) {
        let up_section = if f.current_sec > 0 {
            (self.selected_section - 1) as usize
        } else {
            (f.sec_count - 1) as usize
        };
        match self.focus {
            SectionFocus::Task(idx) => {
                if idx > 0 {
                    (self.with_focus(SectionFocus::Task((idx - 1) as usize)), true)
                } else {
                    (self.with_selection(up_section, SectionFocus::NewTaskLine), true)
                }
            },
            SectionFocus::NewTaskLine => {
                if f.current_tasks_len > 0 {
                    (self.with_focus(SectionFocus::Task((f.current_tasks_len - 1) as usize)), true)
                } else {
                    (self.with_selection(up_section, SectionFocus::NewTaskLine), true)
                }
            },
            _ => (self, false),
        }
    }

    /// What an unmodified down arrow needs of the board to be defined.
    pub open spec fn arrow_down_defined(self, f: FrameInfo) -> bool {
        &&& self.selected_project < self.projects.len()
        &&& self.focus matches SectionFocus::Task(idx) ==> idx < usize::MAX
        &&& self.focus is NewTaskLine ==> (if f.current_sec + 1 < f.sec_count {
            self.selected_section + 1 < self.section_count(self.selected_project as int)
        } else {
            self.section_count(self.selected_project as int) > 0
        })
    }

    /// What an unmodified up arrow needs of the board to be defined.
    pub open spec fn arrow_up_defined(self, f: FrameInfo) -> bool {
        let leaves = match self.focus {
            SectionFocus::Task(idx) => idx == 0,
            SectionFocus::NewTaskLine => f.current_tasks_len == 0,
            _ => false,
        };
        leaves ==> (if f.current_sec > 0 { self.selected_section > 0 } else { f.sec_count > 0 })
    }

    /// The board after an unmodified down arrow, given the frame's snapshot.
    pub open spec fn arrow_down_view(self, f: FrameInfo) -> (AppView, bool) {
        let p = self.selected_project as int;
        match self.focus {
            SectionFocus::Task(idx) => {
                if idx + 1 < f.current_tasks_len {
                    (self.with_focus(SectionFocus::Task((idx + 1) as usize)), false)
                } else {
                    (self.with_focus(SectionFocus::NewTaskLine), false)
                }
            },
            SectionFocus::NewTaskLine => {
                let s = if f.current_sec + 1 < f.sec_count {
                    (self.selected_section + 1) as usize
                } else {
                    0
                };
                (self.with_selection(s, self.entry_focus(p, s as int)), true)
            },
            _ => (self, false),
        }
    }

    /// The frame's snapshot of a clamped board.
    pub open spec fn frame_info(self) -> FrameInfo {
        let p = self.selected_project as int;
        FrameInfo {
            sec_count: self.section_count(p) as usize,
            current_sec: self.selected_section,
            current_tasks_len: self.tasks_of(p, self.selected_section as int).len() as usize,
        }
    }

    /// The board after the keys of one frame, and whether the keyboard focus
    /// of the text fields is to be dropped.
    pub open spec fn after_keys(self, k: KeyInput) -> (AppView, bool) {
        let m0 = self.clamped();
        let f = m0.frame_info();
        if k.ctrl {
            let m1 = if k.arrow_up {
                m0.moved_to_section(Self::section_above(m0.selected_section, f.sec_count))
            } else {
                m0
            };
            let m2 = if k.arrow_down {
                m1.moved_to_section(Self::section_below(m1.selected_section, f.sec_count))
            } else {
                m1
            };
            let m3 = if k.arrow_left { m2.with_focus(SectionFocus::Notes) } else { m2 };
            let m4 = if k.arrow_right { m3.with_focus(SectionFocus::NewTaskLine) } else { m3 };
            (m4, k.arrow_up || k.arrow_down)
        } else {
            let (m1, c1) = if k.arrow_up { m0.arrow_up_view(f) } else { (m0, false) };
            let (m2, c2) = if k.arrow_down { m1.arrow_down_view(f) } else { (m1, false) };
            let m3 = if k.delete { m2.deleted_selected() } else { m2 };
            let m4 = if k.f2 { m3.with_focus(SectionFocus::Header) } else { m3 };
            (m4, c1 || c2)
        }
    }

    /// What the keys of one frame need of the board to be defined: a project
    /// to show, a section in the project the frame starts on, and no down
    /// arrow that would leave the project's sections after an up arrow or
    /// step past the largest task index.
    pub open spec fn keys_defined(self, k: KeyInput) -> bool {
        let m0 = self.clamped();
        let f = m0.frame_info();
        &&& self.projects.len() > 0
        &&& self.section_count(self.frame_project() as int) > 0
        &&& (!k.ctrl && k.arrow_down) ==> (if k.arrow_up {
            m0.arrow_up_view(f).0
        } else {
            m0
        }).arrow_down_defined(f)
    }

    /// The board after the tab of project `i` is clicked.
    pub open spec fn selected_project_view(self, i: usize) -> AppView {
        AppView {
            selected_project: i,
            selected_section: 0,
            focus: self.entry_focus(i as int, 0),
            ..self
        }
    }

    /// The board after project `i` is closed, and whether no project is left.
    pub open spec fn deleted_project_view(self, i: usize) -> (AppView, bool) {
        let rest = self.projects.remove(i as int);
        if rest.len() == 0 {
            (AppView { projects: rest, ..self }, true)
        } else if self.selected_project >= rest.len() {
            (
                AppView {
                    projects: rest,
                    selected_project: (rest.len() - 1) as usize,
                    selected_section: 0,
                    focus: SectionFocus::NewTaskLine,
                    ..self
                },
                false,
            )
        } else {
            (AppView { projects: rest, ..self }, false)
        }
    }

    /// The board with project `project` added last and selected, on its
    /// first section's new-task line.
    pub open spec fn added_project_view(self, project: ProjectView) -> AppView {
        AppView {
            projects: self.projects.push(project),
            selected_project: self.projects.len() as usize,
            selected_section: 0,
            focus: SectionFocus::NewTaskLine,
            ..self
        }
    }

    /// The board after Enter on the header of the selected section.
    pub open spec fn confirmed_header_view(self) -> AppView {
        self.with_focus(self.entry_focus(self.selected_project as int, self.selected_section as int))
    }

    /// When the focus is on a task, that task exists in the selected section.
    pub open spec fn focus_ok(self) -> bool {
        self.focus matches SectionFocus::Task(i) ==> i < self.tasks_of(
            self.selected_project as int,
            self.selected_section as int,
        ).len()
    }

    /// The board after the text `text` is entered on the new-task line of
    /// section `s`: nothing when the text is empty, otherwise a task with the
    /// next id and that text at the end of the section, the line cleared, and
    /// the focus on the new task when `s` is the selected section.
    pub open spec fn recorded_task_view(self, s: usize, text: Seq<char>) -> AppView {
        let p = self.selected_project as int;
        if text.len() == 0 {
            self
        } else {
            let sec = self.projects[p].sections[s as int];
            let new_sec = SectionView {
                name: sec.name,
                tasks: sec.tasks.push(TaskView { id: self.next_id, text: text }),
                new_task_text: Seq::empty(),
            };
            let proj = self.projects[p];
            AppView {
                projects: self.projects.update(
                    p,
                    ProjectView { name: proj.name, sections: proj.sections.update(s as int, new_sec) },
                ),
                next_id: (self.next_id + 1) as usize,
                focus: if s == self.selected_section {
                    SectionFocus::Task(sec.tasks.len() as usize)
                } else {
                    self.focus
                },
                ..self
            }
        }
    }

    /// The board after the tab row's events, and whether the last project was
    /// closed (the rest of the frame is then skipped).
    pub open spec fn after_tabs(self, t: TabEvents) -> (AppView, bool) {
        let m1 = match t.select {
            Some(i) => self.selected_project_view(i),
            None => self,
        };
        let (m2, gone) = match t.close {
            Some(i) => m1.deleted_project_view(i),
            None => (m1, false),
        };
        if gone {
            (m2, true)
        } else if t.add {
            (m2.added_project_view(added_project(m2.projects.len())), false)
        } else {
            (m2, false)
        }
    }

    /// What the tab row's events need of the board: a clicked tab names a
    /// project with a section, a closed tab names a project, and "+" finds
    /// room for one more project.
    pub open spec fn tabs_defined(self, t: TabEvents) -> bool {
        let m1 = match t.select {
            Some(i) => self.selected_project_view(i),
            None => self,
        };
        let (m2, gone) = match t.close {
            Some(i) => m1.deleted_project_view(i),
            None => (m1, false),
        };
        &&& t.select matches Some(i) ==> i < self.projects.len() && self.section_count(i as int) > 0
        &&& t.close matches Some(i) ==> i < m1.projects.len()
        &&& (t.add && !gone) ==> m2.projects.len() < usize::MAX
    }

    /// The board after the sections' events. They come in the order the
    /// sections are drawn: Enter on a new-task line above the selected
    /// section comes before Enter on its header, any other after it.
    pub open spec fn after_edits(self, e: EditEvents) -> AppView {
        let submit_first = e.submit matches Some(s) && s < self.selected_section;
        if submit_first {
            let a = self.submitted_view(e.submit->Some_0);
            if e.header_enter { a.confirmed_header_view() } else { a }
        } else {
            let a = if e.header_enter { self.confirmed_header_view() } else { self };
            match e.submit {
                Some(s) => a.submitted_view(s),
                None => a,
            }
        }
    }

    /// What the sections' events need of the board: a selected section for
    /// a header, an existing section for a new-task line, and room for one
    /// more id when its trimmed text is not empty.
    pub open spec fn edits_defined(self, e: EditEvents) -> bool {
        &&& e.header_enter ==> self.selection_ok()
        &&& e.submit matches Some(s) ==> {
            &&& self.selected_project < self.projects.len()
            &&& s < self.section_count(self.selected_project as int)
            &&& trimmed(self.draft_of(s)).len() > 0 ==> self.next_id < usize::MAX
        }
    }

    /// The board after one whole frame, and whether the text fields lose the
    /// keyboard. With no project, only the welcome screen's button acts.
    /// Otherwise the keys act, then the tab row, then (unless the last
    /// project was closed) the sections.
    pub open spec fn after_frame(self, ev: FrameEvents) -> (AppView, bool) {
        if self.projects.len() == 0 {
            if ev.create {
                (self.added_project_view(first_project()), false)
            } else {
                (self, false)
            }
        } else {
            let (m1, clear) = self.after_keys(ev.keys);
            let (m2, gone) = m1.after_tabs(ev.tabs);
            if gone {
                (m2, clear)
            } else {
                (m2.after_edits(ev.edits), clear)
            }
        }
    }

    /// What one whole frame needs of the board (see `after_frame`).
    pub open spec fn frame_defined(self, ev: FrameEvents) -> bool {
        self.projects.len() > 0 ==> {
            let m1 = self.after_keys(ev.keys).0;
            let (m2, gone) = m1.after_tabs(ev.tabs);
            &&& self.keys_defined(ev.keys)
            &&& m1.tabs_defined(ev.tabs)
            &&& !gone ==> m2.edits_defined(ev.edits)
        }
    }

    /// What is typed on the new-task line of section `s` of the selected project.
    pub open spec fn draft_of(self, s: usize) -> Seq<char> {
        self.projects[self.selected_project as int].sections[s as int].new_task_text
    }

    /// The board after Enter on the new-task line of section `s`: its text,
    /// trimmed of white space, entered (see `recorded_task_view`).
    pub open spec fn submitted_view(self, s: usize) -> AppView {
        self.recorded_task_view(s, trimmed(self.draft_of(s)))
    }

    /// The board after deleting the focused task.
    pub open spec fn deleted_selected(self) -> AppView {
        let p = self.selected_project as int;
        let s = self.selected_section as int;
        if s >= self.section_count(p) {
            self
        } else {
            match self.focus {
                SectionFocus::Task(idx) => {
                    if idx >= self.tasks_of(p, s).len() {
                        self
                    } else {
                        let rest = self.tasks_of(p, s).remove(idx as int);
                        let focus = if rest.len() == 0 {
                            SectionFocus::NewTaskLine
                        } else if idx < rest.len() {
                            SectionFocus::Task(idx)
                        } else {
                            SectionFocus::Task((rest.len() - 1) as usize)
                        };
                        self.with_tasks(p, s, rest).with_focus(focus)
                    }
                },
                _ => self,
            }
        }
    }
}

/// Boards with the same projects have the same numbers of sections.
proof fn lemma_same_counts(a: AppView, b: AppView)
    requires
        a.projects == b.projects,
    ensures
        forall|q: int| #[trigger] a.section_count(q) == b.section_count(q),
{
}

impl TaskApp {
    /// Number of sections of project `p`.
    pub fn section_len(&self, p: usize) -> (r: usize)
        requires
            p < self@.projects.len(),
        ensures
            r == self@.section_count(p as int),
    {
        self.projects[p].sections.len()
    }

    /// Number of tasks of section `s` of project `p`.
    pub fn task_len(&self, p: usize, s: usize) -> (r: usize)
        requires
            p < self@.projects.len(),
            s < self@.section_count(p as int),
        ensures
            r == self@.tasks_of(p as int, s as int).len(),
    {
        self.projects[p].sections[s].tasks.len()
    }

    /// Takes the task at `idx` of section `s` of project `p` out of the board.
    fn remove_task_at(&mut self, p: usize, s: usize, idx: usize) -> (r: Task)
        requires
            p < old(self).projects@.len(),
            s < old(self)@.section_count(p as int),
            idx < old(self)@.tasks_of(p as int, s as int).len(),
        ensures
            r@ == old(self)@.tasks_of(p as int, s as int)[idx as int],
            final(self)@ == old(self)@.with_tasks(
                p as int,
                s as int,
                old(self)@.tasks_of(p as int, s as int).remove(idx as int),
            ),
    {
        let r = self.projects[p].remove_task(s, idx);
        assert(projects_view(self.projects@) =~= old(self)@.with_tasks(
            p as int,
            s as int,
            old(self)@.tasks_of(p as int, s as int).remove(idx as int),
        ).projects);
        r
    }

    /// Appends a task at the end of section `s` of project `p`.
    fn push_task_at(&mut self, p: usize, s: usize, t: Task)
        requires
            p < old(self)@.projects.len(),
            s < old(self)@.section_count(p as int),
        ensures
            final(self)@ == old(self)@.with_tasks(
                p as int,
                s as int,
                old(self)@.tasks_of(p as int, s as int).push(t@),
            ),
    {
        let ghost tv = t@;
        self.projects[p].push_task(s, t);
        assert(projects_view(self.projects@) =~= old(self)@.with_tasks(
            p as int,
            s as int,
            old(self)@.tasks_of(p as int, s as int).push(tv),
        ).projects);
    }

    /// Empties the new-task line of section `s` of project `p`.
    fn clear_draft_at(&mut self, p: usize, s: usize)
        requires
            p < old(self)@.projects.len(),
            s < old(self)@.section_count(p as int),
        ensures
            final(self)@ == (AppView {
                projects: old(self)@.projects.update(
                    p as int,
                    ProjectView {
                        name: old(self)@.projects[p as int].name,
                        sections: old(self)@.projects[p as int].sections.update(
                            s as int,
                            SectionView {
                                new_task_text: Seq::empty(),
                                ..old(self)@.projects[p as int].sections[s as int]
                            },
                        ),
                    },
                ),
                ..old(self)@
            }),
    {
        self.projects[p].sections[s].new_task_text = String::new();
        assert(self@.projects[p as int].sections =~= old(self)@.projects[p as int].sections.update(
            s as int,
            SectionView { new_task_text: Seq::empty(), ..old(self)@.projects[p as int].sections[s as int] },
        ));
        assert(self@.projects =~= old(self)@.projects.update(
            p as int,
            ProjectView {
                name: old(self)@.projects[p as int].name,
                sections: old(self)@.projects[p as int].sections.update(
                    s as int,
                    SectionView {
                        new_task_text: Seq::empty(),
                        ..old(self)@.projects[p as int].sections[s as int]
                    },
                ),
            },
        ));
    }

    /// Moves the focused task of the selected section to the end of section
    /// `target` of the same project, and follows it there. Nothing happens when
    /// no task is focused, when `target` is the selected section or no section
    /// of the project, or when the focused index names no task.
    pub fn move_selected_to_section(&mut self, target: usize)
        requires
            old(self).selected_project < old(self).projects@.len(),
            target < old(self)@.section_count(old(self).selected_project as int)
                && old(self).focus is Task && old(self).selected_section != target
                ==> old(self).selected_section < old(self)@.section_count(
                old(self).selected_project as int,
            ),
        ensures
            final(self)@ == old(self)@.moved_to_section(target),
            old(self)@.valid() ==> final(self)@.valid(),
            old(self)@.selection_ok() ==> final(self)@.selection_ok(),
            final(self)@.same_shape(old(self)@),
    {
        let p = self.selected_project;
        if target >= self.section_len(p) {
            return;
        }
        let from_sec = self.selected_section;
        let idx = match self.focus {
            SectionFocus::Task(i) => i,
            _ => return,
        };
        if from_sec == target {
            return;
        }
        if idx >= self.task_len(p, from_sec) {
            return;
        }
        let ghost m0 = self@;
        let task = self.remove_task_at(p, from_sec, idx);
        let new_idx = self.task_len(p, target);
        assert(self@.tasks_of(p as int, target as int) == m0.tasks_of(p as int, target as int));
        self.push_task_at(p, target, task);
        self.selected_section = target;
        self.focus = SectionFocus::Task(new_idx);
        proof {
            let m1 = m0.with_tasks(p as int, from_sec as int, m0.tasks_of(p as int, from_sec as int).remove(idx as int));
            lemma_with_tasks_shape(m0, p as int, from_sec as int, m0.tasks_of(p as int, from_sec as int).remove(idx as int));
            lemma_with_tasks_shape(m1, p as int, target as int, m0.tasks_of(p as int, target as int).push(task@));
            lemma_same_counts(self@, m1.with_tasks(p as int, target as int, m0.tasks_of(p as int, target as int).push(task@)));
        }
    }

    /// Deletes the focused task of the selected section. The focus stays on
    /// the same line, falls back to the new last task, or goes to the
    /// new-task line when the section is left empty.
    pub fn delete_selected_task(&mut self)
        requires
            old(self).selected_project < old(self).projects@.len(),
        ensures
            final(self)@ == old(self)@.deleted_selected(),
    {
        let p = self.selected_project;
        let sec_idx = self.selected_section;
        if sec_idx >= self.section_len(p) {
            return;
        }
        let idx = match self.focus {
            SectionFocus::Task(i) => i,
            _ => return,
        };
        if idx >= self.task_len(p, sec_idx) {
            return;
        }
        let _ = self.remove_task_at(p, sec_idx, idx);
        let len = self.task_len(p, sec_idx);
        if len == 0 {
            self.focus = SectionFocus::NewTaskLine;
        } else if idx < len {
            self.focus = SectionFocus::Task(idx);
        } else {
            self.focus = SectionFocus::Task(len - 1);
        }
    }

    /// Starts a frame: brings the selection back onto the board (the first
    /// project when it points past the last one, the project's last section at
    /// most) and notes the section count, the selected section and its task
    /// count.
    pub fn begin_frame(&mut self) -> (f: FrameInfo)
        requires
            old(self)@.projects.len() > 0,
            old(self)@.section_count(old(self)@.frame_project() as int) > 0,
        ensures
            final(self)@ == old(self)@.clamped(),
            f == final(self)@.frame_info(),
            final(self)@.selected_project < final(self)@.projects.len(),
            final(self)@.selected_section < final(self)@.section_count(
                final(self)@.selected_project as int,
            ),
            old(self)@.valid() ==> final(self)@.valid(),
            final(self)@.selection_ok(),
            f.sec_count == final(self)@.section_count(final(self)@.selected_project as int),
            f.current_sec == final(self)@.selected_section,
            f.current_tasks_len == final(self)@.tasks_of(
                final(self)@.selected_project as int,
                final(self)@.selected_section as int,
            ).len(),
    {
        if self.selected_project >= self.projects.len() {
            self.selected_project = 0;
        }
        let p = self.selected_project;
        let sec_count = self.section_len(p);
        let last = sec_count - 1;
        if self.selected_section > last {
            self.selected_section = last;
        }
        let current_sec = self.selected_section;
        let current_tasks_len = self.task_len(p, current_sec);
        proof {
            lemma_same_counts(self@, old(self)@);
        }
        FrameInfo { sec_count, current_sec, current_tasks_len }
    }

    /// Ctrl and up arrow: moves the focused task to the section above (the
    /// last one above the first).
    pub fn move_selected_up(&mut self, sec_count: usize)
        requires
            old(self)@.selection_ok(),
            sec_count == old(self)@.section_count(old(self).selected_project as int),
        ensures
            final(self)@ == old(self)@.moved_to_section(
                AppView::section_above(old(self).selected_section, sec_count),
            ),
            final(self)@.selection_ok(),
            old(self)@.valid() ==> final(self)@.valid(),
            final(self)@.same_shape(old(self)@),
    {
        let target = if self.selected_section == 0 {
            sec_count - 1
        } else {
            self.selected_section - 1
        };
        self.move_selected_to_section(target);
    }

    /// Ctrl and down arrow: moves the focused task to the section below (the
    /// first one below the last).
    pub fn move_selected_down(&mut self, sec_count: usize)
        requires
            old(self)@.selection_ok(),
            sec_count == old(self)@.section_count(old(self).selected_project as int),
        ensures
            final(self)@ == old(self)@.moved_to_section(
                AppView::section_below(old(self).selected_section, sec_count),
            ),
            final(self)@.selection_ok(),
            old(self)@.valid() ==> final(self)@.valid(),
            final(self)@.same_shape(old(self)@),
    {
        let target = if self.selected_section + 1 >= sec_count {
            0
        } else {
            self.selected_section + 1
        };
        self.move_selected_to_section(target);
    }

    /// Up arrow: to the task above, or from the top of a section to the
    /// new-task line of the section above (of the last section from the first).
    /// Returns whether the text fields lose the keyboard.
    pub fn arrow_up(&mut self, f: FrameInfo) -> (clear: bool)
        requires
            old(self)@.arrow_up_defined(f),
        ensures
            (final(self)@, clear) == old(self)@.arrow_up_view(f),
    {
        let leave = match self.focus {
            SectionFocus::Task(idx) => {
                if idx > 0 {
                    self.focus = SectionFocus::Task(idx - 1);
                    return true;
                }
                true
            },
            SectionFocus::NewTaskLine => {
                if f.current_tasks_len > 0 {
                    self.focus = SectionFocus::Task(f.current_tasks_len - 1);
                    return true;
                }
                true
            },
            _ => false,
        };
        if !leave {
            return false;
        }
        if f.current_sec > 0 {
            self.selected_section = self.selected_section - 1;
        } else {
            self.selected_section = f.sec_count - 1;
        }
        self.focus = SectionFocus::NewTaskLine;
        true
    }

    /// Down arrow: to the task below, from the last task to the new-task
    /// line, and from the new-task line into the section below (the first from
    /// the last). Returns whether the text fields lose the keyboard.
    pub fn arrow_down(&mut self, f: FrameInfo) -> (clear: bool)
        requires
            old(self)@.arrow_down_defined(f),
        ensures
            (final(self)@, clear) == old(self)@.arrow_down_view(f),
    {
        match self.focus {
            SectionFocus::Task(idx) => {
                if idx + 1 < f.current_tasks_len {
                    self.focus = SectionFocus::Task(idx + 1);
                } else {
                    self.focus = SectionFocus::NewTaskLine;
                }
                false
            },
            SectionFocus::NewTaskLine => {
                let p = self.selected_project;
                let count = self.section_len(p);
                if f.current_sec < f.sec_count && f.current_sec + 1 < f.sec_count {
                    assert(self.selected_section + 1 < count);  // fits: below a vector length
                    self.selected_section = self.selected_section + 1;
                } else {
                    self.selected_section = 0;
                }
                let n = self.task_len(p, self.selected_section);
                self.focus = if n > 0 {
                    SectionFocus::Task(0)
                } else {
                    SectionFocus::NewTaskLine
                };
                true
            },
            _ => false,
        }
    }

    /// Handles the keys of one frame, after bringing the selection back onto
    /// the board. Returns whether the text fields lose the keyboard.
    pub fn handle_keys(&mut self, k: &KeyInput) -> (clear: bool)
        requires
            old(self)@.keys_defined(*k),
        ensures
            (final(self)@, clear) == old(self)@.after_keys(*k),
    {
        let f = self.begin_frame();
        if k.ctrl {
            if k.arrow_up {
                self.move_selected_up(f.sec_count);
            }
            if k.arrow_down {
                self.move_selected_down(f.sec_count);
            }
            if k.arrow_left {
                self.focus = SectionFocus::Notes;
            }
            if k.arrow_right {
                self.focus = SectionFocus::NewTaskLine;
            }
            k.arrow_up || k.arrow_down
        } else {
            let mut clear = false;
            if k.arrow_up {
                clear = self.arrow_up(f);
            }
            if k.arrow_down {
                let c = self.arrow_down(f);
                clear = clear || c;
            }
            if k.delete {
                self.delete_selected_task();
            }
            if k.f2 {
                self.focus = SectionFocus::Header;
            }
            clear
        }
    }

    /// Clicking the tab of project `i`: selects it, on its first section,
    /// focused on that section's first task or on its new-task line.
    pub fn select_project(&mut self, i: usize)
        requires
            i < old(self)@.projects.len(),
            old(self)@.section_count(i as int) > 0,
        ensures
            final(self)@ == old(self)@.selected_project_view(i),
            old(self)@.valid() ==> final(self)@.settled(),
            final(self)@.focus_ok(),
    {
        let n = self.task_len(i, 0);
        self.selected_project = i;
        self.selected_section = 0;
        self.focus = if n > 0 {
            SectionFocus::Task(0)
        } else {
            SectionFocus::NewTaskLine
        };
        proof {
            lemma_same_counts(self@, old(self)@);
        }
    }

    /// Clicking the close mark of project `i`: removes it. When the selection
    /// then points past the last project, the last project is selected, on
    /// its first section's new-task line. Returns whether no project is left.
    pub fn delete_project(&mut self, i: usize) -> (none_left: bool)
        requires
            i < old(self)@.projects.len(),
        ensures
            (final(self)@, none_left) == old(self)@.deleted_project_view(i),
            old(self)@.valid() ==> final(self)@.valid(),
    {
        let _ = self.projects.remove(i);
        assert(projects_view(self.projects@) =~= old(self)@.projects.remove(i as int));
        let len = self.projects.len();
        if len == 0 {
            return true;
        }
        if self.selected_project >= len {
            self.selected_project = len - 1;
            self.selected_section = 0;
            self.focus = SectionFocus::NewTaskLine;
        }
        assert forall|q: int| 0 <= q < self@.projects.len() && old(self)@.valid() implies
            #[trigger] self@.section_count(q) > 0 by {
            if q >= i {
                assert(self@.section_count(q) == old(self)@.section_count(q + 1));
            } else {
                assert(self@.section_count(q) == old(self)@.section_count(q));
            }
        }
        false
    }

    /// Appends `project` and selects it, on its first section's new-task line.
    fn push_and_select(&mut self, project: Project)
        requires
            project@.sections.len() > 0,
        ensures
            final(self)@ == old(self)@.added_project_view(project@),
            old(self)@.valid() ==> final(self)@.settled(),
    {
        let ghost pv = project@;
        let index = self.projects.len();
        self.projects.push(project);
        assert(projects_view(self.projects@) =~= old(self)@.projects.push(pv));
        self.selected_project = index;
        self.selected_section = 0;
        self.focus = SectionFocus::NewTaskLine;
        assert forall|q: int| 0 <= q < self@.projects.len() && old(self)@.valid() implies
            #[trigger] self@.section_count(q) > 0 by {
            if q < index {
                assert(self@.section_count(q) == old(self)@.section_count(q));
            }
        }
    }

    /// The "+" tab: adds a project named after its place in the tab row, with
    /// the four usual empty sections, and selects it.
    pub fn add_project(&mut self)
        requires
            old(self)@.projects.len() < usize::MAX,
        ensures
            final(self)@ == old(self)@.added_project_view(added_project(old(self)@.projects.len())),
            old(self)@.valid() ==> final(self)@.settled(),
    {
        let number = self.projects.len() + 1;
        let mut sections: Vec<Section> = Vec::new();
        sections.push(Section::blank("pending-"));
        sections.push(Section::blank("improvements to do-"));
        sections.push(Section::blank("bugs-"));
        sections.push(Section::blank("pushed updates-"));
        let project = Project { name: with_number("project-", number), sections };
        assert(project@ =~= added_project(old(self)@.projects.len()));
        self.push_and_select(project);
    }

    /// The welcome screen's button: adds the first project, with a pending
    /// and a bugs section, and selects it.
    pub fn create_first_project(&mut self)
        requires
            old(self)@.projects.len() == 0,
        ensures
            final(self)@ == old(self)@.added_project_view(first_project()),
            final(self)@.settled(),
    {
        let mut sections: Vec<Section> = Vec::new();
        sections.push(Section::blank("pending-"));
        sections.push(Section::blank("bugs-"));
        let project = Project { name: "Project-1".to_owned(), sections };
        assert(project@ =~= first_project());
        self.push_and_select(project);
    }

    /// Enter on the header of the selected section, which is being renamed:
    /// focuses the section's first task, or its new-task line when it has none.
    pub fn confirm_header(&mut self)
        requires
            old(self)@.selection_ok(),
        ensures
            final(self)@ == old(self)@.confirmed_header_view(),
            final(self)@.focus_ok(),
    {
        let n = self.task_len(self.selected_project, self.selected_section);
        self.focus = if n > 0 {
            SectionFocus::Task(0)
        } else {
            SectionFocus::NewTaskLine
        };
    }

    /// Records `text`, already trimmed, as a new task at the end of section
    /// `s` of the selected project, under the next id; clears that section's
    /// new-task line and, when `s` is the selected section, focuses the new
    /// task. An empty `text` changes nothing.
    pub fn record_task(&mut self, s: usize, text: String)
        requires
            old(self)@.selected_project < old(self)@.projects.len(),
            s < old(self)@.section_count(old(self)@.selected_project as int),
            text@.len() > 0 ==> old(self)@.next_id < usize::MAX,
        ensures
            final(self)@ == old(self)@.recorded_task_view(s, text@),
            old(self)@.valid() ==> final(self)@.valid(),
            old(self)@.selection_ok() && old(self)@.focus_ok() ==> final(self)@.focus_ok(),
    {
        if text.as_str().is_empty() {
            return;
        }
        let p = self.selected_project;
        let ghost m0 = self@;
        let ghost tv = text@;
        let ghost want = m0.recorded_task_view(s, tv);
        let id = self.next_id;
        self.next_id = self.next_id + 1;
        let n = self.task_len(p, s);
        self.push_task_at(p, s, Task { id, text });
        self.clear_draft_at(p, s);
        if s == self.selected_section {
            self.focus = SectionFocus::Task(n);
        }
        assert(self@.projects[p as int].sections[s as int] =~= want.projects[p as int].sections[s as int]);
        assert(self@.projects[p as int].sections =~= want.projects[p as int].sections);
        assert(self@.projects =~= want.projects);
        assert forall|q: int| 0 <= q < self@.projects.len() implies #[trigger] self@.section_count(q)
            == m0.section_count(q) by {}
    }

    /// Enter on the new-task line of section `s`: records the line's text,
    /// trimmed of surrounding white space, as a new task (see `record_task`).
    pub fn submit_new_task(&mut self, s: usize)
        requires
            old(self)@.selected_project < old(self)@.projects.len(),
            s < old(self)@.section_count(old(self)@.selected_project as int),
            trimmed(old(self)@.draft_of(s)).len() > 0 ==> old(self)@.next_id < usize::MAX,
        ensures
            final(self)@ == old(self)@.submitted_view(s),
            old(self)@.valid() ==> final(self)@.valid(),
    {
        let p = self.selected_project;
        let text = trim_str(self.projects[p].sections[s].new_task_text.as_str()).to_owned();
        self.record_task(s, text);
    }

    /// A board opened on `projects`, `next_id` and `notes` (see `opened`).
    fn open_with(projects: Vec<Project>, next_id: usize, notes: String) -> (r: TaskApp)
        ensures
            r@ == opened(projects_view(projects@), next_id, notes@),
    {
        let mut focus = SectionFocus::NewTaskLine;
        if projects.len() > 0 && projects[0].sections.len() > 0
            && projects[0].sections[0].tasks.len() > 0 {
            focus = SectionFocus::Task(0);
        }
        TaskApp {
            projects,
            selected_project: 0,
            next_id,
            selected_section: 0,
            focus,
            notes,
            notes_header: "notes-".to_owned(),
        }
    }

    /// The board that was saved as `data`, opened (see `opened`).
    pub fn from_save_data(data: SaveData) -> (r: TaskApp)
        ensures
            r@ == opened(data@.projects, data@.next_id, data@.notes),
    {
        TaskApp::open_with(data.projects, data.next_id, data.notes)
    }

    /// What is saved of the board: its projects, next id and notes.
    pub fn save_data(&self) -> (r: SaveData)
        ensures
            r@ == saved(self@),
    {
        SaveData {
            projects: duplicate_projects(&self.projects),
            next_id: self.next_id,
            notes: self.notes.clone(),
        }
    }

    /// The board when nothing was saved before: one project with four
    /// sections and ten tasks, the next id 11 and no notes, opened.
    pub fn sample() -> (r: TaskApp)
        ensures
            r@ == opened(sample_projects(), 11, Seq::empty()),
    {
        let mut pending: Vec<Task> = Vec::new();
        pending.push(Task::new(1, "private lobby?"));
        pending.push(Task::new(2, "invite email"));
        pending.push(Task::new(3, "seat change option"));
        let mut improvements: Vec<Task> = Vec::new();
        improvements.push(Task::new(4, "control panel orientation on hand after loose app focus"));
        improvements.push(Task::new(5, "hand gestures"));
        let mut bugs: Vec<Task> = Vec::new();
        bugs.push(Task::new(6, "control panel on controller changes orientation"));
        let mut pushed: Vec<Task> = Vec::new();
        pushed.push(Task::new(7, "fullscreen annotation for sphere"));
        pushed.push(Task::new(8, "annotation panel position for all theatres"));
        pushed.push(Task::new(9, "sphere screen integration"));
        pushed.push(Task::new(10, "change theatre"));
        let ghost sp = sample_projects()[0].sections;
        assert(tasks_view(pending@) =~= sp[0].tasks);
        assert(tasks_view(improvements@) =~= sp[1].tasks);
        assert(tasks_view(bugs@) =~= sp[2].tasks);
        assert(tasks_view(pushed@) =~= sp[3].tasks);
        let mut sections: Vec<Section> = Vec::new();
        sections.push(Section::with_tasks_named("pending-", pending));
        sections.push(Section::with_tasks_named("improvements to do-", improvements));
        sections.push(Section::with_tasks_named("bugs-", bugs));
        sections.push(Section::with_tasks_named("pushed updates for testing-", pushed));
        assert(sections_view(sections@) =~= sp);
        let mut projects: Vec<Project> = Vec::new();
        projects.push(Project { name: "project-1".to_owned(), sections });
        assert(projects_view(projects@) =~= sample_projects());
        TaskApp::open_with(projects, 11, String::new())
    }

    /// Whether every project has a section and the selection names a project
    /// when there is one (see `AppView::valid`).
    pub fn is_valid(&self) -> (b: bool)
        ensures
            b == self@.valid(),
    {
        let n = self.projects.len();
        let mut i: usize = 0;
        while i < n
            invariant
                n == self@.projects.len(),
                i <= n,
                forall|q: int| 0 <= q < i ==> #[trigger] self@.section_count(q) > 0,
            decreases n - i,
        {
            if self.section_len(i) == 0 {
                return false;
            }
            i = i + 1;
        }
        n == 0 || self.selected_project < n
    }

    /// Whether `handle_keys` is defined on this board for the keys `k` (see
    /// `AppView::keys_defined`).
    pub fn accepts_keys(&self, k: &KeyInput) -> (b: bool)
        ensures
            b == self@.keys_defined(*k),
    {
        let n = self.projects.len();
        if n == 0 {
            return false;
        }
        let p = if self.selected_project >= n {
            0
        } else {
            self.selected_project
        };
        let count = self.section_len(p);
        if count == 0 {
            return false;
        }
        if k.ctrl || !k.arrow_down {
            return true;
        }
        let sec = if self.selected_section <= count - 1 {
            self.selected_section
        } else {
            count - 1
        };
        let tasks_len = self.task_len(p, sec);
        let ghost m0 = self@.clamped();
        let ghost f = m0.frame_info();
        assert(f == FrameInfo { sec_count: count, current_sec: sec, current_tasks_len: tasks_len });
        let mut focus = self.focus;
        let mut at = sec;
        if k.arrow_up {
            match self.focus {
                SectionFocus::Task(idx) => {
                    if idx > 0 {
                        focus = SectionFocus::Task(idx - 1);
                    } else {
                        focus = SectionFocus::NewTaskLine;
                        at = if sec > 0 { sec - 1 } else { count - 1 };
                    }
                },
                SectionFocus::NewTaskLine => {
                    if tasks_len > 0 {
                        focus = SectionFocus::Task(tasks_len - 1);
                    } else {
                        at = if sec > 0 { sec - 1 } else { count - 1 };
                    }
                },
                _ => {},
            }
        }
        let ghost m1 = if k.arrow_up { m0.arrow_up_view(f).0 } else { m0 };
        assert(m1.focus == focus && m1.selected_section == at);
        match focus {
            SectionFocus::NewTaskLine => {
                if sec + 1 < count {
                    at < count - 1
                } else {
                    true
                }
            },
            SectionFocus::Task(idx) => idx < usize::MAX,
            _ => true,
        }
    }

    /// Handles the tab row's events in order: the clicked tab, the closed
    /// tab, the "+" tab (skipped when the last project was closed). Returns
    /// whether the last project was closed.
    pub fn handle_tabs(&mut self, t: &TabEvents) -> (gone: bool)
        requires
            old(self)@.tabs_defined(*t),
        ensures
            (final(self)@, gone) == old(self)@.after_tabs(*t),
    {
        match t.select {
            Some(i) => self.select_project(i),
            None => {},
        }
        let mut gone = false;
        match t.close {
            Some(i) => {
                gone = self.delete_project(i);
            },
            None => {},
        }
        if gone {
            return true;
        }
        if t.add {
            self.add_project();
        }
        false
    }

    /// Handles the sections' events in the order the sections are drawn
    /// (see `AppView::after_edits`).
    pub fn handle_edits(&mut self, e: &EditEvents)
        requires
            old(self)@.edits_defined(*e),
        ensures
            final(self)@ == old(self)@.after_edits(*e),
    {
        let submit_first = match e.submit {
            Some(s) => s < self.selected_section,
            None => false,
        };
        if submit_first {
            match e.submit {
                Some(s) => self.submit_new_task(s),
                None => {},
            }
            if e.header_enter {
                self.confirm_header();
            }
        } else {
            if e.header_enter {
                self.confirm_header();
            }
            match e.submit {
                Some(s) => self.submit_new_task(s),
                None => {},
            }
        }
    }
}

} // verus!
