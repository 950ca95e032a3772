//! What each operation of the board does, stated over its inputs and results.

use vstd::prelude::*;
use vstd::arithmetic::div_mod::lemma_fundamental_div_mod_converse_mod;
use crate::board::{AppView, KeyInput};
use crate::model::{SectionFocus, TaskView};
use crate::text::decimal;

verus! {

/// Exactly the keys given are pressed: Ctrl or not, Up or not, Down or not,
/// and none of Left, Right, Delete, F2.
pub open spec fn pressed_only(k: KeyInput, ctrl: bool, up: bool, down: bool) -> bool {
    &&& k.ctrl == ctrl
    &&& k.arrow_up == up
    &&& k.arrow_down == down
    &&& !k.arrow_left
    &&& !k.arrow_right
    &&& !k.delete
    &&& !k.f2
}

/// The selected project's section count and selected section's task count
/// fit in machine integers, as they do for any board held in memory.
pub open spec fn fits(m: AppView) -> bool {
    &&& m.section_count(m.selected_project as int) <= usize::MAX
    &&& m.tasks_of(m.selected_project as int, m.selected_section as int).len() <= usize::MAX
}

/// Stepping around `n` sections: one up from the first is the last, one
/// down from the last is the first.
pub proof fn lemma_wrap(s: int, n: int)
    requires
        0 <= s < n,
    ensures
        (s + n - 1) % n == (if s == 0 { n - 1 } else { s - 1 }),
        (s + 1) % n == (if s + 1 == n { 0 } else { s + 1 }),
{
    if s == 0 {
        lemma_fundamental_div_mod_converse_mod(s + n - 1, n, 0, n - 1);
    } else {
        lemma_fundamental_div_mod_converse_mod(s + n - 1, n, 1, s - 1);
    }
    if s + 1 == n {
        lemma_fundamental_div_mod_converse_mod(s + 1, n, 1, 0);
    } else {
        lemma_fundamental_div_mod_converse_mod(s + 1, n, 0, s + 1);
    }
}

/// Moving the focused task (index `idx` of section `s`) to another section
/// `target` of the selected project takes it out of `s`, appends it to
/// `target`, selects `target` and focuses the moved task; no other section
/// changes.
pub proof fn law_move_to_section(m: AppView, target: usize, idx: usize)
    requires
        m.selection_ok(),
        m.focus == SectionFocus::Task(idx),
        idx < m.tasks_of(m.selected_project as int, m.selected_section as int).len(),
        target < m.section_count(m.selected_project as int),
        target != m.selected_section,
    ensures
        ({
            let p = m.selected_project as int;
            let s = m.selected_section as int;
            let r = m.moved_to_section(target);
            &&& r.selected_project == m.selected_project
            &&& r.selected_section == target
            &&& r.tasks_of(p, s) == m.tasks_of(p, s).remove(idx as int)
            &&& r.tasks_of(p, target as int) == m.tasks_of(p, target as int).push(
                m.tasks_of(p, s)[idx as int],
            )
            &&& r.focus == SectionFocus::Task(m.tasks_of(p, target as int).len() as usize)
            &&& r.section_count(p) == m.section_count(p)
            &&& r.projects.len() == m.projects.len()
            &&& forall|q: int|
                0 <= q < m.section_count(p) && q != s && q != target ==> #[trigger] r.tasks_of(
                    p,
                    q,
                ) == m.tasks_of(p, q)
            &&& forall|o: int| 0 <= o < m.projects.len() && o != p ==> #[trigger] r.projects[o] == m.projects[o]
            &&& r.next_id == m.next_id
        }),
{
}

/// Ctrl and Up moves the focused task to the end of the section above,
/// the last section standing above the first, and follows it there.
pub proof fn law_ctrl_up_moves_task_up(m: AppView, k: KeyInput, idx: usize)
    requires
        m.selection_ok(),
        fits(m),
        pressed_only(k, true, true, false),
        m.focus == SectionFocus::Task(idx),
        idx < m.tasks_of(m.selected_project as int, m.selected_section as int).len(),
        m.section_count(m.selected_project as int) >= 2,
    ensures
        ({
            let p = m.selected_project as int;
            let s = m.selected_section as int;
            let n = m.section_count(p);
            let t = (s + n - 1) % n;
            let r = m.after_keys(k).0;
            &&& r.selected_project == m.selected_project
            &&& r.selected_section == t
            &&& r.tasks_of(p, s) == m.tasks_of(p, s).remove(idx as int)
            &&& r.tasks_of(p, t) == m.tasks_of(p, t).push(m.tasks_of(p, s)[idx as int])
            &&& r.focus == SectionFocus::Task(m.tasks_of(p, t).len() as usize)
            &&& m.after_keys(k).1
        }),
{
    let p = m.selected_project as int;
    let s = m.selected_section as int;
    let n = m.section_count(p);
    lemma_wrap(s, n);
    assert(m.clamped() == m);
    law_move_to_section(m, ((s + n - 1) % n) as usize, idx);
}

/// Ctrl and Down moves the focused task to the end of the section below,
/// the first section standing below the last, and follows it there.
pub proof fn law_ctrl_down_moves_task_down(m: AppView, k: KeyInput, idx: usize)
    requires
        m.selection_ok(),
        fits(m),
        pressed_only(k, true, false, true),
        m.focus == SectionFocus::Task(idx),
        idx < m.tasks_of(m.selected_project as int, m.selected_section as int).len(),
        m.section_count(m.selected_project as int) >= 2,
    ensures
        ({
            let p = m.selected_project as int;
            let s = m.selected_section as int;
            let n = m.section_count(p);
            let t = (s + 1) % n;
            let r = m.after_keys(k).0;
            &&& r.selected_project == m.selected_project
            &&& r.selected_section == t
            &&& r.tasks_of(p, s) == m.tasks_of(p, s).remove(idx as int)
            &&& r.tasks_of(p, t) == m.tasks_of(p, t).push(m.tasks_of(p, s)[idx as int])
            &&& r.focus == SectionFocus::Task(m.tasks_of(p, t).len() as usize)
            &&& m.after_keys(k).1
        }),
{
    let p = m.selected_project as int;
    let s = m.selected_section as int;
    let n = m.section_count(p);
    lemma_wrap(s, n);
    assert(m.clamped() == m);
    law_move_to_section(m, ((s + 1) % n) as usize, idx);
}

/// Up moves the focus one line up: to the task above, from the new-task
/// line to the last task, and from the top of a section to the new-task
/// line of the section above (the last section above the first). Tasks
/// and projects do not change.
pub proof fn law_arrow_up_moves_focus_up(m: AppView, k: KeyInput)
    requires
        m.selection_ok(),
        fits(m),
        pressed_only(k, false, true, false),
    ensures
        ({
            let p = m.selected_project as int;
            let s = m.selected_section as int;
            let n = m.section_count(p);
            let len = m.tasks_of(p, s).len();
            let r = m.after_keys(k).0;
            let clear = m.after_keys(k).1;
            &&& r.projects == m.projects
            &&& r.selected_project == m.selected_project
            &&& r.next_id == m.next_id
            &&& (m.focus is Task && m.focus->Task_0 > 0) ==> r.focus == SectionFocus::Task(
                (m.focus->Task_0 - 1) as usize,
            ) && r.selected_section == s && clear
            &&& (m.focus == SectionFocus::Task(0) || (m.focus == SectionFocus::NewTaskLine && len
                == 0)) ==> r.focus == SectionFocus::NewTaskLine && r.selected_section == (s + n - 1)
                % n && clear
            &&& (m.focus == SectionFocus::NewTaskLine && len > 0) ==> r.focus == SectionFocus::Task(
                (len - 1) as usize,
            ) && r.selected_section == s && clear
            &&& (m.focus == SectionFocus::Header || m.focus == SectionFocus::Notes) ==> r == m
                && !clear
        }),
{
    let p = m.selected_project as int;
    let s = m.selected_section as int;
    lemma_wrap(s, m.section_count(p));
    assert(m.clamped() == m);
}

/// Down moves the focus one line down: to the task below, from the last
/// task to the new-task line, and from the new-task line to the first line
/// of the section below (the first section below the last): its first
/// task, or its new-task line when it has none. Tasks and projects do not
/// change.
pub proof fn law_arrow_down_moves_focus_down(m: AppView, k: KeyInput)
    requires
        m.selection_ok(),
        fits(m),
        pressed_only(k, false, false, true),
    ensures
        ({
            let p = m.selected_project as int;
            let s = m.selected_section as int;
            let n = m.section_count(p);
            let len = m.tasks_of(p, s).len();
            let t = (s + 1) % n;
            let r = m.after_keys(k).0;
            let clear = m.after_keys(k).1;
            &&& r.projects == m.projects
            &&& r.selected_project == m.selected_project
            &&& r.next_id == m.next_id
            &&& (m.focus is Task && m.focus->Task_0 + 1 < len) ==> r.focus == SectionFocus::Task(
                (m.focus->Task_0 + 1) as usize,
            ) && r.selected_section == s && !clear
            &&& (m.focus is Task && m.focus->Task_0 + 1 >= len) ==> r.focus
                == SectionFocus::NewTaskLine && r.selected_section == s && !clear
            &&& m.focus == SectionFocus::NewTaskLine ==> r.selected_section == t && clear && (if m.tasks_of(
                p,
                t,
            ).len() > 0 {
                r.focus == SectionFocus::Task(0)
            } else {
                r.focus == SectionFocus::NewTaskLine
            })
            &&& (m.focus == SectionFocus::Header || m.focus == SectionFocus::Notes) ==> r == m
                && !clear
        }),
{
    let p = m.selected_project as int;
    let s = m.selected_section as int;
    lemma_wrap(s, m.section_count(p));
    assert(m.clamped() == m);
}

/// Deleting the focused task (index `idx`) takes it out of the selected
/// section and keeps the focus on the same line, on the new last task when
/// that line is gone, or on the new-task line when no task is left.
pub proof fn law_delete_focused_task(m: AppView, idx: usize)
    requires
        m.selection_ok(),
        m.focus == SectionFocus::Task(idx),
        idx < m.tasks_of(m.selected_project as int, m.selected_section as int).len(),
    ensures
        ({
            let p = m.selected_project as int;
            let s = m.selected_section as int;
            let rest = m.tasks_of(p, s).remove(idx as int);
            let r = m.deleted_selected();
            &&& r.tasks_of(p, s) == rest
            &&& r.selected_project == m.selected_project
            &&& r.selected_section == m.selected_section
            &&& rest.len() == 0 ==> r.focus == SectionFocus::NewTaskLine
            &&& idx < rest.len() ==> r.focus == SectionFocus::Task(idx)
            &&& 0 < rest.len() <= idx ==> r.focus == SectionFocus::Task((rest.len() - 1) as usize)
            &&& forall|q: int|
                0 <= q < m.section_count(p) && q != s ==> #[trigger] r.tasks_of(p, q) == m.tasks_of(
                    p,
                    q,
                )
        }),
{
}

/// At the start of a frame the selected project falls back to the first
/// one when it is past the last, and the selected section to the project's
/// last one when it is past it; nothing else changes.
pub proof fn law_frame_start_clamps(m: AppView)
    requires
        m.projects.len() > 0,
        m.section_count(m.frame_project() as int) > 0,
    ensures
        ({
            let r = m.clamped();
            let p = r.selected_project as int;
            &&& m.selected_project < m.projects.len() ==> r.selected_project == m.selected_project
            &&& m.selected_project >= m.projects.len() ==> r.selected_project == 0
            &&& m.selected_section < m.section_count(p) ==> r.selected_section == m.selected_section
            &&& m.selected_section >= m.section_count(p) ==> r.selected_section == m.section_count(p) - 1
            &&& r.projects == m.projects
            &&& r.focus == m.focus
            &&& r.next_id == m.next_id
        }),
{
}

/// Clicking the tab of project `i` selects that project, on its first
/// section, focused on that section's first task, or on its new-task line
/// when it has none, whatever was selected before; nothing else changes.
pub proof fn law_select_project(m: AppView, i: usize)
    requires
        i < m.projects.len(),
        m.section_count(i as int) > 0,
    ensures
        ({
            let r = m.selected_project_view(i);
            &&& r.selected_project == i
            &&& r.selected_section == 0
            &&& m.tasks_of(i as int, 0).len() > 0 ==> r.focus == SectionFocus::Task(0)
            &&& m.tasks_of(i as int, 0).len() == 0 ==> r.focus == SectionFocus::NewTaskLine
            &&& r.projects == m.projects
            &&& r.next_id == m.next_id
            &&& r.notes == m.notes
        }),
{
}

/// Closing project `i` removes it and nothing else. When other projects
/// remain and the selection pointed past the last of them, the new last
/// project is selected, on its first section's new-task line; otherwise the
/// selection stays as it was. The result says whether no project is left.
pub proof fn law_close_project(m: AppView, i: usize)
    requires
        i < m.projects.len(),
    ensures
        ({
            let (r, gone) = m.deleted_project_view(i);
            let left = m.projects.len() - 1;
            &&& r.projects == m.projects.remove(i as int)
            &&& gone == (left == 0)
            &&& (left > 0 && m.selected_project >= left) ==> r.selected_project == left - 1
                && r.selected_section == 0 && r.focus == SectionFocus::NewTaskLine
            &&& (left == 0 || m.selected_project < left) ==> r.selected_project == m.selected_project
                && r.selected_section == m.selected_section && r.focus == m.focus
            &&& left > 0 ==> r.selected_project < r.projects.len()
            &&& r.next_id == m.next_id
        }),
{
}

/// The "+" tab adds, after the existing projects, a project named
/// "project-" and its tab number, with the empty sections "pending-",
/// "improvements to do-", "bugs-" and "pushed updates-", and selects it on
/// its first section's new-task line.
pub proof fn law_add_project(m: AppView)
    requires
        m.projects.len() < usize::MAX,
    ensures
        ({
            let n = m.projects.len();
            let r = m.added_project_view(crate::board::added_project(n));
            let added = r.projects[n as int];
            &&& r.projects.len() == n + 1
            &&& r.projects.subrange(0, n as int) == m.projects
            &&& added.name == "project-"@ + decimal(n + 1)
            &&& added.sections.len() == 4
            &&& added.sections[0].name == "pending-"@
            &&& added.sections[1].name == "improvements to do-"@
            &&& added.sections[2].name == "bugs-"@
            &&& added.sections[3].name == "pushed updates-"@
            &&& forall|s: int| 0 <= s < 4 ==> #[trigger] added.sections[s].tasks.len() == 0
                && added.sections[s].new_task_text.len() == 0
            &&& r.selected_project == n
            &&& r.selected_section == 0
            &&& r.focus == SectionFocus::NewTaskLine
        }),
{
    let r = m.added_project_view(crate::board::added_project(m.projects.len()));
    assert(r.projects.subrange(0, m.projects.len() as int) =~= m.projects);
}

/// The welcome screen's button adds a project named "Project-1" with the
/// empty sections "pending-" and "bugs-", and selects it on its first
/// section's new-task line.
pub proof fn law_create_first_project(m: AppView)
    requires
        m.projects.len() == 0,
    ensures
        ({
            let r = m.added_project_view(crate::board::first_project());
            let added = r.projects[0];
            &&& r.projects.len() == 1
            &&& added.name == "Project-1"@
            &&& added.sections.len() == 2
            &&& added.sections[0].name == "pending-"@
            &&& added.sections[1].name == "bugs-"@
            &&& forall|s: int| 0 <= s < 2 ==> #[trigger] added.sections[s].tasks.len() == 0
                && added.sections[s].new_task_text.len() == 0
            &&& r.selected_project == 0
            &&& r.selected_section == 0
            &&& r.focus == SectionFocus::NewTaskLine
        }),
{
}

/// Enter on the selected section's header focuses its first task, or its
/// new-task line when it has none; nothing else changes.
pub proof fn law_confirm_header(m: AppView)
    requires
        m.selection_ok(),
    ensures
        ({
            let r = m.confirmed_header_view();
            let len = m.tasks_of(m.selected_project as int, m.selected_section as int).len();
            &&& len > 0 ==> r.focus == SectionFocus::Task(0)
            &&& len == 0 ==> r.focus == SectionFocus::NewTaskLine
            &&& r.projects == m.projects
            &&& r.selected_project == m.selected_project
            &&& r.selected_section == m.selected_section
            &&& r.next_id == m.next_id
        }),
{
}

/// Entering a non-empty `text` on the new-task line of section `s` appends
/// a task with the next id and that text to section `s`, empties that
/// section's new-task line (selected section or not), keeps its name and
/// every other section and project, takes the next id up by one, and
/// focuses the new task when `s` is the selected section (the focus stays
/// otherwise). An empty text changes nothing.
pub proof fn law_enter_task(m: AppView, s: usize, text: Seq<char>)
    requires
        m.selected_project < m.projects.len(),
        s < m.section_count(m.selected_project as int),
        text.len() > 0 ==> m.next_id < usize::MAX,
    ensures
        ({
            let p = m.selected_project as int;
            let r = m.recorded_task_view(s, text);
            let before = m.projects[p].sections[s as int];
            let after = r.projects[p].sections[s as int];
            &&& text.len() == 0 ==> r == m
            &&& text.len() > 0 ==> {
                &&& after.tasks == before.tasks.push(TaskView { id: m.next_id, text: text })
                &&& after.new_task_text.len() == 0
                &&& after.name == before.name
                &&& r.next_id == m.next_id + 1
                &&& r.projects.len() == m.projects.len()
                &&& r.projects[p].name == m.projects[p].name
                &&& r.section_count(p) == m.section_count(p)
                &&& forall|q: int|
                    0 <= q < m.section_count(p) && q != s ==> #[trigger] r.projects[p].sections[q]
                        == m.projects[p].sections[q]
                &&& forall|o: int|
                    0 <= o < m.projects.len() && o != p ==> #[trigger] r.projects[o] == m.projects[o]
                &&& r.selected_project == m.selected_project
                &&& r.selected_section == m.selected_section
                &&& s == m.selected_section ==> r.focus == SectionFocus::Task(before.tasks.len() as usize)
                &&& s != m.selected_section ==> r.focus == m.focus
            }
        }),
{
}

/// Moving leaves the board as it is when no task is focused, when the
/// focused index names no task of the selected section, or when `target`
/// is the selected section or no section of the project.
pub proof fn law_move_no_op(m: AppView, target: usize)
    requires
        m.selection_ok(),
        !(m.focus is Task && m.focus->Task_0 < m.tasks_of(
            m.selected_project as int,
            m.selected_section as int,
        ).len()) || target >= m.section_count(m.selected_project as int) || target
            == m.selected_section,
    ensures
        m.moved_to_section(target) == m,
{
}

/// Ctrl with Up and Down in one frame moves the focused task up and then
/// back down: it ends at the end of its own section, which stays selected,
/// and the section above is as before.
pub proof fn law_ctrl_up_then_down_returns(m: AppView, k: KeyInput, idx: usize)
    requires
        m.selection_ok(),
        fits(m),
        pressed_only(k, true, true, true),
        m.focus == SectionFocus::Task(idx),
        idx < m.tasks_of(m.selected_project as int, m.selected_section as int).len(),
        m.section_count(m.selected_project as int) >= 2,
        forall|q: int| #[trigger] m.tasks_of(m.selected_project as int, q).len() < usize::MAX,
    ensures
        ({
            let p = m.selected_project as int;
            let s = m.selected_section as int;
            let n = m.section_count(p);
            let t = (s + n - 1) % n;
            let task = m.tasks_of(p, s)[idx as int];
            let r = m.after_keys(k).0;
            &&& r.selected_section == s
            &&& r.tasks_of(p, s) == m.tasks_of(p, s).remove(idx as int).push(task)
            &&& r.tasks_of(p, t) == m.tasks_of(p, t)
            &&& r.focus == SectionFocus::Task((m.tasks_of(p, s).len() - 1) as usize)
        }),
{
    let p = m.selected_project as int;
    let s = m.selected_section as int;
    let n = m.section_count(p);
    lemma_wrap(s, n);
    let t = (s + n - 1) % n;
    lemma_wrap(t, n);
    assert(m.clamped() == m);
    law_move_to_section(m, t as usize, idx);
    let m1 = m.moved_to_section(t as usize);
    let j = m.tasks_of(p, t).len() as int;
    assert(m1.tasks_of(p, t)[j] == m.tasks_of(p, s)[idx as int]);
    assert(AppView::section_below(m1.selected_section, n as usize) == s);
    law_move_to_section(m1, s as usize, j as usize);
    assert(m1.tasks_of(p, t).remove(j) =~= m.tasks_of(p, t));
    assert(m1.tasks_of(p, s) == m.tasks_of(p, s).remove(idx as int));
}

/// Ctrl and Left focuses the notes, Ctrl and Right the new-task line;
/// F2 alone focuses the selected section's header. Nothing else changes,
/// and the text fields keep the keyboard.
pub proof fn law_focus_keys(m: AppView, k: KeyInput)
    requires
        m.selection_ok(),
        fits(m),
        !k.arrow_up,
        !k.arrow_down,
        !k.delete,
        (k.ctrl && k.arrow_left && !k.arrow_right && !k.f2) || (k.ctrl && k.arrow_right
            && !k.arrow_left && !k.f2) || (!k.ctrl && k.f2 && !k.arrow_left && !k.arrow_right),
    ensures
        ({
            let r = m.after_keys(k).0;
            &&& (k.ctrl && k.arrow_left) ==> r.focus == SectionFocus::Notes
            &&& (k.ctrl && k.arrow_right) ==> r.focus == SectionFocus::NewTaskLine
            &&& (!k.ctrl && k.f2) ==> r.focus == SectionFocus::Header
            &&& r.projects == m.projects
            &&& r.selected_project == m.selected_project
            &&& r.selected_section == m.selected_section
            &&& !m.after_keys(k).1
        }),
{
    assert(m.clamped() == m);
}

/// Delete alone deletes the focused task (see `law_delete_focused_task`)
/// and leaves the keyboard with the text fields; with Ctrl held it does
/// nothing.
pub proof fn law_delete_key(m: AppView, k: KeyInput)
    requires
        m.selection_ok(),
        fits(m),
        k.delete,
        !k.arrow_up,
        !k.arrow_down,
        !k.arrow_left,
        !k.arrow_right,
        !k.f2,
    ensures
        !k.ctrl ==> m.after_keys(k).0 == m.deleted_selected(),
        k.ctrl ==> m.after_keys(k).0 == m,
        !m.after_keys(k).1,
{
    assert(m.clamped() == m);
}

/// On a settled board whose focus is on an existing task (if on any), the
/// keys of a frame are always handled, unless Up and Down come together.
pub proof fn law_keys_handled(m: AppView, k: KeyInput)
    requires
        m.settled(),
        fits(m),
        m.focus_ok(),
        !(k.arrow_up && k.arrow_down),
    ensures
        m.keys_defined(k),
{
    assert(m.clamped() == m);
}

/// The tab row's events are handled whenever they name existing projects
/// and "+" finds room, on a board whose projects all have a section.
pub proof fn law_tabs_handled(m: AppView, t: crate::board::TabEvents)
    requires
        m.sections_present(),
        t.select matches Some(i) ==> i < m.projects.len(),
        t.close matches Some(i) ==> i < m.projects.len(),
        m.projects.len() < usize::MAX,
    ensures
        m.tabs_defined(t),
{
}

/// The sections' events are handled whenever a section is selected, the
/// new-task line is one of the project's sections, and the next id has room.
pub proof fn law_edits_handled(m: AppView, e: crate::board::EditEvents)
    requires
        m.selection_ok(),
        e.submit matches Some(s) ==> s < m.section_count(m.selected_project as int),
        m.next_id < usize::MAX,
    ensures
        m.edits_defined(e),
{
}

/// With both a header Enter and a new-task Enter in one frame, the new
/// task takes the focus when it was entered in the selected section;
/// otherwise the header Enter decides: the selected section's first task,
/// or its new-task line when it has none.
pub proof fn law_edits_focus(m: AppView, s: usize)
    requires
        m.selection_ok(),
        s < m.section_count(m.selected_project as int),
        m.next_id < usize::MAX,
        crate::text::trimmed(m.draft_of(s)).len() > 0,
    ensures
        ({
            let p = m.selected_project as int;
            let ss = m.selected_section as int;
            let r = m.after_edits(crate::board::EditEvents { header_enter: true, submit: Some(s) });
            &&& s == ss ==> r.focus == SectionFocus::Task(m.tasks_of(p, ss).len() as usize)
            &&& (s != ss && r.tasks_of(p, ss).len() > 0) ==> r.focus == SectionFocus::Task(0)
            &&& (s != ss && r.tasks_of(p, ss).len() == 0) ==> r.focus == SectionFocus::NewTaskLine
        }),
{
}

/// Closing the last project ends the tab row's work: "+" clicked in the
/// same frame adds nothing. Otherwise "+" adds one project.
pub proof fn law_tabs_close_then_add(m: AppView, i: usize)
    requires
        i < m.projects.len(),
        m.projects.len() < usize::MAX,
    ensures
        ({
            let (r, gone) = m.after_tabs(crate::board::TabEvents { select: None, close: Some(i), add: true });
            &&& gone == (m.projects.len() == 1)
            &&& gone ==> r.projects.len() == 0
            &&& !gone ==> r.projects.len() == m.projects.len() && r.selected_project == r.projects.len() - 1
        }),
{
}

/// With no project, a frame only acts on the welcome screen's button:
/// without a click nothing changes, with one the first project appears.
pub proof fn law_welcome_frame(m: AppView, ev: crate::board::FrameEvents)
    requires
        m.projects.len() == 0,
    ensures
        !ev.create ==> m.after_frame(ev).0 == m,
        ev.create ==> m.after_frame(ev).0.projects.len() == 1,
{
}

/// A board opened on saved contents has those projects, next id and notes,
/// the first project and its first section selected, the notes header
/// "notes-", and the focus on that section's first task, or on the
/// new-task line when there is none.
pub proof fn law_open(projects: Seq<crate::model::ProjectView>, next_id: usize, notes: Seq<char>)
    ensures
        ({
            let r = crate::board::opened(projects, next_id, notes);
            let has_first = projects.len() > 0 && projects[0].sections.len() > 0
                && projects[0].sections[0].tasks.len() > 0;
            &&& r.projects == projects
            &&& r.next_id == next_id
            &&& r.notes == notes
            &&& r.notes_header == "notes-"@
            &&& r.selected_project == 0
            &&& r.selected_section == 0
            &&& has_first ==> r.focus == SectionFocus::Task(0)
            &&& !has_first ==> r.focus == SectionFocus::NewTaskLine
        }),
{
}

/// A tab row with one event does what that event's operation does: a tab
/// click selects (see `law_select_project`), "+" adds (see
/// `law_add_project`), and neither closes the last project.
pub proof fn law_tabs_single(m: AppView, i: usize)
    ensures
        m.after_tabs(crate::board::TabEvents { select: Some(i), close: None, add: false }) == (
        m.selected_project_view(i), false),
        m.after_tabs(crate::board::TabEvents { select: None, close: None, add: true }) == (
        m.added_project_view(crate::board::added_project(m.projects.len())), false),
        m.after_tabs(crate::board::TabEvents { select: None, close: None, add: false }) == (m, false),
{
}

/// A frame with projects and no tab or section event is just its keys.
pub proof fn law_frame_of_keys(m: AppView, ev: crate::board::FrameEvents)
    requires
        m.projects.len() > 0,
        ev.tabs.select is None,
        ev.tabs.close is None,
        !ev.tabs.add,
        !ev.edits.header_enter,
        ev.edits.submit is None,
    ensures
        m.after_frame(ev) == m.after_keys(ev.keys),
{
}

} // verus!
