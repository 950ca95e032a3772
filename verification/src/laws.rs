use vstd::prelude::*;
use vstd::multiset::Multiset;
use crate::board::{added_project, first_project, opened, saved, AppView, EditEvents, FrameEvents, KeyInput, TabEvents};
use crate::text::{is_white_space, lemma_blank_trims_to_empty, trimmed};
use crate::model::{ProjectView, SectionFocus, SectionView, TaskView};

verus! {

/// The multisets `f` gives for the items of `xs`, added up.
pub open spec fn sum_over<X, A>(xs: Seq<X>, f: spec_fn(X) -> Multiset<A>) -> Multiset<A>
    decreases xs.len(),
{
    if xs.len() == 0 {
        Multiset::empty()
    } else {
        sum_over(xs.drop_last(), f).add(f(xs.last()))
    }
}

/// Replacing the item at `i` by `x` trades its share of the sum for that of `x`.
pub proof fn lemma_sum_update<X, A>(xs: Seq<X>, f: spec_fn(X) -> Multiset<A>, i: int, x: X, a: A)
    requires
        0 <= i < xs.len(),
    ensures
        sum_over(xs.update(i, x), f).count(a) + f(xs[i]).count(a) == sum_over(xs, f).count(a)
            + f(x).count(a),
    decreases xs.len(),
{
    let ys = xs.update(i, x);
    if i == xs.len() - 1 {
        assert(ys.drop_last() =~= xs.drop_last());
    } else {
        assert(ys.drop_last() =~= xs.drop_last().update(i, x));
        lemma_sum_update(xs.drop_last(), f, i, x, a);
    }
}

/// Removing the item at `i` takes its share out of the sum.
pub proof fn lemma_sum_remove<X, A>(xs: Seq<X>, f: spec_fn(X) -> Multiset<A>, i: int, a: A)
    requires
        0 <= i < xs.len(),
    ensures
        sum_over(xs.remove(i), f).count(a) + f(xs[i]).count(a) == sum_over(xs, f).count(a),
    decreases xs.len(),
{
    let ys = xs.remove(i);
    if i == xs.len() - 1 {
        assert(ys =~= xs.drop_last());
    } else {
        assert(ys.drop_last() =~= xs.drop_last().remove(i));
        assert(ys.last() == xs.last());
        lemma_sum_remove(xs.drop_last(), f, i, a);
    }
}

/// Appending `x` adds its share to the sum.
pub proof fn lemma_sum_push<X, A>(xs: Seq<X>, f: spec_fn(X) -> Multiset<A>, x: X, a: A)
    ensures
        sum_over(xs.push(x), f).count(a) == sum_over(xs, f).count(a) + f(x).count(a),
{
    assert(xs.push(x).drop_last() =~= xs);
}

/// The share of one section in a board sum: what `g` gives for its tasks.
pub open spec fn section_share<A>(g: spec_fn(Seq<TaskView>) -> Multiset<A>) -> spec_fn(SectionView) -> Multiset<A> {
    |sec: SectionView| g(sec.tasks)
}

/// What `g` gives for the tasks of each of `sections`, added up.
pub open spec fn section_sum<A>(sections: Seq<SectionView>, g: spec_fn(Seq<TaskView>) -> Multiset<A>) -> Multiset<A> {
    sum_over(sections, section_share(g))
}

/// The share of one project in a board sum.
pub open spec fn project_share<A>(g: spec_fn(Seq<TaskView>) -> Multiset<A>) -> spec_fn(ProjectView) -> Multiset<A> {
    |proj: ProjectView| section_sum(proj.sections, g)
}

/// What `g` gives for the tasks of every section of every project, added up.
pub open spec fn board_sum<A>(projects: Seq<ProjectView>, g: spec_fn(Seq<TaskView>) -> Multiset<A>) -> Multiset<A> {
    sum_over(projects, project_share(g))
}

/// A list of tasks as a multiset of tasks.
pub open spec fn task_bag() -> spec_fn(Seq<TaskView>) -> Multiset<TaskView> {
    |tasks: Seq<TaskView>| tasks.to_multiset()
}

/// A list of tasks as the multiset of their ids.
pub open spec fn id_bag() -> spec_fn(Seq<TaskView>) -> Multiset<usize> {
    |tasks: Seq<TaskView>| tasks.map_values(|t: TaskView| t.id).to_multiset()
}

/// Every task on the board, as a multiset.
pub open spec fn board_tasks(m: AppView) -> Multiset<TaskView> {
    board_sum(m.projects, task_bag())
}

/// The id of every task on the board, as a multiset.
pub open spec fn board_ids(m: AppView) -> Multiset<usize> {
    board_sum(m.projects, id_bag())
}

/// No two tasks share an id, and every id is below the next one to be given.
pub open spec fn ids_sound(m: AppView) -> bool {
    forall|id: usize|
        #![trigger board_ids(m).count(id)]
        board_ids(m).count(id) <= 1 && (board_ids(m).count(id) > 0 ==> id < m.next_id)
}

/// Replacing the tasks of section `s` of project `p` trades their share of a
/// board sum for that of the new tasks.
pub proof fn lemma_board_with_tasks<A>(
    m: AppView,
    p: int,
    s: int,
    tasks: Seq<TaskView>,
    g: spec_fn(Seq<TaskView>) -> Multiset<A>,
    a: A,
)
    requires
        0 <= p < m.projects.len(),
        0 <= s < m.section_count(p),
    ensures
        board_sum(m.with_tasks(p, s, tasks).projects, g).count(a) + g(m.tasks_of(p, s)).count(a)
            == board_sum(m.projects, g).count(a) + g(tasks).count(a),
{
    let proj = m.projects[p];
    lemma_sum_update(m.projects, project_share(g), p, proj.with_tasks(s, tasks), a);
    lemma_sum_update(proj.sections, section_share(g), s, proj.sections[s].with_tasks(tasks), a);
}

/// Replacing section `s` of project `p` by `sec` (same name or not) trades
/// the share of its tasks for that of the tasks of `sec`.
pub proof fn lemma_board_with_section<A>(
    ps: Seq<ProjectView>,
    p: int,
    s: int,
    sec: SectionView,
    g: spec_fn(Seq<TaskView>) -> Multiset<A>,
    a: A,
)
    requires
        0 <= p < ps.len(),
        0 <= s < ps[p].sections.len(),
    ensures
        board_sum(
            ps.update(p, ProjectView { name: ps[p].name, sections: ps[p].sections.update(s, sec) }),
            g,
        ).count(a) + g(ps[p].sections[s].tasks).count(a) == board_sum(ps, g).count(a) + g(
            sec.tasks,
        ).count(a),
{
    let proj = ps[p];
    let np = ProjectView { name: proj.name, sections: proj.sections.update(s, sec) };
    lemma_sum_update(ps, project_share(g), p, np, a);
    lemma_sum_update(proj.sections, section_share(g), s, sec, a);
}

/// Removing the task at `i` from a list takes it out of the list's bags.
pub proof fn lemma_bags_remove(tasks: Seq<TaskView>, i: int)
    requires
        0 <= i < tasks.len(),
    ensures
        forall|t: TaskView|
            #![trigger task_bag()(tasks.remove(i)).count(t)]
            task_bag()(tasks.remove(i)).count(t) + (if t == tasks[i] { 1int } else { 0int })
                == task_bag()(tasks).count(t),
        forall|id: usize|
            #![trigger id_bag()(tasks.remove(i)).count(id)]
            id_bag()(tasks.remove(i)).count(id) + (if id == tasks[i].id { 1int } else { 0int })
                == id_bag()(tasks).count(id),
{
    broadcast use vstd::seq_lib::group_to_multiset_ensures;
    let ids = tasks.map_values(|t: TaskView| t.id);
    assert(tasks.remove(i).map_values(|t: TaskView| t.id) =~= ids.remove(i));
}

/// Appending `x` to a list puts it into the list's bags.
pub proof fn lemma_bags_push(tasks: Seq<TaskView>, x: TaskView)
    ensures
        forall|t: TaskView|
            #![trigger task_bag()(tasks.push(x)).count(t)]
            task_bag()(tasks.push(x)).count(t) == task_bag()(tasks).count(t) + (if t == x {
                1int
            } else {
                0int
            }),
        forall|id: usize|
            #![trigger id_bag()(tasks.push(x)).count(id)]
            id_bag()(tasks.push(x)).count(id) == id_bag()(tasks).count(id) + (if id == x.id {
                1int
            } else {
                0int
            }),
{
    broadcast use vstd::seq_lib::group_to_multiset_ensures;
    let ids = tasks.map_values(|t: TaskView| t.id);
    assert(tasks.push(x).map_values(|t: TaskView| t.id) =~= ids.push(x.id));
}

/// Moving a task to another section keeps every task of the board: the
/// multiset of tasks, and so of ids, is the same before and after.
pub proof fn law_move_keeps_tasks(m: AppView, target: usize)
    requires
        m.selection_ok(),
    ensures
        board_tasks(m.moved_to_section(target)) == board_tasks(m),
        board_ids(m.moved_to_section(target)) == board_ids(m),
        ids_sound(m) ==> ids_sound(m.moved_to_section(target)),
{
    let p = m.selected_project as int;
    let from = m.selected_section as int;
    let r = m.moved_to_section(target);
    if r != m {
        let idx = m.focus->Task_0 as int;
        let task = m.tasks_of(p, from)[idx];
        let rest = m.tasks_of(p, from).remove(idx);
        let grown = m.tasks_of(p, target as int).push(task);
        let m1 = m.with_tasks(p, from, rest);
        assert(m1.tasks_of(p, target as int) == m.tasks_of(p, target as int));
        assert(r.projects == m1.with_tasks(p, target as int, grown).projects);
        lemma_bags_remove(m.tasks_of(p, from), idx);
        lemma_bags_push(m.tasks_of(p, target as int), task);
        assert forall|t: TaskView| #[trigger] board_tasks(r).count(t) == board_tasks(m).count(t) by {
            lemma_board_with_tasks(m, p, from, rest, task_bag(), t);
            lemma_board_with_tasks(m1, p, target as int, grown, task_bag(), t);
        }
        assert forall|id: usize| #[trigger] board_ids(r).count(id) == board_ids(m).count(id) by {
            lemma_board_with_tasks(m, p, from, rest, id_bag(), id);
            lemma_board_with_tasks(m1, p, target as int, grown, id_bag(), id);
        }
        assert(board_tasks(r) =~= board_tasks(m));
        assert(board_ids(r) =~= board_ids(m));
    }
}

/// Whether deleting the focused task removes one: the selected section
/// exists and the focus is on one of its tasks.
pub open spec fn deletes_a_task(m: AppView) -> bool {
    &&& m.selected_section < m.section_count(m.selected_project as int)
    &&& m.focus matches SectionFocus::Task(idx)
    &&& idx < m.tasks_of(m.selected_project as int, m.selected_section as int).len()
}

/// The task that deleting the focused task removes.
pub open spec fn focused_task(m: AppView) -> TaskView {
    m.tasks_of(m.selected_project as int, m.selected_section as int)[m.focus->Task_0 as int]
}

/// Deleting the focused task removes exactly that task from the board and
/// leaves every other task; with no task focused nothing changes. Ids stay
/// sound.
pub proof fn law_delete_removes_focused(m: AppView)
    requires
        m.selected_project < m.projects.len(),
    ensures
        deletes_a_task(m) ==> board_tasks(m.deleted_selected()) == board_tasks(m).remove(
            focused_task(m),
        ),
        deletes_a_task(m) ==> board_ids(m.deleted_selected()) == board_ids(m).remove(
            focused_task(m).id,
        ),
        !deletes_a_task(m) ==> m.deleted_selected() == m,
        ids_sound(m) ==> ids_sound(m.deleted_selected()),
{
    let r = m.deleted_selected();
    if deletes_a_task(m) {
        let p = m.selected_project as int;
        let s = m.selected_section as int;
        let idx = m.focus->Task_0 as int;
        let rest = m.tasks_of(p, s).remove(idx);
        let task = focused_task(m);
        assert(r.projects == m.with_tasks(p, s, rest).projects);
        lemma_bags_remove(m.tasks_of(p, s), idx);
        assert forall|t: TaskView| #[trigger] board_tasks(r).count(t) == board_tasks(m).remove(
            task,
        ).count(t) by {
            lemma_board_with_tasks(m, p, s, rest, task_bag(), t);
            lemma_board_with_tasks(m, p, s, m.tasks_of(p, s), task_bag(), t);
        }
        assert forall|id: usize| #[trigger] board_ids(r).count(id) == board_ids(m).remove(
            task.id,
        ).count(id) by {
            lemma_board_with_tasks(m, p, s, rest, id_bag(), id);
        }
        assert(board_tasks(r) =~= board_tasks(m).remove(task));
        assert(board_ids(r) =~= board_ids(m).remove(task.id));
    }
}

/// The task that entering `text` on the new-task line adds.
pub open spec fn entered_task(m: AppView, text: Seq<char>) -> TaskView {
    TaskView { id: m.next_id, text: text }
}

/// Entering a non-empty text adds exactly one task, with the next id and
/// that text, and takes the next id up by one; an empty text changes
/// nothing. Ids stay sound: the new id is one no task had.
pub proof fn law_record_adds_one(m: AppView, s: usize, text: Seq<char>)
    requires
        m.selected_project < m.projects.len(),
        s < m.section_count(m.selected_project as int),
        text.len() > 0 ==> m.next_id < usize::MAX,
    ensures
        text.len() > 0 ==> board_tasks(m.recorded_task_view(s, text)) == board_tasks(m).insert(
            entered_task(m, text),
        ),
        text.len() > 0 ==> board_ids(m.recorded_task_view(s, text)) == board_ids(m).insert(
            m.next_id,
        ),
        text.len() > 0 ==> m.recorded_task_view(s, text).next_id == m.next_id + 1,
        text.len() == 0 ==> m.recorded_task_view(s, text) == m,
        ids_sound(m) ==> ids_sound(m.recorded_task_view(s, text)),
{
    let r = m.recorded_task_view(s, text);
    if text.len() > 0 {
        let p = m.selected_project as int;
        let x = entered_task(m, text);
        let sec = m.projects[p].sections[s as int];
        let new_sec = SectionView {
            name: sec.name,
            tasks: sec.tasks.push(x),
            new_task_text: Seq::empty(),
        };
        lemma_bags_push(sec.tasks, x);
        assert forall|t: TaskView| #[trigger] board_tasks(r).count(t) == board_tasks(m).insert(
            x,
        ).count(t) by {
            lemma_board_with_section(m.projects, p, s as int, new_sec, task_bag(), t);
        }
        assert forall|id: usize| #[trigger] board_ids(r).count(id) == board_ids(m).insert(
            m.next_id,
        ).count(id) by {
            lemma_board_with_section(m.projects, p, s as int, new_sec, id_bag(), id);
        }
        assert(board_tasks(r) =~= board_tasks(m).insert(x));
        assert(board_ids(r) =~= board_ids(m).insert(m.next_id));
        if ids_sound(m) {
            assert forall|id: usize| #![trigger board_ids(r).count(id)]
                board_ids(r).count(id) <= 1 && (board_ids(r).count(id) > 0 ==> id < r.next_id) by {
                assert(board_ids(m).count(id) <= 1);
                assert(board_ids(m).count(m.next_id) == 0);
            }
        }
    }
}

/// A project with no task contributes nothing to a board sum.
pub proof fn lemma_empty_project_share<A>(proj: ProjectView, g: spec_fn(Seq<TaskView>) -> Multiset<A>, a: A)
    requires
        forall|s: int| 0 <= s < proj.sections.len() ==> #[trigger] proj.sections[s].tasks.len() == 0,
        g(Seq::<TaskView>::empty()).count(a) == 0,
    ensures
        project_share(g)(proj).count(a) == 0,
    decreases proj.sections.len(),
{
    if proj.sections.len() > 0 {
        let rest = ProjectView { name: proj.name, sections: proj.sections.drop_last() };
        assert(proj.sections.last().tasks =~= Seq::<TaskView>::empty());
        assert forall|s: int| 0 <= s < rest.sections.len() implies #[trigger] rest.sections[s].tasks.len()
            == 0 by {
            assert(rest.sections[s] == proj.sections[s]);
        }
        lemma_empty_project_share(rest, g, a);
    }
}

/// Closing project `i` takes exactly its tasks off the board; ids stay sound.
pub proof fn law_delete_project_removes_its_tasks(m: AppView, i: usize)
    requires
        i < m.projects.len(),
    ensures
        board_tasks(m.deleted_project_view(i).0) == board_tasks(m).sub(
            project_share(task_bag())(m.projects[i as int]),
        ),
        ids_sound(m) ==> ids_sound(m.deleted_project_view(i).0),
{
    let r = m.deleted_project_view(i).0;
    assert(r.projects == m.projects.remove(i as int));
    assert forall|t: TaskView| #[trigger] board_tasks(r).count(t) == board_tasks(m).sub(
        project_share(task_bag())(m.projects[i as int]),
    ).count(t) by {
        lemma_sum_remove(m.projects, project_share(task_bag()), i as int, t);
    }
    assert(board_tasks(r) =~= board_tasks(m).sub(project_share(task_bag())(m.projects[i as int])));
    if ids_sound(m) {
        assert forall|id: usize| #![trigger board_ids(r).count(id)]
            board_ids(r).count(id) <= 1 && (board_ids(r).count(id) > 0 ==> id < r.next_id) by {
            lemma_sum_remove(m.projects, project_share(id_bag()), i as int, id);
            assert(board_ids(m).count(id) <= 1);
        }
    }
}

/// Adding a project without tasks leaves the board's tasks as they are.
pub proof fn law_add_project_keeps_tasks(m: AppView, proj: ProjectView)
    requires
        forall|s: int| 0 <= s < proj.sections.len() ==> #[trigger] proj.sections[s].tasks.len() == 0,
    ensures
        board_tasks(m.added_project_view(proj)) == board_tasks(m),
        board_ids(m.added_project_view(proj)) == board_ids(m),
        ids_sound(m) ==> ids_sound(m.added_project_view(proj)),
{
    broadcast use vstd::seq_lib::group_to_multiset_ensures;
    let r = m.added_project_view(proj);
    assert(Seq::<usize>::empty().to_multiset().len() == 0);
    assert(Seq::<TaskView>::empty().to_multiset().len() == 0);
    assert(Seq::<TaskView>::empty().map_values(|t: TaskView| t.id) =~= Seq::<usize>::empty());
    assert forall|t: TaskView| #[trigger] board_tasks(r).count(t) == board_tasks(m).count(t) by {
        lemma_sum_push(m.projects, project_share(task_bag()), proj, t);
        lemma_empty_project_share(proj, task_bag(), t);
    }
    assert forall|id: usize| #[trigger] board_ids(r).count(id) == board_ids(m).count(id) by {
        lemma_sum_push(m.projects, project_share(id_bag()), proj, id);
        lemma_empty_project_share(proj, id_bag(), id);
    }
    assert(board_tasks(r) =~= board_tasks(m));
    assert(board_ids(r) =~= board_ids(m));
}

/// Replacing the tasks of a section keeps the board's shape.
pub proof fn lemma_with_tasks_shape(m: AppView, p: int, s: int, tasks: Seq<TaskView>)
    requires
        0 <= p < m.projects.len(),
        0 <= s < m.section_count(p),
    ensures
        m.with_tasks(p, s, tasks).same_shape(m),
        m.with_tasks(p, s, tasks).selected_section == m.selected_section,
        m.valid() ==> m.with_tasks(p, s, tasks).valid(),
        m.selection_ok() ==> m.with_tasks(p, s, tasks).selection_ok(),
{
    let r = m.with_tasks(p, s, tasks);
    assert forall|q: int| 0 <= q < r.projects.len() implies #[trigger] r.section_count(q)
        == m.section_count(q) by {}
}

/// Moving a task keeps the board's shape and a valid selection.
pub proof fn lemma_move_shape(m: AppView, target: usize)
    requires
        m.selection_ok(),
    ensures
        m.moved_to_section(target).same_shape(m),
        m.moved_to_section(target).selection_ok(),
        m.valid() ==> m.moved_to_section(target).valid(),
{
    let p = m.selected_project as int;
    let from = m.selected_section as int;
    let r = m.moved_to_section(target);
    if r != m {
        let idx = m.focus->Task_0 as int;
        let task = m.tasks_of(p, from)[idx];
        let m1 = m.with_tasks(p, from, m.tasks_of(p, from).remove(idx));
        lemma_with_tasks_shape(m, p, from, m.tasks_of(p, from).remove(idx));
        lemma_with_tasks_shape(m1, p, target as int, m.tasks_of(p, target as int).push(task));
        let m2 = m1.with_tasks(p, target as int, m.tasks_of(p, target as int).push(task));
        assert(m1.tasks_of(p, target as int) == m.tasks_of(p, target as int));
        assert forall|q: int| 0 <= q < r.projects.len() implies #[trigger] r.section_count(q)
            == m.section_count(q) by {
            assert(r.section_count(q) == m2.section_count(q));
            assert(m2.section_count(q) == m1.section_count(q));
        }
    }
}

/// Deleting the focused task keeps the board's shape and selection.
pub proof fn lemma_delete_shape(m: AppView)
    requires
        m.selected_project < m.projects.len(),
    ensures
        m.deleted_selected().same_shape(m),
        m.deleted_selected().selected_section == m.selected_section,
        m.valid() ==> m.deleted_selected().valid(),
        m.selection_ok() ==> m.deleted_selected().selection_ok(),
{
    if deletes_a_task(m) {
        let p = m.selected_project as int;
        let s = m.selected_section as int;
        let m1 = m.with_tasks(p, s, m.tasks_of(p, s).remove(m.focus->Task_0 as int));
        lemma_with_tasks_shape(m, p, s, m.tasks_of(p, s).remove(m.focus->Task_0 as int));
        let r = m.deleted_selected();
        assert(r.projects == m1.projects);
        assert forall|q: int| 0 <= q < r.projects.len() implies #[trigger] r.section_count(q)
            == m1.section_count(q) by {}
    }
}

/// The keys of a frame never change the board's tasks except through the
/// delete key, which takes off at most the focused task; they keep ids
/// sound, keep a valid board valid, and leave a project and a section
/// selected.
pub proof fn law_keys_keep_board(m: AppView, k: KeyInput)
    requires
        m.keys_defined(k),
    ensures
        (k.ctrl || !k.delete) ==> board_tasks(m.after_keys(k).0) == board_tasks(m),
        board_tasks(m.after_keys(k).0).subset_of(board_tasks(m)),
        ids_sound(m) ==> ids_sound(m.after_keys(k).0),
        board_ids(m.after_keys(k).0).subset_of(board_ids(m)),
        m.after_keys(k).0.next_id == m.next_id,
        m.sections_present() ==> m.after_keys(k).0.valid(),
        m.after_keys(k).0.selection_ok(),
{
    let m0 = m.clamped();
    let f = m0.frame_info();
    assert(board_tasks(m0) == board_tasks(m));
    assert(board_ids(m0) == board_ids(m));
    assert forall|q: int| 0 <= q < m0.projects.len() implies #[trigger] m0.section_count(q)
        == m.section_count(q) by {}
    assert(m.sections_present() ==> m0.valid());
    assert(m0.selection_ok());
    if k.ctrl {
        let m1 = if k.arrow_up {
            m0.moved_to_section(AppView::section_above(m0.selected_section, f.sec_count))
        } else {
            m0
        };
        if k.arrow_up {
            law_move_keeps_tasks(m0, AppView::section_above(m0.selected_section, f.sec_count));
            lemma_move_shape(m0, AppView::section_above(m0.selected_section, f.sec_count));
        }
        let m2 = if k.arrow_down {
            m1.moved_to_section(AppView::section_below(m1.selected_section, f.sec_count))
        } else {
            m1
        };
        if k.arrow_down {
            law_move_keeps_tasks(m1, AppView::section_below(m1.selected_section, f.sec_count));
            lemma_move_shape(m1, AppView::section_below(m1.selected_section, f.sec_count));
        }
        let r = m.after_keys(k).0;
        assert(r.projects == m2.projects);
        assert(board_tasks(r) == board_tasks(m2));
        assert(board_ids(r) == board_ids(m2));
        assert forall|q: int| 0 <= q < r.projects.len() implies #[trigger] r.section_count(q)
            == m2.section_count(q) by {}
    } else {
        let m1 = if k.arrow_up { m0.arrow_up_view(f).0 } else { m0 };
        let m2 = if k.arrow_down { m1.arrow_down_view(f).0 } else { m1 };
        assert(m1.projects == m0.projects);
        assert(m2.projects == m0.projects);
        assert(m2.selected_project == m0.selected_project);
        assert forall|q: int| 0 <= q < m2.projects.len() implies #[trigger] m2.section_count(q)
            == m0.section_count(q) by {}
        assert(m2.selection_ok());
        assert(board_tasks(m2) == board_tasks(m));
        assert(board_ids(m2) == board_ids(m));
        let m3 = if k.delete { m2.deleted_selected() } else { m2 };
        law_delete_removes_focused(m2);
        lemma_delete_shape(m2);
        let r = m.after_keys(k).0;
        assert(r.projects == m3.projects);
        assert(board_tasks(r) == board_tasks(m3));
        assert(board_ids(r) == board_ids(m3));
        assert forall|q: int| 0 <= q < r.projects.len() implies #[trigger] r.section_count(q)
            == m3.section_count(q) by {}
    }
}

/// Moving a task keeps the focus on an existing task.
pub proof fn lemma_move_focus(m: AppView, target: usize)
    requires
        m.selection_ok(),
        m.focus_ok(),
    ensures
        m.moved_to_section(target).focus_ok(),
{
    let p = m.selected_project as int;
    let from = m.selected_section as int;
    let r = m.moved_to_section(target);
    if r != m {
        let idx = m.focus->Task_0 as int;
        let task = m.tasks_of(p, from)[idx];
        let m1 = m.with_tasks(p, from, m.tasks_of(p, from).remove(idx));
        assert(m1.tasks_of(p, target as int) == m.tasks_of(p, target as int));
        assert(r.tasks_of(p, target as int) == m.tasks_of(p, target as int).push(task));
    }
}

/// Deleting the focused task keeps the focus on an existing task.
pub proof fn lemma_delete_focus(m: AppView)
    requires
        m.selection_ok(),
        m.focus_ok(),
    ensures
        m.deleted_selected().focus_ok(),
{
}

/// Starting from a board with a project and section selected and the focus
/// on an existing task (if on any), the keys of a frame leave the focus on
/// an existing task (if on any).
pub proof fn law_keys_keep_focus_on_a_task(m: AppView, k: KeyInput)
    requires
        m.keys_defined(k),
        m.selection_ok(),
        m.focus_ok(),
    ensures
        m.after_keys(k).0.focus_ok(),
{
    let m0 = m.clamped();
    let f = m0.frame_info();
    assert(m0 == m);
    if k.ctrl {
        let t1 = AppView::section_above(m0.selected_section, f.sec_count);
        let m1 = if k.arrow_up { m0.moved_to_section(t1) } else { m0 };
        if k.arrow_up {
            lemma_move_shape(m0, t1);
            lemma_move_focus(m0, t1);
        }
        let t2 = AppView::section_below(m1.selected_section, f.sec_count);
        if k.arrow_down {
            lemma_move_shape(m1, t2);
            lemma_move_focus(m1, t2);
        }
    } else {
        let m1 = if k.arrow_up { m0.arrow_up_view(f).0 } else { m0 };
        let m2 = if k.arrow_down { m1.arrow_down_view(f).0 } else { m1 };
        assert(m1.projects == m0.projects);
        assert(m2.projects == m0.projects);
        assert(m1.focus_ok());
        assert(m2.focus_ok());
        assert forall|q: int| 0 <= q < m2.projects.len() implies #[trigger] m2.section_count(q)
            == m0.section_count(q) by {}
        assert(m2.selection_ok());
        lemma_delete_focus(m2);
    }
}

/// Saving a board and opening what was saved gives back its projects, next
/// id and notes, so its tasks and the soundness of its ids; only the
/// selection starts over.
pub proof fn law_save_then_open(m: AppView)
    ensures
        opened(saved(m).projects, saved(m).next_id, saved(m).notes).projects == m.projects,
        opened(saved(m).projects, saved(m).next_id, saved(m).notes).next_id == m.next_id,
        opened(saved(m).projects, saved(m).next_id, saved(m).notes).notes == m.notes,
        board_tasks(opened(saved(m).projects, saved(m).next_id, saved(m).notes)) == board_tasks(m),
        ids_sound(m) ==> ids_sound(opened(saved(m).projects, saved(m).next_id, saved(m).notes)),
{
    let r = opened(saved(m).projects, saved(m).next_id, saved(m).notes);
    assert(board_ids(r) == board_ids(m));
}

/// A board opened on projects that all have a section, at least one of
/// them, is settled with its focus on an existing task (if on any).
pub proof fn law_opened_is_settled(projects: Seq<ProjectView>, next_id: usize, notes: Seq<char>)
    requires
        projects.len() > 0,
        forall|p: int| 0 <= p < projects.len() ==> #[trigger] projects[p].sections.len() > 0,
    ensures
        opened(projects, next_id, notes).settled(),
        opened(projects, next_id, notes).focus_ok(),
{
    let m = opened(projects, next_id, notes);
    assert forall|p: int| 0 <= p < m.projects.len() implies #[trigger] m.section_count(p) > 0 by {
        assert(projects[p].sections.len() > 0);
    }
}

/// From `a` to `b` the next id never goes down, and every id that `b`
/// holds more often than `a` was handed out in between: it lies from `a`'s
/// next id up to below `b`'s.
pub open spec fn ids_grow_from(a: AppView, b: AppView) -> bool {
    &&& a.next_id <= b.next_id
    &&& forall|id: usize|
        #![trigger board_ids(b).count(id)]
        board_ids(b).count(id) > board_ids(a).count(id) ==> a.next_id <= id < b.next_id
}

pub proof fn lemma_ids_grow_trans(a: AppView, b: AppView, c: AppView)
    requires
        ids_grow_from(a, b),
        ids_grow_from(b, c),
    ensures
        ids_grow_from(a, c),
{
    assert forall|id: usize| #![trigger board_ids(c).count(id)]
        board_ids(c).count(id) > board_ids(a).count(id) implies a.next_id <= id < c.next_id by {
        if board_ids(c).count(id) <= board_ids(b).count(id) {
            assert(board_ids(b).count(id) > board_ids(a).count(id));
        }
    }
}

/// The tab row keeps a board valid.
pub proof fn lemma_tabs_keep_valid(m: AppView, t: TabEvents)
    requires
        m.valid(),
        m.tabs_defined(t),
    ensures
        m.after_tabs(t).0.valid(),
{
    let m1 = match t.select {
        Some(i) => m.selected_project_view(i),
        None => m,
    };
    assert(m1.projects == m.projects);
    assert forall|q: int| 0 <= q < m1.projects.len() implies #[trigger] m1.section_count(q) > 0 by {
        assert(m1.section_count(q) == m.section_count(q));
    }
    let (m2, gone) = match t.close {
        Some(i) => m1.deleted_project_view(i),
        None => (m1, false),
    };
    if let Some(i) = t.close {
        assert(m2.projects == m1.projects.remove(i as int));
        assert forall|q: int| 0 <= q < m2.projects.len() implies #[trigger] m2.section_count(q) > 0 by {
            if q >= i {
                assert(m2.section_count(q) == m1.section_count(q + 1));
            } else {
                assert(m2.section_count(q) == m1.section_count(q));
            }
        }
    }
    assert(m2.valid());
    if !gone && t.add {
        let r = m2.added_project_view(added_project(m2.projects.len()));
        assert forall|q: int| 0 <= q < r.projects.len() implies #[trigger] r.section_count(q) > 0 by {
            if q < m2.projects.len() {
                assert(r.section_count(q) == m2.section_count(q));
            }
        }
    }
}

/// The tab row hands out no id and keeps ids sound.
pub proof fn lemma_tabs_ids(m: AppView, t: TabEvents)
    requires
        m.tabs_defined(t),
    ensures
        ids_grow_from(m, m.after_tabs(t).0),
        ids_sound(m) ==> ids_sound(m.after_tabs(t).0),
{
    let m1 = match t.select {
        Some(i) => m.selected_project_view(i),
        None => m,
    };
    assert(board_ids(m1) == board_ids(m));
    let (m2, gone) = match t.close {
        Some(i) => m1.deleted_project_view(i),
        None => (m1, false),
    };
    if let Some(i) = t.close {
        law_delete_project_removes_its_tasks(m1, i);
        assert(m2.projects == m1.projects.remove(i as int));
        assert forall|id: usize| #![trigger board_ids(m2).count(id)]
            board_ids(m2).count(id) <= board_ids(m1).count(id) by {
            lemma_sum_remove(m1.projects, project_share(id_bag()), i as int, id);
        }
    }
    assert(ids_grow_from(m, m2));
    if !gone && t.add {
        let proj = added_project(m2.projects.len());
        assert forall|s: int| 0 <= s < proj.sections.len() implies #[trigger] proj.sections[s].tasks.len()
            == 0 by {}
        law_add_project_keeps_tasks(m2, proj);
    }
}

/// The sections' events keep a board valid.
pub proof fn lemma_edits_keep_valid(m: AppView, e: EditEvents)
    requires
        m.valid(),
        m.edits_defined(e),
    ensures
        m.after_edits(e).valid(),
{
    let r = m.after_edits(e);
    if let Some(s) = e.submit {
        let p = m.selected_project as int;
        assert(r.projects.len() == m.projects.len());
        assert forall|q: int| 0 <= q < r.projects.len() implies #[trigger] r.section_count(q) > 0 by {
            assert(r.section_count(q) == m.section_count(q));
        }
    } else {
        assert(r.projects == m.projects);
        assert forall|q: int| 0 <= q < r.projects.len() implies #[trigger] r.section_count(q) > 0 by {
            assert(r.section_count(q) == m.section_count(q));
        }
    }
}

/// The sections' events hand out ids only from the next id up, and keep
/// ids sound.
pub proof fn lemma_edits_ids(m: AppView, e: EditEvents)
    requires
        m.edits_defined(e),
    ensures
        ids_grow_from(m, m.after_edits(e)),
        ids_sound(m) ==> ids_sound(m.after_edits(e)),
{
    let r = m.after_edits(e);
    if let Some(s) = e.submit {
        let text = trimmed(m.draft_of(s));
        law_record_adds_one(m, s, text);
        let a = m.submitted_view(s);
        if text.len() > 0 {
            assert forall|id: usize| #![trigger board_ids(a).count(id)]
                board_ids(a).count(id) > board_ids(m).count(id) implies m.next_id <= id < a.next_id by {
                assert(board_ids(a) == board_ids(m).insert(m.next_id));
            }
        }
        assert(ids_grow_from(m, a));
        let h = m.confirmed_header_view();
        assert(h.draft_of(s) == m.draft_of(s));
        law_record_adds_one(h, s, text);
        let b = h.submitted_view(s);
        assert(board_ids(h) == board_ids(m));
        if text.len() > 0 {
            assert forall|id: usize| #![trigger board_ids(b).count(id)]
                board_ids(b).count(id) > board_ids(m).count(id) implies m.next_id <= id < b.next_id by {
                assert(board_ids(b) == board_ids(h).insert(h.next_id));
            }
        }
        assert(ids_grow_from(m, b));
        assert(board_ids(a.confirmed_header_view()) == board_ids(a));
    }
}

/// Entering a draft of white space only adds no task and changes nothing.
pub proof fn law_blank_draft_adds_nothing(m: AppView, s: usize)
    requires
        m.selected_project < m.projects.len(),
        s < m.section_count(m.selected_project as int),
        forall|i: int| 0 <= i < m.draft_of(s).len() ==> #[trigger] is_white_space(m.draft_of(s)[i]),
    ensures
        m.submitted_view(s) == m,
{
    lemma_blank_trims_to_empty(m.draft_of(s));
}

/// Over one whole frame, a board whose projects all have a section stays
/// so, and its selected project is on the board whenever any project is.
pub proof fn law_frame_keeps_selection(m: AppView, ev: FrameEvents)
    requires
        m.sections_present(),
        m.frame_defined(ev),
    ensures
        m.after_frame(ev).0.valid(),
{
    if m.projects.len() == 0 {
        if ev.create {
            let r = m.added_project_view(first_project());
            assert forall|q: int| 0 <= q < r.projects.len() implies #[trigger] r.section_count(q) > 0 by {}
        }
    } else {
        law_keys_keep_board(m, ev.keys);
        let m1 = m.after_keys(ev.keys).0;
        lemma_tabs_keep_valid(m1, ev.tabs);
        let (m2, gone) = m1.after_tabs(ev.tabs);
        if !gone {
            lemma_edits_keep_valid(m2, ev.edits);
        }
    }
}

/// Over one whole frame, ids stay unique and below the next id, the next
/// id never goes down, and every task id the frame adds was handed out
/// during it, from the old next id up: no id is handed out twice, not even
/// that of a deleted task.
pub proof fn law_frame_keeps_ids(m: AppView, ev: FrameEvents)
    requires
        m.frame_defined(ev),
        ids_sound(m),
    ensures
        ids_sound(m.after_frame(ev).0),
        ids_grow_from(m, m.after_frame(ev).0),
{
    if m.projects.len() == 0 {
        if ev.create {
            let proj = first_project();
            assert forall|s: int| 0 <= s < proj.sections.len() implies #[trigger] proj.sections[s].tasks.len()
                == 0 by {}
            law_add_project_keeps_tasks(m, proj);
        }
    } else {
        law_keys_keep_board(m, ev.keys);
        let m1 = m.after_keys(ev.keys).0;
        assert forall|id: usize| #![trigger board_ids(m1).count(id)]
            board_ids(m1).count(id) <= board_ids(m).count(id) by {}
        assert(ids_grow_from(m, m1));
        lemma_tabs_ids(m1, ev.tabs);
        let (m2, gone) = m1.after_tabs(ev.tabs);
        lemma_ids_grow_trans(m, m1, m2);
        if !gone {
            lemma_edits_ids(m2, ev.edits);
            lemma_ids_grow_trans(m, m2, m2.after_edits(ev.edits));
        }
    }
}

} // verus!
