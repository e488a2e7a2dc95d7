//! What holds of the supervisor's books whatever happens to them.

use vstd::prelude::*;
use crate::supervisor::{
    cancel_spec, is_admitted, is_fresh, is_place_of, knows, place_of, result_task_id, set_status_spec,
    start_spec, status_spec, stream_after_result, task_id_spec, task_status_spec, tasks_after_result,
    with_status,
};
use crate::taskmanager::{is_settled, may_follow, Task, TaskResult, TaskStatus};

verus! {

/// Something that happens to the books: a task is submitted, a job starts,
/// a task is cancelled, a job hands in a result, or a caller drains the
/// stream.
pub enum Happening {
    /// A submission with this entry; it is taken if the entry is pending
    /// and its identifier fresh, and refused otherwise.
    Submitted(Task),
    Started(Seq<char>),
    Cancelled(Seq<char>),
    Handed(TaskResult),
    Drained,
}

/// The books after a submission: the entry joins at the end if it is
/// pending and its identifier fresh; otherwise the books stay as they are.
pub open spec fn submit_spec(tasks: Seq<Task>, entry: Task) -> Seq<Task> {
    if is_fresh(tasks, task_id_spec(entry)) && task_status_spec(entry) is Pending {
        tasks.push(entry)
    } else {
        tasks
    }
}

/// Tasks and stream after one happening.
pub open spec fn books_after(tasks: Seq<Task>, stream: Seq<TaskResult>, happening: Happening) -> (
    Seq<Task>,
    Seq<TaskResult>,
) {
    match happening {
        Happening::Submitted(entry) => (submit_spec(tasks, entry), stream),
        Happening::Started(id) => (start_spec(tasks, id), stream),
        Happening::Cancelled(id) => (cancel_spec(tasks, id), stream),
        Happening::Handed(result) => (
            tasks_after_result(tasks, result),
            stream_after_result(tasks, stream, result),
        ),
        Happening::Drained => (tasks, Seq::empty()),
    }
}

/// Tasks and stream after a sequence of happenings.
pub open spec fn books_after_all(tasks: Seq<Task>, stream: Seq<TaskResult>, happenings: Seq<Happening>) -> (
    Seq<Task>,
    Seq<TaskResult>,
)
    decreases happenings.len(),
{
    if happenings.len() == 0 {
        (tasks, stream)
    } else {
        let next = books_after(tasks, stream, happenings[0]);
        books_after_all(next.0, next.1, happenings.drop_first())
    }
}

/// How many results of a stream belong to the given task.
pub open spec fn mentions(stream: Seq<TaskResult>, id: Seq<char>) -> nat
    decreases stream.len(),
{
    if stream.len() == 0 {
        0
    } else {
        mentions(stream.drop_last(), id) + (if result_task_id(stream.last()) == id {
            1nat
        } else {
            0nat
        })
    }
}

proof fn first_place(tasks: Seq<Task>, id: Seq<char>, bound: int) -> (first: int)
    requires
        0 <= bound < tasks.len(),
        task_id_spec(tasks[bound]) == id,
    ensures
        is_place_of(tasks, id, first),
        first <= bound,
    decreases bound,
{
    if exists|j: int| 0 <= j < bound && task_id_spec(#[trigger] tasks[j]) == id {
        let j = choose|j: int| 0 <= j < bound && task_id_spec(#[trigger] tasks[j]) == id;
        first_place(tasks, id, j)
    } else {
        bound
    }
}

/// A known task has exactly one place, that of the first task with its
/// identifier.
pub proof fn place_is_first(tasks: Seq<Task>, id: Seq<char>)
    requires
        knows(tasks, id),
    ensures
        is_place_of(tasks, id, place_of(tasks, id)),
        forall|i: int| is_place_of(tasks, id, i) ==> i == place_of(tasks, id),
{
    let some = choose|i: int| 0 <= i < tasks.len() && task_id_spec(#[trigger] tasks[i]) == id;
    let first = first_place(tasks, id, some);
    let chosen = place_of(tasks, id);
    assert(is_place_of(tasks, id, chosen));
    assert forall|i: int| is_place_of(tasks, id, i) implies i == chosen by {
        if i < chosen {
            assert(task_id_spec(tasks[i]) == id);
        } else if chosen < i {
            assert(task_id_spec(tasks[chosen]) == id);
        }
    }
}

proof fn status_after_change(tasks: Seq<Task>, id: Seq<char>, status: TaskStatus, other: Seq<char>)
    ensures
        knows(set_status_spec(tasks, id, status), other) == knows(tasks, other),
        status_spec(set_status_spec(tasks, id, status), other) == (if other == id && knows(tasks, id) {
            Some(status)
        } else {
            status_spec(tasks, other)
        }),
{
    let after = set_status_spec(tasks, id, status);
    if knows(tasks, id) {
        place_is_first(tasks, id);
        let at = place_of(tasks, id);
        assert(after.len() == tasks.len());
        assert forall|i: int| 0 <= i < tasks.len() implies task_id_spec(#[trigger] after[i])
            == task_id_spec(tasks[i]) by {
            if i == at {
                assert(after[i] == with_status(tasks[at], status));
            }
        }
        if knows(tasks, other) {
            place_is_first(tasks, other);
            let there = place_of(tasks, other);
            assert(task_id_spec(after[there]) == other);
            assert(knows(after, other));
            place_is_first(after, other);
            assert(is_place_of(after, other, there)) by {
                assert forall|j: int| 0 <= j < there implies task_id_spec(#[trigger] after[j])
                    != other by {
                    assert(task_id_spec(tasks[j]) != other);
                }
            }
            assert(place_of(after, other) == there);
            if other != id {
                assert(there != at);
                assert(after[there] == tasks[there]);
            } else {
                assert(there == at);
                assert(task_status_spec(with_status(tasks[at], status)) == status);
            }
        }
        if knows(after, other) {
            let k = choose|k: int| 0 <= k < after.len() && task_id_spec(#[trigger] after[k]) == other;
            assert(task_id_spec(tasks[k]) == other);
        }
    }
}

/// Changing the status of a task moves no task: every identifier is known
/// as before, the changed task has the new status, and every other task
/// stands as it stood.
pub proof fn status_change_is_local(tasks: Seq<Task>, id: Seq<char>, status: TaskStatus, other: Seq<char>)
    ensures
        knows(set_status_spec(tasks, id, status), other) == knows(tasks, other),
        knows(tasks, id) ==> status_spec(set_status_spec(tasks, id, status), id) == Some(status),
        other != id ==> status_spec(set_status_spec(tasks, id, status), other) == status_spec(
            tasks,
            other,
        ),
{
    status_after_change(tasks, id, status, other);
    status_after_change(tasks, id, status, id);
}

/// A result for a cancelled task goes nowhere: the stream stays as it is,
/// and so do the books.
pub proof fn cancelled_result_is_dropped(tasks: Seq<Task>, stream: Seq<TaskResult>, result: TaskResult)
    requires
        status_spec(tasks, result_task_id(result)) == Some(TaskStatus::Cancelled),
    ensures
        !is_admitted(tasks, result),
        tasks_after_result(tasks, result) == tasks,
        stream_after_result(tasks, stream, result) == stream,
{
}

/// Cancelling a task that is pending or running leaves it cancelled.
pub proof fn cancel_marks_cancelled(tasks: Seq<Task>, id: Seq<char>)
    requires
        status_spec(tasks, id) matches Some(status) && !is_settled(status),
    ensures
        status_spec(cancel_spec(tasks, id), id) == Some(TaskStatus::Cancelled),
{
    status_change_is_local(tasks, id, TaskStatus::Cancelled, id);
}

/// A task entered under a fresh identifier is found under it, as entered,
/// and every task that was in the books is found as before.
pub proof fn entry_is_found(tasks: Seq<Task>, entry: Task)
    requires
        !knows(tasks, task_id_spec(entry)),
    ensures
        status_spec(tasks.push(entry), task_id_spec(entry)) == Some(task_status_spec(entry)),
        forall|other: Seq<char>|
            knows(tasks, other) ==> #[trigger] status_spec(tasks.push(entry), other) == status_spec(
                tasks,
                other,
            ),
        forall|other: Seq<char>|
            other != task_id_spec(entry) ==> #[trigger] knows(tasks.push(entry), other) == knows(
                tasks,
                other,
            ),
{
    let id = task_id_spec(entry);
    let after = tasks.push(entry);
    let end = tasks.len() as int;
    assert(after[end] == entry);
    assert(knows(after, id));
    place_is_first(after, id);
    assert(is_place_of(after, id, end)) by {
        assert forall|j: int| 0 <= j < end implies task_id_spec(#[trigger] after[j]) != id by {
            assert(after[j] == tasks[j]);
        }
    }
    assert forall|other: Seq<char>| knows(tasks, other) implies #[trigger] status_spec(after, other)
        == status_spec(tasks, other) by {
        place_is_first(tasks, other);
        let there = place_of(tasks, other);
        assert(after[there] == tasks[there]);
        assert(knows(after, other));
        place_is_first(after, other);
        assert(is_place_of(after, other, there)) by {
            assert forall|j: int| 0 <= j < there implies task_id_spec(#[trigger] after[j])
                != other by {
                assert(after[j] == tasks[j]);
            }
        }
    }
    assert forall|other: Seq<char>| other != id implies #[trigger] knows(after, other) == knows(
        tasks,
        other,
    ) by {
        if knows(after, other) {
            let k = choose|k: int| 0 <= k < after.len() && task_id_spec(#[trigger] after[k]) == other;
            assert(k < end);
            assert(after[k] == tasks[k]);
        }
        if knows(tasks, other) {
            let k = choose|k: int| 0 <= k < tasks.len() && task_id_spec(#[trigger] tasks[k]) == other;
            assert(after[k] == tasks[k]);
        }
    }
}

/// Whatever happens to the books, submissions included, a task keeps to the
/// life cycle: it is entered as pending, then runs, then is settled as
/// completed, failed or cancelled, and once settled it stays as it is. No
/// task disappears, and a task appears only by a submission, pending.
pub proof fn status_moves_forward(tasks: Seq<Task>, stream: Seq<TaskResult>, happening: Happening, id: Seq<
    char,
>)
    ensures
        knows(tasks, id) ==> knows(books_after(tasks, stream, happening).0, id) && may_follow(
            status_spec(tasks, id)->Some_0,
            status_spec(books_after(tasks, stream, happening).0, id)->Some_0,
        ),
        !knows(tasks, id) && knows(books_after(tasks, stream, happening).0, id) ==> happening
            is Submitted && status_spec(books_after(tasks, stream, happening).0, id) == Some(
            TaskStatus::Pending,
        ),
{
    match happening {
        Happening::Submitted(entry) => {
            if is_fresh(tasks, task_id_spec(entry)) && task_status_spec(entry) is Pending {
                entry_is_found(tasks, entry);
            }
        },
        Happening::Started(started) => {
            status_change_is_local(tasks, started, TaskStatus::Running, id);
        },
        Happening::Cancelled(cancelled) => {
            status_change_is_local(tasks, cancelled, TaskStatus::Cancelled, id);
        },
        Happening::Handed(result) => {
            let settled = crate::supervisor::settles_as(result);
            if settled is Some {
                status_change_is_local(tasks, result_task_id(result), settled->Some_0, id);
            }
        },
        Happening::Drained => {},
    }
}

proof fn mentions_after_push(stream: Seq<TaskResult>, result: TaskResult, id: Seq<char>)
    ensures
        mentions(stream.push(result), id) == mentions(stream, id) + (if result_task_id(result) == id {
            1nat
        } else {
            0nat
        }),
{
    assert(stream.push(result).drop_last() =~= stream);
}

/// Once a task is cancelled, it stays cancelled and nothing more is heard
/// of it: whatever jobs hand in afterwards, and whatever else happens, the
/// stream never gains a result of that task.
pub proof fn cancelled_task_stays_silent(
    tasks: Seq<Task>,
    stream: Seq<TaskResult>,
    happenings: Seq<Happening>,
    id: Seq<char>,
)
    requires
        status_spec(tasks, id) == Some(TaskStatus::Cancelled),
    ensures
        status_spec(books_after_all(tasks, stream, happenings).0, id) == Some(TaskStatus::Cancelled),
        mentions(books_after_all(tasks, stream, happenings).1, id) <= mentions(stream, id),
    decreases happenings.len(),
{
    if happenings.len() > 0 {
        let next = books_after(tasks, stream, happenings[0]);
        status_moves_forward(tasks, stream, happenings[0], id);
        assert(status_spec(next.0, id) == Some(TaskStatus::Cancelled));
        assert(mentions(next.1, id) <= mentions(stream, id)) by {
            match happenings[0] {
                Happening::Handed(result) => {
                    if is_admitted(tasks, result) {
                        mentions_after_push(stream, result, id);
                        assert(result_task_id(result) != id);
                    }
                },
                Happening::Drained => {
                    assert(mentions(Seq::<TaskResult>::empty(), id) == 0);
                },
                _ => {},
            }
        }
        cancelled_task_stays_silent(next.0, next.1, happenings.drop_first(), id);
    }
}

/// Whether no two tasks share an identifier.
pub open spec fn ids_distinct(tasks: Seq<Task>) -> bool {
    forall|i: int, j: int|
        0 <= i < j < tasks.len() ==> task_id_spec(#[trigger] tasks[i]) != task_id_spec(
            #[trigger] tasks[j],
        )
}

/// The books never hold two tasks under one identifier: empty books hold
/// none, a submission enters a task under a fresh identifier only, and no
/// happening changes an identifier.
pub proof fn one_task_per_identifier(tasks: Seq<Task>, stream: Seq<TaskResult>, happening: Happening)
    requires
        ids_distinct(tasks),
    ensures
        ids_distinct(Seq::<Task>::empty()),
        ids_distinct(books_after(tasks, stream, happening).0),
{
    let later = books_after(tasks, stream, happening).0;
    assert(ids_distinct(later)) by {
        match happening {
            Happening::Submitted(entry) => {
                let id = task_id_spec(entry);
                if is_fresh(tasks, id) && task_status_spec(entry) is Pending {
                    assert forall|i: int, j: int| 0 <= i < j < later.len() implies task_id_spec(
                        #[trigger] later[i],
                    ) != task_id_spec(#[trigger] later[j]) by {
                        assert(later[i] == tasks[i]);
                        if j < tasks.len() {
                            assert(later[j] == tasks[j]);
                        } else {
                            assert(later[j] == entry);
                            assert(task_id_spec(tasks[i]) != id);
                        }
                    }
                }
            },
            Happening::Started(started) => {
                status_keeps_ids(tasks, started, TaskStatus::Running);
            },
            Happening::Cancelled(cancelled) => {
                status_keeps_ids(tasks, cancelled, TaskStatus::Cancelled);
            },
            Happening::Handed(result) => {
                let settled = crate::supervisor::settles_as(result);
                if settled is Some {
                    status_keeps_ids(tasks, result_task_id(result), settled->Some_0);
                }
            },
            Happening::Drained => {},
        }
    }
}

proof fn status_keeps_ids(tasks: Seq<Task>, id: Seq<char>, status: TaskStatus)
    requires
        ids_distinct(tasks),
    ensures
        ids_distinct(set_status_spec(tasks, id, status)),
{
    let after = set_status_spec(tasks, id, status);
    if knows(tasks, id) {
        place_is_first(tasks, id);
        let at = place_of(tasks, id);
        assert forall|i: int| 0 <= i < tasks.len() implies task_id_spec(#[trigger] after[i])
            == task_id_spec(tasks[i]) by {
            if i == at {
                assert(after[i] == with_status(tasks[at], status));
            }
        }
    }
}

} // verus!
