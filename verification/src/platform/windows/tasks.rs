//! The registry of background tasks: names, states, and the rules for starting and
//! shutting down.
use vstd::prelude::*;

use crate::platform::{BackgroundTaskError, BackgroundTaskSnapshot, TaskState};
use crate::text::{concat, str_eq, trim, trim_str};
use crate::update::error::ErrorView;

verus! {

/// One registered task.
#[derive(Clone, Debug)]
pub struct TaskRecord {
    pub id: u64,
    pub name: String,
    pub state: TaskState,
}

/// The observable content of a record.
pub struct RecordView {
    pub id: u64,
    pub name: Seq<char>,
    pub state: TaskState,
}

pub open spec fn record_view(r: TaskRecord) -> RecordView {
    RecordView { id: r.id, name: r.name@, state: r.state }
}

/// The registry's state.
pub struct RegistryView {
    pub records: Seq<RecordView>,
    pub next_id: u64,
    pub shutting_down: bool,
}

/// No two running tasks share a name.
pub open spec fn running_names_unique(records: Seq<RecordView>) -> bool {
    forall|i: int, j: int|
        0 <= i < j < records.len() && records[i].state == TaskState::Running && records[j].state
            == TaskState::Running ==> #[trigger] records[i].name != #[trigger] records[j].name
}

pub open spec fn name_empty_view() -> ErrorView {
    ErrorView { code: "background_task_name_empty"@, message: "后台任务名称不能为空"@ }
}

pub open spec fn shutting_down_view() -> ErrorView {
    ErrorView { code: "background_tasks_shutting_down"@, message: "后台任务正在关闭，不能再启动新任务"@ }
}

pub open spec fn duplicate_view(name: Seq<char>) -> ErrorView {
    ErrorView { code: "background_task_name_duplicate"@, message: "后台任务名称重复："@ + name }
}

/// Whether a running task already carries `name`.
pub open spec fn running_with_name(records: Seq<RecordView>, name: Seq<char>) -> bool {
    exists|i: int| 0 <= i < records.len() && #[trigger] records[i].name == name && records[i].state
        == TaskState::Running
}

/// The registry of background tasks, in the order they were started.
#[derive(Debug)]
pub struct TaskRegistry {
    records: Vec<TaskRecord>,
    next_id: u64,
    shutting_down: bool,
}

impl View for TaskRegistry {
    type V = RegistryView;

    closed spec fn view(&self) -> RegistryView {
        RegistryView {
            records: self.records@.map_values(|r: TaskRecord| record_view(r)),
            next_id: self.next_id,
            shutting_down: self.shutting_down,
        }
    }
}

impl TaskRegistry {
    pub closed spec fn inv(&self) -> bool {
        running_names_unique(self@.records)
    }

    /// An empty registry; ids start at 1.
    pub fn new() -> (r: Self)
        ensures
            r.inv(),
            r@.records.len() == 0,
            r@.next_id == 1,
            !r@.shutting_down,
    {
        TaskRegistry { records: Vec::new(), next_id: 1, shutting_down: false }
    }

    fn has_running(&self, name: &str) -> (b: bool)
        ensures
            b == running_with_name(self@.records, name@),
    {
        let mut i: usize = 0;
        while i < self.records.len()
            invariant
                i <= self.records.len(),
                forall|k: int|
                    0 <= k < i ==> !(#[trigger] self@.records[k].name == name@ && self@.records[k].state
                        == TaskState::Running),
            decreases self.records.len() - i,
        {
            if self.records[i].state == TaskState::Running && str_eq(self.records[i].name.as_str(), name) {
                assert(self@.records[i as int].name == name@);
                return true;
            }
            i = i + 1;
        }
        false
    }

    /// Registers a task under its trimmed name and hands out its id. A blank name, a
    /// registry that is shutting down, and a name that a running task carries are refused.
    pub fn register(&mut self, name: &str) -> (r: Result<u64, BackgroundTaskError>)
        requires
            old(self).inv(),
        ensures
            final(self).inv(),
            trim(name@).len() == 0 ==> (r matches Err(e) && e@ == name_empty_view()) && final(self)@
                == old(self)@,
            trim(name@).len() > 0 && old(self)@.shutting_down ==> (r matches Err(e) && e@
                == shutting_down_view()) && final(self)@ == old(self)@,
            trim(name@).len() > 0 && !old(self)@.shutting_down && running_with_name(old(self)@.records, trim(name@))
                ==> (r matches Err(e) && e@ == duplicate_view(trim(name@))) && final(self)@ == old(self)@,
            trim(name@).len() > 0 && !old(self)@.shutting_down && !running_with_name(
                old(self)@.records,
                trim(name@),
            ) ==> r == Ok::<u64, BackgroundTaskError>(old(self)@.next_id) && final(self)@.records
                == old(self)@.records.push(
                RecordView { id: old(self)@.next_id, name: trim(name@), state: TaskState::Running },
            ) && final(self)@.next_id == (if old(self)@.next_id == u64::MAX {
                0
            } else {
                (old(self)@.next_id + 1) as u64
            }) && final(self)@.shutting_down == old(self)@.shutting_down,
    {
        let trimmed = trim_str(name);
        if trimmed.as_str().is_empty() {
            return Err(BackgroundTaskError::new("background_task_name_empty", "后台任务名称不能为空"));
        }
        if self.shutting_down {
            return Err(BackgroundTaskError::new("background_tasks_shutting_down", "后台任务正在关闭，不能再启动新任务"));
        }
        if self.has_running(trimmed.as_str()) {
            return Err(
                BackgroundTaskError::new(
                    "background_task_name_duplicate",
                    concat("后台任务名称重复：", trimmed.as_str()).as_str(),
                ),
            );
        }
        let id = self.next_id;
        self.next_id = self.next_id.wrapping_add(1);
        let ghost before = self@.records;
        let record = TaskRecord { id, name: trimmed, state: TaskState::Running };
        self.records.push(record);
        proof {
            assert(self@.records =~= before.push(record_view(record)));
            let rs = self@.records;
            assert forall|i: int, j: int|
                0 <= i < j < rs.len() && rs[i].state == TaskState::Running && rs[j].state
                    == TaskState::Running implies #[trigger] rs[i].name != #[trigger] rs[j].name by {
                if j == rs.len() - 1 {
                    assert(before[i] == rs[i]);
                    if rs[i].name == rs[j].name {
                        assert(before[i].name == trim(name@));
                        assert(running_with_name(before, trim(name@)));
                    }
                } else {
                    assert(before[i] == rs[i] && before[j] == rs[j]);
                }
            }
        }
        Ok(id)
    }

    /// Records the end state of every task with `id`; an unknown id changes nothing.
    pub fn update_record_state(&mut self, id: u64, state: TaskState)
        requires
            old(self).inv(),
            state != TaskState::Running,
        ensures
            final(self).inv(),
            final(self)@.next_id == old(self)@.next_id,
            final(self)@.shutting_down == old(self)@.shutting_down,
            final(self)@.records.len() == old(self)@.records.len(),
            forall|k: int|
                0 <= k < old(self)@.records.len() ==> (#[trigger] final(self)@.records[k]) == (if old(
                    self,
                )@.records[k].id == id {
                    RecordView { state, ..old(self)@.records[k] }
                } else {
                    old(self)@.records[k]
                }),
    {
        let mut i: usize = 0;
        while i < self.records.len()
            invariant
                i <= self.records.len(),
                self.records@.len() == old(self).records@.len(),
                self@.next_id == old(self)@.next_id,
                self@.shutting_down == old(self)@.shutting_down,
                forall|k: int|
                    0 <= k < i ==> (#[trigger] self@.records[k]) == (if old(self)@.records[k].id == id {
                        RecordView { state, ..old(self)@.records[k] }
                    } else {
                        old(self)@.records[k]
                    }),
                forall|k: int| i <= k < self@.records.len() ==> #[trigger] self@.records[k] == old(self)@.records[k],
                forall|k: int|
                    0 <= k < self@.records.len() ==> (#[trigger] self@.records[k]).state == TaskState::Running
                        ==> old(self)@.records[k].state == TaskState::Running && self@.records[k].name
                        == old(self)@.records[k].name,
                running_names_unique(old(self)@.records),
                state != TaskState::Running,
            decreases self.records.len() - i,
        {
            if self.records[i].id == id {
                let ghost before = self@.records;
                assert(before[i as int] == old(self)@.records[i as int]);
                let record = TaskRecord { id, name: self.records[i].name.clone(), state };
                assert(record_view(record) == RecordView { state, ..old(self)@.records[i as int] });
                self.records.set(i, record);
                proof {
                    assert(self@.records =~= before.update(i as int, record_view(record)));
                }
            }
            i = i + 1;
        }
    }

    /// At shutdown, tasks that did not finish in time end up as unknown.
    pub fn mark_running_unknown(&mut self)
        requires
            old(self).inv(),
        ensures
            final(self).inv(),
            final(self)@.next_id == old(self)@.next_id,
            final(self)@.shutting_down == old(self)@.shutting_down,
            final(self)@.records.len() == old(self)@.records.len(),
            forall|k: int|
                0 <= k < old(self)@.records.len() ==> (#[trigger] final(self)@.records[k]) == (if old(
                    self,
                )@.records[k].state == TaskState::Running {
                    RecordView { state: TaskState::Unknown, ..old(self)@.records[k] }
                } else {
                    old(self)@.records[k]
                }),
    {
        let mut i: usize = 0;
        while i < self.records.len()
            invariant
                i <= self.records.len(),
                self.records@.len() == old(self).records@.len(),
                self@.next_id == old(self)@.next_id,
                self@.shutting_down == old(self)@.shutting_down,
                forall|k: int|
                    0 <= k < i ==> (#[trigger] self@.records[k]) == (if old(self)@.records[k].state
                        == TaskState::Running {
                        RecordView { state: TaskState::Unknown, ..old(self)@.records[k] }
                    } else {
                        old(self)@.records[k]
                    }),
                forall|k: int| i <= k < self@.records.len() ==> #[trigger] self@.records[k] == old(self)@.records[k],
                forall|k: int|
                    0 <= k < self@.records.len() ==> (#[trigger] self@.records[k]).state == TaskState::Running
                        ==> old(self)@.records[k].state == TaskState::Running && self@.records[k].name
                        == old(self)@.records[k].name,
                running_names_unique(old(self)@.records),
            decreases self.records.len() - i,
        {
            if self.records[i].state == TaskState::Running {
                let record = TaskRecord {
                    id: self.records[i].id,
                    name: self.records[i].name.clone(),
                    state: TaskState::Unknown,
                };
                let ghost before = self@.records;
                assert(before[i as int] == old(self)@.records[i as int]);
                assert(record_view(record) == RecordView {
                    state: TaskState::Unknown,
                    ..old(self)@.records[i as int]
                });
                self.records.set(i, record);
                proof {
                    assert(self@.records =~= before.update(i as int, record_view(record)));
                }
            }
            i = i + 1;
        }
    }

    /// Starts shutting down; `true` when shutdown had already begun.
    pub fn begin_shutdown(&mut self) -> (r: bool)
        requires
            old(self).inv(),
        ensures
            final(self).inv(),
            r == old(self)@.shutting_down,
            final(self)@.shutting_down,
            final(self)@.records == old(self)@.records,
            final(self)@.next_id == old(self)@.next_id,
    {
        let was = self.shutting_down;
        self.shutting_down = true;
        was
    }

    pub fn is_shutting_down(&self) -> (b: bool)
        ensures
            b == self@.shutting_down,
    {
        self.shutting_down
    }

    /// Name and state of every task, in the order they were started.
    pub fn snapshots(&self) -> (r: Vec<BackgroundTaskSnapshot>)
        ensures
            r@.len() == self@.records.len(),
            forall|k: int|
                0 <= k < r@.len() ==> (#[trigger] r@[k]).name@ == self@.records[k].name && r@[k].state
                    == self@.records[k].state,
    {
        let mut out: Vec<BackgroundTaskSnapshot> = Vec::new();
        let mut i: usize = 0;
        while i < self.records.len()
            invariant
                i <= self.records.len(),
                out@.len() == i,
                forall|k: int|
                    0 <= k < i ==> (#[trigger] out@[k]).name@ == self@.records[k].name && out@[k].state
                        == self@.records[k].state,
            decreases self.records.len() - i,
        {
            out.push(BackgroundTaskSnapshot { name: self.records[i].name.clone(), state: self.records[i].state });
            i = i + 1;
        }
        out
    }
}

} // verus!
