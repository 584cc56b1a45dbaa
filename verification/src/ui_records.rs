//! The UI backend's VM configurations and task queues, whose tasks carry
//! identifiers of their own.
use vstd::prelude::*;
use crate::external::{is_uuid_v4_text, is_utc_rfc3339_text, new_uuid_v4, now_rfc3339};
use crate::keys::{Keyed, keys_of, lookup, views_of, position_by_key, lemma_index_bounds};
use crate::registry::{Duplicate, NotFound, Registry, duplicate_all};
use crate::text::{copy_opt_string, opt_chars};

verus! {

/// A VM configuration: which agent operates which VM.
pub struct VmConfig {
    pub id: String,
    pub name: String,
    pub agent_id: String,
    pub enabled: bool,
    pub created_at: String,
    pub updated_at: String,
}

/// The contents of a VM configuration.
pub struct VmConfigView {
    pub id: Seq<char>,
    pub name: Seq<char>,
    pub agent_id: Seq<char>,
    pub enabled: bool,
    pub created_at: Seq<char>,
    pub updated_at: Seq<char>,
}

impl View for VmConfig {
    type V = VmConfigView;

    open spec fn view(&self) -> VmConfigView {
        VmConfigView {
            id: self.id@,
            name: self.name@,
            agent_id: self.agent_id@,
            enabled: self.enabled,
            created_at: self.created_at@,
            updated_at: self.updated_at@,
        }
    }
}

impl Keyed for VmConfig {
    open spec fn view_key(v: VmConfigView) -> Seq<char> {
        v.id
    }

    fn key(&self) -> (k: &String) {
        &self.id
    }
}

impl Duplicate for VmConfig {
    fn duplicate(&self) -> (c: Self) {
        VmConfig {
            id: self.id.clone(),
            name: self.name.clone(),
            agent_id: self.agent_id.clone(),
            enabled: self.enabled,
            created_at: self.created_at.clone(),
            updated_at: self.updated_at.clone(),
        }
    }
}

/// The fields of a new VM configuration; it starts enabled.
pub struct CreateVmConfig {
    pub name: String,
    pub agent_id: String,
}

/// The fields to change in a VM configuration; `None` keeps a field.
pub struct UpdateVmConfig {
    pub name: Option<String>,
    pub agent_id: Option<String>,
    pub enabled: Option<bool>,
}

/// The configuration created from `payload` with identifier `id` at `now`.
pub open spec fn new_vm_config(payload: CreateVmConfig, id: Seq<char>, now: Seq<char>) -> VmConfigView {
    VmConfigView {
        id,
        name: payload.name@,
        agent_id: payload.agent_id@,
        enabled: true,
        created_at: now,
        updated_at: now,
    }
}

/// `old` with the fields that `patch` sets replaced, stamped `now`.
pub open spec fn patched_vm_config(old: VmConfigView, patch: UpdateVmConfig, now: Seq<char>) -> VmConfigView {
    VmConfigView {
        id: old.id,
        name: match opt_chars(patch.name) {
            Some(n) => n,
            None => old.name,
        },
        agent_id: match opt_chars(patch.agent_id) {
            Some(a) => a,
            None => old.agent_id,
        },
        enabled: match patch.enabled {
            Some(e) => e,
            None => old.enabled,
        },
        created_at: old.created_at,
        updated_at: now,
    }
}

/// A task of a queue.
pub struct Task {
    pub id: String,
    pub description: String,
    pub keystrokes: Option<String>,
    pub delay_ms: Option<u64>,
    pub completed: bool,
}

/// The contents of a task.
pub struct TaskView {
    pub id: Seq<char>,
    pub description: Seq<char>,
    pub keystrokes: Option<Seq<char>>,
    pub delay_ms: Option<u64>,
    pub completed: bool,
}

impl View for Task {
    type V = TaskView;

    open spec fn view(&self) -> TaskView {
        TaskView {
            id: self.id@,
            description: self.description@,
            keystrokes: opt_chars(self.keystrokes),
            delay_ms: self.delay_ms,
            completed: self.completed,
        }
    }
}

impl Keyed for Task {
    open spec fn view_key(v: TaskView) -> Seq<char> {
        v.id
    }

    fn key(&self) -> (k: &String) {
        &self.id
    }
}

impl Duplicate for Task {
    fn duplicate(&self) -> (c: Self) {
        Task {
            id: self.id.clone(),
            description: self.description.clone(),
            keystrokes: copy_opt_string(&self.keystrokes),
            delay_ms: self.delay_ms,
            completed: self.completed,
        }
    }
}

/// The fields of a new task.
pub struct CreateTask {
    pub description: String,
    pub keystrokes: Option<String>,
    pub delay_ms: Option<u64>,
}

/// The contents of a new task's fields.
pub struct CreateTaskView {
    pub description: Seq<char>,
    pub keystrokes: Option<Seq<char>>,
    pub delay_ms: Option<u64>,
}

impl View for CreateTask {
    type V = CreateTaskView;

    open spec fn view(&self) -> CreateTaskView {
        CreateTaskView {
            description: self.description@,
            keystrokes: opt_chars(self.keystrokes),
            delay_ms: self.delay_ms,
        }
    }
}

/// The task made from `fields` with identifier `id`: not completed.
pub open spec fn new_task(fields: CreateTaskView, id: Seq<char>) -> TaskView {
    TaskView {
        id,
        description: fields.description,
        keystrokes: fields.keystrokes,
        delay_ms: fields.delay_ms,
        completed: false,
    }
}

/// The tasks made from `fields`, the `i`th under identifier `ids[i]`.
pub open spec fn new_tasks(fields: Seq<CreateTaskView>, ids: Seq<Seq<char>>) -> Seq<TaskView> {
    Seq::new(fields.len(), |i: int| new_task(fields[i], ids[i]))
}

/// A queue of tasks for a VM, which may run round and round.
pub struct TaskQueue {
    pub id: String,
    pub vm_id: String,
    pub name: String,
    pub tasks: Vec<Task>,
    pub loop_enabled: bool,
    pub enabled: bool,
    pub created_at: String,
    pub updated_at: String,
}

/// The contents of a task queue.
pub struct TaskQueueView {
    pub id: Seq<char>,
    pub vm_id: Seq<char>,
    pub name: Seq<char>,
    pub tasks: Seq<TaskView>,
    pub loop_enabled: bool,
    pub enabled: bool,
    pub created_at: Seq<char>,
    pub updated_at: Seq<char>,
}

impl View for TaskQueue {
    type V = TaskQueueView;

    open spec fn view(&self) -> TaskQueueView {
        TaskQueueView {
            id: self.id@,
            vm_id: self.vm_id@,
            name: self.name@,
            tasks: views_of(self.tasks@),
            loop_enabled: self.loop_enabled,
            enabled: self.enabled,
            created_at: self.created_at@,
            updated_at: self.updated_at@,
        }
    }
}

impl Keyed for TaskQueue {
    open spec fn view_key(v: TaskQueueView) -> Seq<char> {
        v.id
    }

    fn key(&self) -> (k: &String) {
        &self.id
    }
}

impl Duplicate for TaskQueue {
    fn duplicate(&self) -> (c: Self) {
        TaskQueue {
            id: self.id.clone(),
            vm_id: self.vm_id.clone(),
            name: self.name.clone(),
            tasks: duplicate_all(&self.tasks),
            loop_enabled: self.loop_enabled,
            enabled: self.enabled,
            created_at: self.created_at.clone(),
            updated_at: self.updated_at.clone(),
        }
    }
}

/// The fields of a new task queue; it starts enabled, with no tasks and
/// without looping unless the fields say otherwise.
pub struct CreateTaskQueue {
    pub vm_id: String,
    pub name: String,
    pub tasks: Option<Vec<CreateTask>>,
    pub loop_enabled: Option<bool>,
}

/// The fields to change in a task queue; `None` keeps a field. New tasks
/// replace all of the queue's tasks.
pub struct UpdateTaskQueue {
    pub name: Option<String>,
    pub tasks: Option<Vec<CreateTask>>,
    pub loop_enabled: Option<bool>,
    pub enabled: Option<bool>,
}

/// The task fields of a creation request (none where it names no tasks).
pub open spec fn requested_tasks(tasks: Option<Vec<CreateTask>>) -> Seq<CreateTaskView> {
    match tasks {
        Some(t) => views_of(t@),
        None => Seq::empty(),
    }
}

/// The queue created from `payload` with identifier `id`, task identifiers
/// `task_ids`, at `now`.
pub open spec fn new_task_queue(
    payload: CreateTaskQueue,
    id: Seq<char>,
    task_ids: Seq<Seq<char>>,
    now: Seq<char>,
) -> TaskQueueView {
    TaskQueueView {
        id,
        vm_id: payload.vm_id@,
        name: payload.name@,
        tasks: new_tasks(requested_tasks(payload.tasks), task_ids),
        loop_enabled: match payload.loop_enabled {
            Some(l) => l,
            None => false,
        },
        enabled: true,
        created_at: now,
        updated_at: now,
    }
}

/// `old` with the fields that `patch` sets replaced (new tasks under
/// identifiers `task_ids`), stamped `now`.
pub open spec fn patched_task_queue(
    old: TaskQueueView,
    patch: UpdateTaskQueue,
    task_ids: Seq<Seq<char>>,
    now: Seq<char>,
) -> TaskQueueView {
    TaskQueueView {
        id: old.id,
        vm_id: old.vm_id,
        name: match opt_chars(patch.name) {
            Some(n) => n,
            None => old.name,
        },
        tasks: match patch.tasks {
            Some(t) => new_tasks(views_of(t@), task_ids),
            None => old.tasks,
        },
        loop_enabled: match patch.loop_enabled {
            Some(l) => l,
            None => old.loop_enabled,
        },
        enabled: match patch.enabled {
            Some(e) => e,
            None => old.enabled,
        },
        created_at: old.created_at,
        updated_at: now,
    }
}

/// Makes the tasks of `fields`, the `i`th under identifier `ids[i]`.
pub fn make_tasks(fields: Vec<CreateTask>, ids: Vec<String>) -> (tasks: Vec<Task>)
    requires
        ids@.len() == fields@.len(),
    ensures
        tasks@.len() == fields@.len(),
        forall|j: int|
            #![trigger tasks@[j]]
            0 <= j < fields@.len() ==> {
                &&& tasks@[j]@.id == ids@[j]@
                &&& tasks@[j]@.description == fields@[j].description@
                &&& tasks@[j]@.keystrokes == opt_chars(fields@[j].keystrokes)
                &&& tasks@[j]@.delay_ms == fields@[j].delay_ms
                &&& !tasks@[j]@.completed
            },
        views_of(tasks@) == new_tasks(views_of(fields@), views_of(ids@)),
{
    let ghost field_views = views_of(fields@);
    let ghost id_views = views_of(ids@);
    let ghost fields0 = fields@;
    let ghost ids0 = ids@;
    let n = fields.len();
    let mut fields = fields;
    let mut ids = ids;
    let mut tasks: Vec<Task> = Vec::new();
    let mut i: usize = 0;
    while i < n
        invariant
            n == field_views.len(),
            n == id_views.len(),
            i <= n,
            fields@.len() == n - i,
            ids@.len() == n - i,
            views_of(fields@) == field_views.subrange(i as int, n as int),
            views_of(ids@) == id_views.subrange(i as int, n as int),
            views_of(tasks@) == new_tasks(field_views, id_views).subrange(0, i as int),
        decreases n - i,
    {
        assert(views_of(fields@)[0] == field_views[i as int]);
        assert(views_of(ids@)[0] == id_views[i as int]);
        let ghost old_fields = fields@;
        let ghost old_ids = ids@;
        let f = fields.remove(0);
        let id = ids.remove(0);
        assert(views_of(fields@) =~= views_of(old_fields).subrange(1, old_fields.len() as int));
        assert(views_of(ids@) =~= views_of(old_ids).subrange(1, old_ids.len() as int));
        assert(f@ == field_views[i as int]);
        assert(id@ == id_views[i as int]);
        let ghost prev = tasks@;
        tasks.push(Task {
            id,
            description: f.description,
            keystrokes: f.keystrokes,
            delay_ms: f.delay_ms,
            completed: false,
        });
        assert(views_of(tasks@) =~= views_of(prev).push(new_task(field_views[i as int], id_views[i as int])));
        i = i + 1;
        assert(views_of(fields@) =~= field_views.subrange(i as int, n as int));
        assert(views_of(ids@) =~= id_views.subrange(i as int, n as int));
        assert(views_of(tasks@) =~= new_tasks(field_views, id_views).subrange(0, i as int));
    }
    assert(new_tasks(field_views, id_views).subrange(0, n as int) =~= new_tasks(field_views, id_views));
    assert forall|j: int| #![trigger tasks@[j]] 0 <= j < fields0.len() implies {
        &&& tasks@[j]@.id == ids0[j]@
        &&& tasks@[j]@.description == fields0[j].description@
        &&& tasks@[j]@.keystrokes == opt_chars(fields0[j].keystrokes)
        &&& tasks@[j]@.delay_ms == fields0[j].delay_ms
        &&& !tasks@[j]@.completed
    } by {
        assert(views_of(tasks@)[j] == tasks@[j]@);
        assert(field_views[j] == fields0[j]@);
        assert(id_views[j] == ids0[j]@);
    }
    tasks
}

/// The identifiers of a sequence of tasks.
pub open spec fn task_ids(tasks: Seq<TaskView>) -> Seq<Seq<char>> {
    tasks.map_values(|t: TaskView| t.id)
}

/// Every identifier has the shape of a random UUID.
pub open spec fn all_uuid_v4(ids: Seq<Seq<char>>) -> bool {
    forall|i: int| 0 <= i < ids.len() ==> is_uuid_v4_text(#[trigger] ids[i])
}

/// `n` fresh random identifiers.
fn fresh_ids(n: usize) -> (ids: Vec<String>)
    ensures
        ids@.len() == n,
        all_uuid_v4(views_of(ids@)),
{
    let mut ids: Vec<String> = Vec::new();
    let mut i: usize = 0;
    while i < n
        invariant
            i <= n,
            ids@.len() == i,
            all_uuid_v4(views_of(ids@)),
        decreases n - i,
    {
        let id = new_uuid_v4();
        let ghost prev = ids@;
        ids.push(id);
        assert(views_of(ids@) =~= views_of(prev).push(id@));
        i = i + 1;
    }
    ids
}

/// Makes the tasks of `fields`, each under a fresh random identifier.
pub fn fresh_tasks(fields: Vec<CreateTask>) -> (tasks: Vec<Task>)
    ensures
        views_of(tasks@) == new_tasks(views_of(fields@), task_ids(views_of(tasks@))),
        all_uuid_v4(task_ids(views_of(tasks@))),
{
    let ids = fresh_ids(fields.len());
    let ghost id_views = views_of(ids@);
    let tasks = make_tasks(fields, ids);
    assert(task_ids(views_of(tasks@)) =~= id_views);
    tasks
}

impl Registry<VmConfig> {
    /// All configurations, copied, in insertion order.
    pub fn list_vm_configs(&self) -> (all: Vec<VmConfig>)
        ensures
            views_of(all@) == self@,
    {
        duplicate_all(self.records())
    }

    /// Appends the configuration made from `payload` with identifier `id`,
    /// created and updated at `now`, and returns it.
    pub fn create_vm_config(&mut self, payload: CreateVmConfig, id: String, now: String) -> (c: VmConfig)
        ensures
            c@.id == id@,
            c@.name == payload.name@,
            c@.agent_id == payload.agent_id@,
            c@.enabled,
            c@.created_at == now@,
            c@.updated_at == now@,
            c@ == new_vm_config(payload, id@, now@),
            final(self)@ == old(self)@.push(c@),
    {
        let config = VmConfig {
            id,
            name: payload.name,
            agent_id: payload.agent_id,
            enabled: true,
            created_at: now.clone(),
            updated_at: now,
        };
        let copy = config.duplicate();
        self.push(config);
        copy
    }

    /// Appends a configuration made from `payload` under a fresh random
    /// identifier, stamped with the current time, and returns it.
    pub fn create_vm_config_now(&mut self, payload: CreateVmConfig) -> (c: VmConfig)
        ensures
            c@.name == payload.name@,
            c@.agent_id == payload.agent_id@,
            c@.enabled,
            c@.created_at == c@.updated_at,
            is_uuid_v4_text(c@.id),
            is_utc_rfc3339_text(c@.created_at),
            c@ == new_vm_config(payload, c@.id, c@.created_at),
            final(self)@ == old(self)@.push(c@),
    {
        let now = now_rfc3339();
        let id = new_uuid_v4();
        self.create_vm_config(payload, id, now)
    }

    /// A copy of the first configuration with identifier `id`.
    pub fn get_vm_config(&self, id: &String) -> (r: Result<VmConfig, NotFound>)
        ensures
            match lookup::<VmConfig>(self@, id@) {
                Some(v) => r matches Ok(c) && c@ == v,
                None => r == Err::<VmConfig, NotFound>(NotFound),
            },
    {
        match self.find(id) {
            Ok(c) => Ok(c.duplicate()),
            Err(e) => Err(e),
        }
    }

    fn apply_vm_config_update(&mut self, i: usize, patch: UpdateVmConfig, now: String) -> (c: VmConfig)
        requires
            i < old(self)@.len(),
        ensures
            c@ == patched_vm_config(old(self)@[i as int], patch, now@),
            final(self)@ == old(self)@.update(i as int, c@),
    {
        let mut config = self.at(i).duplicate();
        match patch.name {
            Some(name) => {
                config.name = name;
            },
            None => {},
        }
        match patch.agent_id {
            Some(agent_id) => {
                config.agent_id = agent_id;
            },
            None => {},
        }
        match patch.enabled {
            Some(enabled) => {
                config.enabled = enabled;
            },
            None => {},
        }
        config.updated_at = now;
        let copy = config.duplicate();
        self.set_at(i, config);
        copy
    }

    /// Applies `patch` to the first configuration with identifier `id`,
    /// stamps it `now` and returns it; the other configurations stay.
    pub fn update_vm_config(&mut self, id: &String, patch: UpdateVmConfig, now: String) -> (r: Result<VmConfig, NotFound>)
        ensures
            match keys_of::<VmConfig>(old(self)@).index_of_first(id@) {
                Some(i) => r matches Ok(c) && {
                    &&& c@.id == old(self)@[i].id
                    &&& (match patch.name { Some(v) => c@.name == v@, None => c@.name == old(self)@[i].name })
                    &&& (match patch.agent_id { Some(v) => c@.agent_id == v@, None => c@.agent_id == old(self)@[i].agent_id })
                    &&& (match patch.enabled { Some(v) => c@.enabled == v, None => c@.enabled == old(self)@[i].enabled })
                    &&& c@.created_at == old(self)@[i].created_at
                    &&& c@.updated_at == now@
                    &&& final(self)@[i] == c@
                    &&& final(self)@.len() == old(self)@.len()
                    &&& forall|k: int| 0 <= k < old(self)@.len() && k != i ==> #[trigger] final(self)@[k] == old(self)@[k]
                },
                None => true,
            },
            match keys_of::<VmConfig>(old(self)@).index_of_first(id@) {
                Some(i) => r matches Ok(c) && c@ == patched_vm_config(old(self)@[i], patch, now@)
                    && final(self)@ == old(self)@.update(i, c@),
                None => r == Err::<VmConfig, NotFound>(NotFound) && final(self)@ == old(self)@,
            },
    {
        match self.position(id) {
            Some(i) => Ok(self.apply_vm_config_update(i, patch, now)),
            None => Err(NotFound),
        }
    }

    /// Applies `patch` to the first configuration with identifier `id`,
    /// stamped with the current time.
    pub fn update_vm_config_now(&mut self, id: &String, patch: UpdateVmConfig) -> (r: Result<VmConfig, NotFound>)
        ensures
            match keys_of::<VmConfig>(old(self)@).index_of_first(id@) {
                Some(i) => r matches Ok(c) && {
                    &&& c@.id == old(self)@[i].id
                    &&& (match patch.name { Some(v) => c@.name == v@, None => c@.name == old(self)@[i].name })
                    &&& (match patch.agent_id { Some(v) => c@.agent_id == v@, None => c@.agent_id == old(self)@[i].agent_id })
                    &&& (match patch.enabled { Some(v) => c@.enabled == v, None => c@.enabled == old(self)@[i].enabled })
                    &&& c@.created_at == old(self)@[i].created_at
                    &&& true
                    &&& final(self)@[i] == c@
                    &&& final(self)@.len() == old(self)@.len()
                    &&& forall|k: int| 0 <= k < old(self)@.len() && k != i ==> #[trigger] final(self)@[k] == old(self)@[k]
                },
                None => true,
            },
            match keys_of::<VmConfig>(old(self)@).index_of_first(id@) {
                Some(i) => r matches Ok(c) && c@ == patched_vm_config(old(self)@[i], patch, c@.updated_at)
                    && is_utc_rfc3339_text(c@.updated_at)
                    && final(self)@ == old(self)@.update(i, c@),
                None => r == Err::<VmConfig, NotFound>(NotFound) && final(self)@ == old(self)@,
            },
    {
        match self.position(id) {
            Some(i) => {
                let now = now_rfc3339();
                Ok(self.apply_vm_config_update(i, patch, now))
            },
            None => Err(NotFound),
        }
    }

    /// Removes the first configuration with identifier `id`.
    pub fn delete_vm_config(&mut self, id: &String) -> (r: Result<(), NotFound>)
        ensures
            match keys_of::<VmConfig>(old(self)@).index_of_first(id@) {
                Some(i) => r is Ok && final(self)@ == old(self)@.remove(i),
                None => r == Err::<(), NotFound>(NotFound) && final(self)@ == old(self)@,
            },
    {
        match self.remove(id) {
            Ok(_) => Ok(()),
            Err(e) => Err(e),
        }
    }
}

/// `queue` with `tasks` as its tasks, stamped `now`.
pub open spec fn with_tasks(queue: TaskQueueView, tasks: Seq<TaskView>, now: Seq<char>) -> TaskQueueView {
    TaskQueueView { tasks, updated_at: now, ..queue }
}

impl Registry<TaskQueue> {
    /// All task queues, copied, in insertion order.
    pub fn list_task_queues(&self) -> (all: Vec<TaskQueue>)
        ensures
            views_of(all@) == self@,
    {
        duplicate_all(self.records())
    }

    /// Appends the queue made from `payload` with identifier `id`, its tasks
    /// under `task_ids` in order, created and updated at `now`; returns it.
    pub fn create_task_queue(
        &mut self,
        payload: CreateTaskQueue,
        id: String,
        task_ids: Vec<String>,
        now: String,
    ) -> (q: TaskQueue)
        requires
            task_ids@.len() == requested_tasks(payload.tasks).len(),
        ensures
            q@.id == id@,
            q@.created_at == now@,
            q@.updated_at == now@,
            q@.vm_id == payload.vm_id@,
            q@.name == payload.name@,
            q@.enabled,
            (match payload.loop_enabled { Some(l) => q@.loop_enabled == l, None => !q@.loop_enabled }),
            payload.tasks is None ==> q@.tasks.len() == 0,
            payload.tasks matches Some(t) ==> q@.tasks.len() == t@.len() && (forall|j: int|
                        #![trigger q@.tasks[j]]
                        0 <= j < t@.len() ==> {
                            &&& q@.tasks[j].description == t@[j].description@
                            &&& q@.tasks[j].keystrokes == opt_chars(t@[j].keystrokes)
                            &&& q@.tasks[j].delay_ms == t@[j].delay_ms
                            &&& !q@.tasks[j].completed
                            &&& q@.tasks[j].id == task_ids@[j]@
                        }),
            q@ == new_task_queue(payload, id@, views_of(task_ids@), now@),
            final(self)@ == old(self)@.push(q@),
    {
        let ghost requested = requested_tasks(payload.tasks);
        let fields = match payload.tasks {
            Some(t) => t,
            None => Vec::new(),
        };
        assert(views_of(fields@) =~= requested);
        let tasks = make_tasks(fields, task_ids);
        let loop_enabled = match payload.loop_enabled {
            Some(l) => l,
            None => false,
        };
        let queue = TaskQueue {
            id,
            vm_id: payload.vm_id,
            name: payload.name,
            tasks,
            loop_enabled,
            enabled: true,
            created_at: now.clone(),
            updated_at: now,
        };
        let copy = queue.duplicate();
        self.push(queue);
        copy
    }

    /// Appends a queue made from `payload`, its tasks and itself under fresh
    /// random identifiers, stamped with the current time; returns it.
    pub fn create_task_queue_now(&mut self, payload: CreateTaskQueue) -> (q: TaskQueue)
        ensures
            q@.created_at == q@.updated_at,
            q@.vm_id == payload.vm_id@,
            q@.name == payload.name@,
            q@.enabled,
            (match payload.loop_enabled { Some(l) => q@.loop_enabled == l, None => !q@.loop_enabled }),
            payload.tasks is None ==> q@.tasks.len() == 0,
            payload.tasks matches Some(t) ==> q@.tasks.len() == t@.len() && (forall|j: int|
                        #![trigger q@.tasks[j]]
                        0 <= j < t@.len() ==> {
                            &&& q@.tasks[j].description == t@[j].description@
                            &&& q@.tasks[j].keystrokes == opt_chars(t@[j].keystrokes)
                            &&& q@.tasks[j].delay_ms == t@[j].delay_ms
                            &&& !q@.tasks[j].completed
                            &&& is_uuid_v4_text(q@.tasks[j].id)
                        }),
            is_uuid_v4_text(q@.id),
            is_utc_rfc3339_text(q@.created_at),
            all_uuid_v4(task_ids(q@.tasks)),
            q@ == new_task_queue(payload, q@.id, task_ids(q@.tasks), q@.created_at),
            final(self)@ == old(self)@.push(q@),
    {
        let now = now_rfc3339();
        let n = match &payload.tasks {
            Some(t) => t.len(),
            None => 0,
        };
        let fresh = fresh_ids(n);
        let id = new_uuid_v4();
        let ghost ids = views_of(fresh@);
        let q = self.create_task_queue(payload, id, fresh, now);
        assert(task_ids(q@.tasks) =~= ids);
        q
    }

    /// A copy of the first queue with identifier `id`.
    pub fn get_task_queue(&self, id: &String) -> (r: Result<TaskQueue, NotFound>)
        ensures
            match lookup::<TaskQueue>(self@, id@) {
                Some(v) => r matches Ok(q) && q@ == v,
                None => r == Err::<TaskQueue, NotFound>(NotFound),
            },
    {
        match self.find(id) {
            Ok(q) => Ok(q.duplicate()),
            Err(e) => Err(e),
        }
    }

    fn apply_task_queue_update(
        &mut self,
        i: usize,
        patch: UpdateTaskQueue,
        task_ids: Vec<String>,
        now: String,
    ) -> (q: TaskQueue)
        requires
            i < old(self)@.len(),
            patch.tasks matches Some(t) ==> task_ids@.len() == t@.len(),
        ensures
            q@ == patched_task_queue(old(self)@[i as int], patch, views_of(task_ids@), now@),
            final(self)@ == old(self)@.update(i as int, q@),
    {
        let mut queue = self.at(i).duplicate();
        match patch.name {
            Some(name) => {
                queue.name = name;
            },
            None => {},
        }
        match patch.tasks {
            Some(fields) => {
                queue.tasks = make_tasks(fields, task_ids);
            },
            None => {},
        }
        match patch.loop_enabled {
            Some(loop_enabled) => {
                queue.loop_enabled = loop_enabled;
            },
            None => {},
        }
        match patch.enabled {
            Some(enabled) => {
                queue.enabled = enabled;
            },
            None => {},
        }
        queue.updated_at = now;
        let copy = queue.duplicate();
        self.set_at(i, queue);
        copy
    }

    /// Applies `patch` to the first queue with identifier `id` (new tasks
    /// under `task_ids` in order), stamps it `now` and returns it; the other
    /// queues stay.
    pub fn update_task_queue(
        &mut self,
        id: &String,
        patch: UpdateTaskQueue,
        task_ids: Vec<String>,
        now: String,
    ) -> (r: Result<TaskQueue, NotFound>)
        requires
            patch.tasks matches Some(t) ==> task_ids@.len() == t@.len(),
        ensures
            match keys_of::<TaskQueue>(old(self)@).index_of_first(id@) {
                Some(i) => r matches Ok(q) && {
                    &&& q@.id == old(self)@[i].id
                    &&& q@.vm_id == old(self)@[i].vm_id
                    &&& (match patch.name { Some(v) => q@.name == v@, None => q@.name == old(self)@[i].name })
                    &&& (match patch.tasks {
                        Some(t) => q@.tasks.len() == t@.len() && (forall|j: int|
                        #![trigger q@.tasks[j]]
                        0 <= j < t@.len() ==> {
                            &&& q@.tasks[j].description == t@[j].description@
                            &&& q@.tasks[j].keystrokes == opt_chars(t@[j].keystrokes)
                            &&& q@.tasks[j].delay_ms == t@[j].delay_ms
                            &&& !q@.tasks[j].completed
                            &&& q@.tasks[j].id == task_ids@[j]@
                        }),
                        None => q@.tasks == old(self)@[i].tasks,
                    })
                    &&& (match patch.loop_enabled { Some(v) => q@.loop_enabled == v, None => q@.loop_enabled == old(self)@[i].loop_enabled })
                    &&& (match patch.enabled { Some(v) => q@.enabled == v, None => q@.enabled == old(self)@[i].enabled })
                    &&& q@.created_at == old(self)@[i].created_at
                    &&& q@.updated_at == now@
                    &&& final(self)@[i] == q@
                    &&& final(self)@.len() == old(self)@.len()
                    &&& forall|k: int| 0 <= k < old(self)@.len() && k != i ==> #[trigger] final(self)@[k] == old(self)@[k]
                },
                None => true,
            },
            match keys_of::<TaskQueue>(old(self)@).index_of_first(id@) {
                Some(i) => r matches Ok(q) && q@ == patched_task_queue(
                    old(self)@[i],
                    patch,
                    views_of(task_ids@),
                    now@,
                ) && final(self)@ == old(self)@.update(i, q@),
                None => r == Err::<TaskQueue, NotFound>(NotFound) && final(self)@ == old(self)@,
            },
    {
        match self.position(id) {
            Some(i) => Ok(self.apply_task_queue_update(i, patch, task_ids, now)),
            None => Err(NotFound),
        }
    }

    /// Applies `patch` to the first queue with identifier `id`, new tasks
    /// under fresh random identifiers, stamped with the current time.
    pub fn update_task_queue_now(&mut self, id: &String, patch: UpdateTaskQueue) -> (r: Result<TaskQueue, NotFound>)
        ensures
            match keys_of::<TaskQueue>(old(self)@).index_of_first(id@) {
                Some(i) => r matches Ok(q) && {
                    &&& q@.id == old(self)@[i].id
                    &&& q@.vm_id == old(self)@[i].vm_id
                    &&& (match patch.name { Some(v) => q@.name == v@, None => q@.name == old(self)@[i].name })
                    &&& (match patch.tasks {
                        Some(t) => q@.tasks.len() == t@.len() && (forall|j: int|
                        #![trigger q@.tasks[j]]
                        0 <= j < t@.len() ==> {
                            &&& q@.tasks[j].description == t@[j].description@
                            &&& q@.tasks[j].keystrokes == opt_chars(t@[j].keystrokes)
                            &&& q@.tasks[j].delay_ms == t@[j].delay_ms
                            &&& !q@.tasks[j].completed
                            &&& is_uuid_v4_text(q@.tasks[j].id)
                        }),
                        None => q@.tasks == old(self)@[i].tasks,
                    })
                    &&& (match patch.loop_enabled { Some(v) => q@.loop_enabled == v, None => q@.loop_enabled == old(self)@[i].loop_enabled })
                    &&& (match patch.enabled { Some(v) => q@.enabled == v, None => q@.enabled == old(self)@[i].enabled })
                    &&& q@.created_at == old(self)@[i].created_at
                    &&& true
                    &&& final(self)@[i] == q@
                    &&& final(self)@.len() == old(self)@.len()
                    &&& forall|k: int| 0 <= k < old(self)@.len() && k != i ==> #[trigger] final(self)@[k] == old(self)@[k]
                },
                None => true,
            },
            match keys_of::<TaskQueue>(old(self)@).index_of_first(id@) {
                Some(i) => r matches Ok(q) && q@ == patched_task_queue(
                    old(self)@[i],
                    patch,
                    task_ids(q@.tasks),
                    q@.updated_at,
                ) && is_utc_rfc3339_text(q@.updated_at) && final(self)@ == old(self)@.update(i, q@)
                    && (patch.tasks is Some ==> all_uuid_v4(task_ids(q@.tasks))),
                None => r == Err::<TaskQueue, NotFound>(NotFound) && final(self)@ == old(self)@,
            },
    {
        match self.position(id) {
            Some(i) => {
                let n = match &patch.tasks {
                    Some(t) => t.len(),
                    None => 0,
                };
                let fresh = fresh_ids(n);
                let ghost ids = views_of(fresh@);
                let ghost had_tasks = patch.tasks is Some;
                let ghost old_tasks = old(self)@[i as int].tasks;
                let now = now_rfc3339();
                let q = self.apply_task_queue_update(i, patch, fresh, now);
                proof {
                    if had_tasks {
                        assert(task_ids(q@.tasks) =~= ids);
                    }
                }
                Ok(q)
            },
            None => Err(NotFound),
        }
    }

    /// Removes the first queue with identifier `id`.
    pub fn delete_task_queue(&mut self, id: &String) -> (r: Result<(), NotFound>)
        ensures
            match keys_of::<TaskQueue>(old(self)@).index_of_first(id@) {
                Some(i) => r is Ok && final(self)@ == old(self)@.remove(i),
                None => r == Err::<(), NotFound>(NotFound) && final(self)@ == old(self)@,
            },
    {
        match self.remove(id) {
            Ok(_) => Ok(()),
            Err(e) => Err(e),
        }
    }

    /// Appends the task made from `fields` under `task_id` to the first queue
    /// with identifier `queue_id`, stamps the queue `now` and returns it.
    pub fn add_task_to_queue(
        &mut self,
        queue_id: &String,
        fields: CreateTask,
        task_id: String,
        now: String,
    ) -> (r: Result<TaskQueue, NotFound>)
        ensures
            match keys_of::<TaskQueue>(old(self)@).index_of_first(queue_id@) {
                Some(i) => r matches Ok(q) && {
                    &&& q@.id == old(self)@[i].id
                    &&& q@.vm_id == old(self)@[i].vm_id
                    &&& q@.name == old(self)@[i].name
                    &&& q@.loop_enabled == old(self)@[i].loop_enabled
                    &&& q@.enabled == old(self)@[i].enabled
                    &&& q@.created_at == old(self)@[i].created_at
                    &&& q@.tasks.len() == old(self)@[i].tasks.len() + 1
                    &&& q@.tasks.subrange(0, old(self)@[i].tasks.len() as int) == old(self)@[i].tasks
                    &&& q@.tasks.last().id == task_id@
                    &&& q@.tasks.last().description == fields.description@
                    &&& q@.tasks.last().keystrokes == opt_chars(fields.keystrokes)
                    &&& q@.tasks.last().delay_ms == fields.delay_ms
                    &&& !q@.tasks.last().completed
                    &&& q@.updated_at == now@
                    &&& final(self)@[i] == q@
                    &&& final(self)@.len() == old(self)@.len()
                    &&& forall|k: int| 0 <= k < old(self)@.len() && k != i ==> #[trigger] final(self)@[k] == old(self)@[k]
                },
                None => true,
            },
            match keys_of::<TaskQueue>(old(self)@).index_of_first(queue_id@) {
                Some(i) => r matches Ok(q) && q@ == with_tasks(
                    old(self)@[i],
                    old(self)@[i].tasks.push(new_task(fields@, task_id@)),
                    now@,
                ) && final(self)@ == old(self)@.update(i, q@),
                None => r == Err::<TaskQueue, NotFound>(NotFound) && final(self)@ == old(self)@,
            },
    {
        match self.position(queue_id) {
            Some(i) => Ok(self.push_task_at(i, fields, task_id, now)),
            None => Err(NotFound),
        }
    }

    fn push_task_at(&mut self, i: usize, fields: CreateTask, task_id: String, now: String) -> (q: TaskQueue)
        requires
            i < old(self)@.len(),
        ensures
            q@ == with_tasks(
                old(self)@[i as int],
                old(self)@[i as int].tasks.push(new_task(fields@, task_id@)),
                now@,
            ),
            final(self)@ == old(self)@.update(i as int, q@),
    {
        let mut queue = self.at(i).duplicate();
        let task = Task {
            id: task_id,
            description: fields.description,
            keystrokes: fields.keystrokes,
            delay_ms: fields.delay_ms,
            completed: false,
        };
        let ghost before = queue.tasks@;
        queue.tasks.push(task);
        assert(views_of(queue.tasks@) =~= views_of(before).push(task@));
        queue.updated_at = now;
        let copy = queue.duplicate();
        self.set_at(i, queue);
        copy
    }

    /// Appends a task made from `fields` under a fresh random identifier to
    /// the first queue with identifier `queue_id`, stamped with the current
    /// time.
    pub fn add_task_to_queue_now(&mut self, queue_id: &String, fields: CreateTask) -> (r: Result<TaskQueue, NotFound>)
        ensures
            match keys_of::<TaskQueue>(old(self)@).index_of_first(queue_id@) {
                Some(i) => r matches Ok(q) && {
                    &&& q@.id == old(self)@[i].id
                    &&& q@.vm_id == old(self)@[i].vm_id
                    &&& q@.name == old(self)@[i].name
                    &&& q@.loop_enabled == old(self)@[i].loop_enabled
                    &&& q@.enabled == old(self)@[i].enabled
                    &&& q@.created_at == old(self)@[i].created_at
                    &&& q@.tasks.len() == old(self)@[i].tasks.len() + 1
                    &&& q@.tasks.subrange(0, old(self)@[i].tasks.len() as int) == old(self)@[i].tasks
                    &&& is_uuid_v4_text(q@.tasks.last().id)
                    &&& q@.tasks.last().description == fields.description@
                    &&& q@.tasks.last().keystrokes == opt_chars(fields.keystrokes)
                    &&& q@.tasks.last().delay_ms == fields.delay_ms
                    &&& !q@.tasks.last().completed
                    &&& true
                    &&& final(self)@[i] == q@
                    &&& final(self)@.len() == old(self)@.len()
                    &&& forall|k: int| 0 <= k < old(self)@.len() && k != i ==> #[trigger] final(self)@[k] == old(self)@[k]
                },
                None => true,
            },
            match keys_of::<TaskQueue>(old(self)@).index_of_first(queue_id@) {
                Some(i) => r matches Ok(q) && q@ == with_tasks(
                    old(self)@[i],
                    old(self)@[i].tasks.push(new_task(fields@, q@.tasks.last().id)),
                    q@.updated_at,
                ) && is_utc_rfc3339_text(q@.updated_at) && is_uuid_v4_text(q@.tasks.last().id) && final(self)@ == old(self)@.update(i, q@),
                None => r == Err::<TaskQueue, NotFound>(NotFound) && final(self)@ == old(self)@,
            },
    {
        match self.position(queue_id) {
            Some(i) => {
                let task_id = new_uuid_v4();
                let now = now_rfc3339();
                let q = self.push_task_at(i, fields, task_id, now);
                Ok(q)
            },
            None => Err(NotFound),
        }
    }

    /// Removes the first task with identifier `task_id` from the first queue
    /// with identifier `queue_id` and stamps that queue `now`.
    pub fn delete_task_from_queue(&mut self, queue_id: &String, task_id: &String, now: String) -> (r: Result<(), NotFound>)
        ensures
            match keys_of::<TaskQueue>(old(self)@).index_of_first(queue_id@) {
                Some(i) => match keys_of::<Task>(old(self)@[i].tasks).index_of_first(task_id@) {
                    Some(j) => {
                        &&& final(self)@.len() == old(self)@.len()
                        &&& final(self)@[i].tasks == old(self)@[i].tasks.remove(j)
                        &&& final(self)@[i].id == old(self)@[i].id
                        &&& final(self)@[i].vm_id == old(self)@[i].vm_id
                        &&& final(self)@[i].name == old(self)@[i].name
                        &&& final(self)@[i].loop_enabled == old(self)@[i].loop_enabled
                        &&& final(self)@[i].enabled == old(self)@[i].enabled
                        &&& final(self)@[i].created_at == old(self)@[i].created_at
                        &&& final(self)@[i].updated_at == now@
                        &&& forall|k: int| 0 <= k < old(self)@.len() && k != i ==> #[trigger] final(self)@[k] == old(self)@[k]
                    },
                    None => true,
                },
                None => true,
            },
            match keys_of::<TaskQueue>(old(self)@).index_of_first(queue_id@) {
                Some(i) => match keys_of::<Task>(old(self)@[i].tasks).index_of_first(task_id@) {
                    Some(j) => r is Ok && final(self)@ == old(self)@.update(
                        i,
                        with_tasks(old(self)@[i], old(self)@[i].tasks.remove(j), now@),
                    ),
                    None => r == Err::<(), NotFound>(NotFound) && final(self)@ == old(self)@,
                },
                None => r == Err::<(), NotFound>(NotFound) && final(self)@ == old(self)@,
            },
    {
        match self.locate_task(queue_id, task_id) {
            Some((i, j)) => {
                self.remove_task_at(i, j, now);
                Ok(())
            },
            None => Err(NotFound),
        }
    }

    /// Removes the first task with identifier `task_id` from the first queue
    /// with identifier `queue_id`, stamped with the current time.
    pub fn delete_task_from_queue_now(&mut self, queue_id: &String, task_id: &String) -> (r: Result<(), NotFound>)
        ensures
            match keys_of::<TaskQueue>(old(self)@).index_of_first(queue_id@) {
                Some(i) => match keys_of::<Task>(old(self)@[i].tasks).index_of_first(task_id@) {
                    Some(j) => {
                        &&& final(self)@.len() == old(self)@.len()
                        &&& final(self)@[i].tasks == old(self)@[i].tasks.remove(j)
                        &&& final(self)@[i].id == old(self)@[i].id
                        &&& final(self)@[i].vm_id == old(self)@[i].vm_id
                        &&& final(self)@[i].name == old(self)@[i].name
                        &&& final(self)@[i].loop_enabled == old(self)@[i].loop_enabled
                        &&& final(self)@[i].enabled == old(self)@[i].enabled
                        &&& final(self)@[i].created_at == old(self)@[i].created_at
                        &&& is_utc_rfc3339_text(final(self)@[i].updated_at)
                        &&& forall|k: int| 0 <= k < old(self)@.len() && k != i ==> #[trigger] final(self)@[k] == old(self)@[k]
                    },
                    None => true,
                },
                None => true,
            },
            match keys_of::<TaskQueue>(old(self)@).index_of_first(queue_id@) {
                Some(i) => match keys_of::<Task>(old(self)@[i].tasks).index_of_first(task_id@) {
                    Some(j) => r is Ok && final(self)@ == old(self)@.update(
                        i,
                        with_tasks(old(self)@[i], old(self)@[i].tasks.remove(j), final(self)@[i].updated_at),
                    ) && is_utc_rfc3339_text(final(self)@[i].updated_at),
                    None => r == Err::<(), NotFound>(NotFound) && final(self)@ == old(self)@,
                },
                None => r == Err::<(), NotFound>(NotFound) && final(self)@ == old(self)@,
            },
    {
        match self.locate_task(queue_id, task_id) {
            Some((i, j)) => {
                let now = now_rfc3339();
                self.remove_task_at(i, j, now);
                Ok(())
            },
            None => Err(NotFound),
        }
    }

    fn locate_task(&self, queue_id: &String, task_id: &String) -> (r: Option<(usize, usize)>)
        ensures
            match keys_of::<TaskQueue>(self@).index_of_first(queue_id@) {
                Some(i) => match keys_of::<Task>(self@[i].tasks).index_of_first(task_id@) {
                    Some(j) => r matches Some((a, b)) && a == i && b == j && i < self@.len() && j < self@[i].tasks.len(),
                    None => r is None,
                },
                None => r is None,
            },
    {
        match self.position(queue_id) {
            Some(i) => {
                let queue = self.at(i);
                match position_by_key(&queue.tasks, task_id) {
                    Some(j) => {
                        proof {
                            lemma_index_bounds(keys_of::<Task>(self@[i as int].tasks), task_id@);
                        }
                        Some((i, j))
                    },
                    None => None,
                }
            },
            None => None,
        }
    }

    fn remove_task_at(&mut self, i: usize, j: usize, now: String)
        requires
            i < old(self)@.len(),
            j < old(self)@[i as int].tasks.len(),
        ensures
            final(self)@ == old(self)@.update(
                i as int,
                with_tasks(old(self)@[i as int], old(self)@[i as int].tasks.remove(j as int), now@),
            ),
    {
        let mut queue = self.at(i).duplicate();
        let ghost before = queue.tasks@;
        queue.tasks.remove(j);
        assert(views_of(queue.tasks@) =~= views_of(before).remove(j as int));
        queue.updated_at = now;
        self.set_at(i, queue);
    }
}

/// An update never changes a configuration's identifier or creation time,
/// and always stamps it with the update's time.
pub proof fn lemma_vm_config_update_keeps_identity(old: VmConfigView, patch: UpdateVmConfig, now: Seq<char>)
    ensures
        patched_vm_config(old, patch, now).id == old.id,
        patched_vm_config(old, patch, now).created_at == old.created_at,
        patched_vm_config(old, patch, now).updated_at == now,
{
}

/// An update never changes a queue's identifier, VM or creation time, and
/// always stamps it with the update's time.
pub proof fn lemma_task_queue_update_keeps_identity(
    old: TaskQueueView,
    patch: UpdateTaskQueue,
    task_ids: Seq<Seq<char>>,
    now: Seq<char>,
)
    ensures
        patched_task_queue(old, patch, task_ids, now).id == old.id,
        patched_task_queue(old, patch, task_ids, now).vm_id == old.vm_id,
        patched_task_queue(old, patch, task_ids, now).created_at == old.created_at,
        patched_task_queue(old, patch, task_ids, now).updated_at == now,
{
}

/// Deleting a task just added to a queue, under an identifier that none of
/// the queue's tasks carried, gives back the queue's tasks as they were.
pub proof fn lemma_delete_task_undoes_add(queue: TaskQueueView, fields: CreateTaskView, task_id: Seq<char>, t1: Seq<char>, t2: Seq<char>)
    requires
        !keys_of::<Task>(queue.tasks).contains(task_id),
    ensures
        ({
            let added = with_tasks(queue, queue.tasks.push(new_task(fields, task_id)), t1);
            &&& keys_of::<Task>(added.tasks).index_of_first(task_id) == Some(queue.tasks.len() as int)
            &&& with_tasks(added, added.tasks.remove(queue.tasks.len() as int), t2) == with_tasks(queue, queue.tasks, t2)
        }),
{
    crate::registry::lemma_remove_after_push_fresh::<Task>(queue.tasks, new_task(fields, task_id));
}

/// A task made from request fields keeps the request's description,
/// keystrokes and delay, takes the given identifier, and is not completed.
pub proof fn lemma_new_task_fields(fields: CreateTask, id: Seq<char>)
    ensures
        new_task(fields@, id).id == id,
        new_task(fields@, id).description == fields.description@,
        new_task(fields@, id).keystrokes == opt_chars(fields.keystrokes),
        new_task(fields@, id).delay_ms == fields.delay_ms,
        !new_task(fields@, id).completed,
{
}

/// Tasks made from a list of requests: one per request, in order, each
/// keeping its request's fields under the identifier at the same position.
pub proof fn lemma_new_tasks_fields(fields: Seq<CreateTask>, ids: Seq<Seq<char>>)
    requires
        ids.len() == fields.len(),
    ensures
        new_tasks(views_of(fields), ids).len() == fields.len(),
        forall|j: int|
            0 <= j < fields.len() ==> {
                &&& #[trigger] new_tasks(views_of(fields), ids)[j].id == ids[j]
                &&& new_tasks(views_of(fields), ids)[j].description == fields[j].description@
                &&& new_tasks(views_of(fields), ids)[j].keystrokes == opt_chars(fields[j].keystrokes)
                &&& new_tasks(views_of(fields), ids)[j].delay_ms == fields[j].delay_ms
                &&& !new_tasks(views_of(fields), ids)[j].completed
            },
{
}

/// A new configuration carries the requested name and agent, starts
/// enabled, and has the creation time as both of its stamps.
pub proof fn lemma_new_vm_config_fields(payload: CreateVmConfig, id: Seq<char>, now: Seq<char>)
    ensures
        new_vm_config(payload, id, now).id == id,
        new_vm_config(payload, id, now).name == payload.name@,
        new_vm_config(payload, id, now).agent_id == payload.agent_id@,
        new_vm_config(payload, id, now).enabled,
        new_vm_config(payload, id, now).created_at == now,
        new_vm_config(payload, id, now).updated_at == now,
{
}

/// An update sets exactly the fields that the patch gives and keeps every
/// other field; the update time becomes the one given.
pub proof fn lemma_vm_config_update_fields(old: VmConfigView, patch: UpdateVmConfig, now: Seq<char>)
    ensures
        patch.name matches Some(n) ==> patched_vm_config(old, patch, now).name == n@,
        patch.name is None ==> patched_vm_config(old, patch, now).name == old.name,
        patch.agent_id matches Some(a) ==> patched_vm_config(old, patch, now).agent_id == a@,
        patch.agent_id is None ==> patched_vm_config(old, patch, now).agent_id == old.agent_id,
        patch.enabled matches Some(e) ==> patched_vm_config(old, patch, now).enabled == e,
        patch.enabled is None ==> patched_vm_config(old, patch, now).enabled == old.enabled,
        patched_vm_config(old, patch, now).id == old.id,
        patched_vm_config(old, patch, now).created_at == old.created_at,
        patched_vm_config(old, patch, now).updated_at == now,
{
}

/// A new queue is enabled, loops only if asked to, and holds a task for
/// each requested one, in order, keeping the request's fields.
pub proof fn lemma_new_task_queue_fields(
    payload: CreateTaskQueue,
    id: Seq<char>,
    task_ids: Seq<Seq<char>>,
    now: Seq<char>,
)
    requires
        task_ids.len() == requested_tasks(payload.tasks).len(),
    ensures
        new_task_queue(payload, id, task_ids, now).id == id,
        new_task_queue(payload, id, task_ids, now).vm_id == payload.vm_id@,
        new_task_queue(payload, id, task_ids, now).name == payload.name@,
        new_task_queue(payload, id, task_ids, now).enabled,
        payload.loop_enabled matches Some(l) ==> new_task_queue(payload, id, task_ids, now).loop_enabled == l,
        payload.loop_enabled is None ==> !new_task_queue(payload, id, task_ids, now).loop_enabled,
        payload.tasks is None ==> new_task_queue(payload, id, task_ids, now).tasks.len() == 0,
        payload.tasks matches Some(t) ==> {
            &&& new_task_queue(payload, id, task_ids, now).tasks.len() == t@.len()
            &&& forall|j: int|
                0 <= j < t@.len() ==> {
                    &&& #[trigger] new_task_queue(payload, id, task_ids, now).tasks[j].keystrokes
                        == opt_chars(t@[j].keystrokes)
                    &&& new_task_queue(payload, id, task_ids, now).tasks[j].description == t@[j].description@
                    &&& new_task_queue(payload, id, task_ids, now).tasks[j].delay_ms == t@[j].delay_ms
                    &&& new_task_queue(payload, id, task_ids, now).tasks[j].id == task_ids[j]
                }
        },
{
}

/// An update sets exactly the fields that the patch gives and keeps every
/// other field: a patch without tasks keeps the queue's tasks, and new tasks
/// keep their requests' fields.
pub proof fn lemma_task_queue_update_fields(
    old: TaskQueueView,
    patch: UpdateTaskQueue,
    task_ids: Seq<Seq<char>>,
    now: Seq<char>,
)
    requires
        patch.tasks matches Some(t) ==> task_ids.len() == t@.len(),
    ensures
        patch.name matches Some(n) ==> patched_task_queue(old, patch, task_ids, now).name == n@,
        patch.name is None ==> patched_task_queue(old, patch, task_ids, now).name == old.name,
        patch.tasks is None ==> patched_task_queue(old, patch, task_ids, now).tasks == old.tasks,
        patch.tasks matches Some(t) ==> {
            &&& patched_task_queue(old, patch, task_ids, now).tasks.len() == t@.len()
            &&& forall|j: int|
                0 <= j < t@.len() ==> {
                    &&& #[trigger] patched_task_queue(old, patch, task_ids, now).tasks[j].keystrokes
                        == opt_chars(t@[j].keystrokes)
                    &&& patched_task_queue(old, patch, task_ids, now).tasks[j].description == t@[j].description@
                    &&& patched_task_queue(old, patch, task_ids, now).tasks[j].delay_ms == t@[j].delay_ms
                    &&& patched_task_queue(old, patch, task_ids, now).tasks[j].id == task_ids[j]
                }
        },
        patch.loop_enabled matches Some(l) ==> patched_task_queue(old, patch, task_ids, now).loop_enabled == l,
        patch.loop_enabled is None ==> patched_task_queue(old, patch, task_ids, now).loop_enabled == old.loop_enabled,
        patch.enabled matches Some(e) ==> patched_task_queue(old, patch, task_ids, now).enabled == e,
        patch.enabled is None ==> patched_task_queue(old, patch, task_ids, now).enabled == old.enabled,
{
}

} // verus!
