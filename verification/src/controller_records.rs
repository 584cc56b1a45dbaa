//! The controller's VM configurations and task queues.
use vstd::prelude::*;
use crate::external::{is_uuid_v4_text, is_utc_rfc3339_text, new_uuid_v4, now_rfc3339};
use crate::keys::{Keyed, keys_of, lookup, views_of};
use crate::registry::{Duplicate, NotFound, Registry, duplicate_all};
use crate::text::{copy_opt_string, opt_chars};

verus! {

/// A VM configuration: which Matrix user operates which VM.
pub struct VmConfig {
    pub id: String,
    pub name: String,
    pub user_id: String,
    pub enabled: bool,
    pub created_at: String,
    pub updated_at: String,
}

/// The contents of a VM configuration.
pub struct VmConfigView {
    pub id: Seq<char>,
    pub name: Seq<char>,
    pub user_id: Seq<char>,
    pub enabled: bool,
    pub created_at: Seq<char>,
    pub updated_at: Seq<char>,
}

impl View for VmConfig {
    type V = VmConfigView;

    open spec fn view(&self) -> VmConfigView {
        VmConfigView {
            id: self.id@,
            name: self.name@,
            user_id: self.user_id@,
            enabled: self.enabled,
            created_at: self.created_at@,
            updated_at: self.updated_at@,
        }
    }
}

impl Keyed for VmConfig {
    open spec fn view_key(v: VmConfigView) -> Seq<char> {
        v.id
    }

    fn key(&self) -> (k: &String) {
        &self.id
    }
}

impl Duplicate for VmConfig {
    fn duplicate(&self) -> (c: Self) {
        VmConfig {
            id: self.id.clone(),
            name: self.name.clone(),
            user_id: self.user_id.clone(),
            enabled: self.enabled,
            created_at: self.created_at.clone(),
            updated_at: self.updated_at.clone(),
        }
    }
}

/// The fields of a new VM configuration.
pub struct CreateVmConfig {
    pub name: String,
    pub user_id: String,
    pub enabled: bool,
}

/// The fields to change in a VM configuration; `None` keeps a field.
pub struct UpdateVmConfig {
    pub name: Option<String>,
    pub user_id: Option<String>,
    pub enabled: Option<bool>,
}

/// The configuration created from `payload` with identifier `id` at time `now`.
pub open spec fn new_vm_config(payload: CreateVmConfig, id: Seq<char>, now: Seq<char>) -> VmConfigView {
    VmConfigView {
        id,
        name: payload.name@,
        user_id: payload.user_id@,
        enabled: payload.enabled,
        created_at: now,
        updated_at: now,
    }
}

/// `old` with the fields that `patch` sets replaced, stamped `now`.
pub open spec fn patched_vm_config(old: VmConfigView, patch: UpdateVmConfig, now: Seq<char>) -> VmConfigView {
    VmConfigView {
        id: old.id,
        name: match opt_chars(patch.name) {
            Some(n) => n,
            None => old.name,
        },
        user_id: match opt_chars(patch.user_id) {
            Some(u) => u,
            None => old.user_id,
        },
        enabled: match patch.enabled {
            Some(e) => e,
            None => old.enabled,
        },
        created_at: old.created_at,
        updated_at: now,
    }
}

/// A task of a controller task queue.
pub struct Task {
    pub description: String,
    pub keystrokes: Option<String>,
    pub delay_ms: Option<u64>,
}

/// The contents of a task.
pub struct TaskView {
    pub description: Seq<char>,
    pub keystrokes: Option<Seq<char>>,
    pub delay_ms: Option<u64>,
}

impl View for Task {
    type V = TaskView;

    open spec fn view(&self) -> TaskView {
        TaskView {
            description: self.description@,
            keystrokes: opt_chars(self.keystrokes),
            delay_ms: self.delay_ms,
        }
    }
}

impl Duplicate for Task {
    fn duplicate(&self) -> (c: Self) {
        Task {
            description: self.description.clone(),
            keystrokes: copy_opt_string(&self.keystrokes),
            delay_ms: self.delay_ms,
        }
    }
}

/// A queue of tasks for a VM.
pub struct TaskQueue {
    pub id: String,
    pub vm_id: String,
    pub name: String,
    pub tasks: Vec<Task>,
    pub enabled: bool,
    pub created_at: String,
    pub updated_at: String,
}

/// The contents of a task queue.
pub struct TaskQueueView {
    pub id: Seq<char>,
    pub vm_id: Seq<char>,
    pub name: Seq<char>,
    pub tasks: Seq<TaskView>,
    pub enabled: bool,
    pub created_at: Seq<char>,
    pub updated_at: Seq<char>,
}

impl View for TaskQueue {
    type V = TaskQueueView;

    open spec fn view(&self) -> TaskQueueView {
        TaskQueueView {
            id: self.id@,
            vm_id: self.vm_id@,
            name: self.name@,
            tasks: views_of(self.tasks@),
            enabled: self.enabled,
            created_at: self.created_at@,
            updated_at: self.updated_at@,
        }
    }
}

impl Keyed for TaskQueue {
    open spec fn view_key(v: TaskQueueView) -> Seq<char> {
        v.id
    }

    fn key(&self) -> (k: &String) {
        &self.id
    }
}

impl Duplicate for TaskQueue {
    fn duplicate(&self) -> (c: Self) {
        TaskQueue {
            id: self.id.clone(),
            vm_id: self.vm_id.clone(),
            name: self.name.clone(),
            tasks: duplicate_all(&self.tasks),
            enabled: self.enabled,
            created_at: self.created_at.clone(),
            updated_at: self.updated_at.clone(),
        }
    }
}

/// The fields of a new task queue.
pub struct CreateTaskQueue {
    pub vm_id: String,
    pub name: String,
    pub tasks: Vec<Task>,
    pub enabled: bool,
}

/// The fields to change in a task queue; `None` keeps a field.
pub struct UpdateTaskQueue {
    pub vm_id: Option<String>,
    pub name: Option<String>,
    pub tasks: Option<Vec<Task>>,
    pub enabled: Option<bool>,
}

/// The queue created from `payload` with identifier `id` at time `now`.
pub open spec fn new_task_queue(payload: CreateTaskQueue, id: Seq<char>, now: Seq<char>) -> TaskQueueView {
    TaskQueueView {
        id,
        vm_id: payload.vm_id@,
        name: payload.name@,
        tasks: views_of(payload.tasks@),
        enabled: payload.enabled,
        created_at: now,
        updated_at: now,
    }
}

/// `old` with the fields that `patch` sets replaced, stamped `now`.
pub open spec fn patched_task_queue(old: TaskQueueView, patch: UpdateTaskQueue, now: Seq<char>) -> TaskQueueView {
    TaskQueueView {
        id: old.id,
        vm_id: match opt_chars(patch.vm_id) {
            Some(v) => v,
            None => old.vm_id,
        },
        name: match opt_chars(patch.name) {
            Some(n) => n,
            None => old.name,
        },
        tasks: match patch.tasks {
            Some(t) => views_of(t@),
            None => old.tasks,
        },
        enabled: match patch.enabled {
            Some(e) => e,
            None => old.enabled,
        },
        created_at: old.created_at,
        updated_at: now,
    }
}

impl Registry<VmConfig> {
    /// All configurations, copied, in insertion order.
    pub fn list_vm_configs(&self) -> (all: Vec<VmConfig>)
        ensures
            views_of(all@) == self@,
    {
        duplicate_all(self.records())
    }

    /// Appends the configuration made from `payload` with identifier `id`,
    /// created and updated at `now`, and returns it.
    pub fn create_vm_config(&mut self, payload: CreateVmConfig, id: String, now: String) -> (c: VmConfig)
        ensures
            c@.id == id@,
            c@.name == payload.name@,
            c@.user_id == payload.user_id@,
            c@.enabled == payload.enabled,
            c@.created_at == now@,
            c@.updated_at == now@,
            c@ == new_vm_config(payload, id@, now@),
            final(self)@ == old(self)@.push(c@),
    {
        let config = VmConfig {
            id,
            name: payload.name,
            user_id: payload.user_id,
            enabled: payload.enabled,
            created_at: now.clone(),
            updated_at: now,
        };
        let copy = config.duplicate();
        self.push(config);
        copy
    }

    /// Appends a configuration made from `payload` under a fresh random
    /// identifier, stamped with the current time, and returns it.
    pub fn create_vm_config_now(&mut self, payload: CreateVmConfig) -> (c: VmConfig)
        ensures
            c@.name == payload.name@,
            c@.user_id == payload.user_id@,
            c@.enabled == payload.enabled,
            c@.created_at == c@.updated_at,
            is_uuid_v4_text(c@.id),
            is_utc_rfc3339_text(c@.created_at),
            c@ == new_vm_config(payload, c@.id, c@.created_at),
            final(self)@ == old(self)@.push(c@),
    {
        let now = now_rfc3339();
        let id = new_uuid_v4();
        self.create_vm_config(payload, id, now)
    }

    /// A copy of the first configuration with identifier `id`.
    pub fn get_vm_config(&self, id: &String) -> (r: Result<VmConfig, NotFound>)
        ensures
            match lookup::<VmConfig>(self@, id@) {
                Some(v) => r matches Ok(c) && c@ == v,
                None => r == Err::<VmConfig, NotFound>(NotFound),
            },
    {
        match self.find(id) {
            Ok(c) => Ok(c.duplicate()),
            Err(e) => Err(e),
        }
    }

    fn apply_vm_config_update(&mut self, i: usize, patch: UpdateVmConfig, now: String) -> (c: VmConfig)
        requires
            i < old(self)@.len(),
        ensures
            c@ == patched_vm_config(old(self)@[i as int], patch, now@),
            final(self)@ == old(self)@.update(i as int, c@),
    {
        let mut config = self.at(i).duplicate();
        match patch.name {
            Some(name) => {
                config.name = name;
            },
            None => {},
        }
        match patch.user_id {
            Some(user_id) => {
                config.user_id = user_id;
            },
            None => {},
        }
        match patch.enabled {
            Some(enabled) => {
                config.enabled = enabled;
            },
            None => {},
        }
        config.updated_at = now;
        let copy = config.duplicate();
        self.set_at(i, config);
        copy
    }

    /// Applies `patch` to the first configuration with identifier `id`,
    /// stamps it `now` and returns it; the other configurations stay.
    pub fn update_vm_config(&mut self, id: &String, patch: UpdateVmConfig, now: String) -> (r: Result<VmConfig, NotFound>)
        ensures
            match keys_of::<VmConfig>(old(self)@).index_of_first(id@) {
                Some(i) => r matches Ok(c) && {
                    &&& c@.id == old(self)@[i].id
                    &&& (match patch.name { Some(v) => c@.name == v@, None => c@.name == old(self)@[i].name })
                    &&& (match patch.user_id { Some(v) => c@.user_id == v@, None => c@.user_id == old(self)@[i].user_id })
                    &&& (match patch.enabled { Some(v) => c@.enabled == v, None => c@.enabled == old(self)@[i].enabled })
                    &&& c@.created_at == old(self)@[i].created_at
                    &&& c@.updated_at == now@
                    &&& final(self)@[i] == c@
                    &&& final(self)@.len() == old(self)@.len()
                    &&& forall|k: int| 0 <= k < old(self)@.len() && k != i ==> #[trigger] final(self)@[k] == old(self)@[k]
                },
                None => true,
            },
            match keys_of::<VmConfig>(old(self)@).index_of_first(id@) {
                Some(i) => r matches Ok(c) && c@ == patched_vm_config(old(self)@[i], patch, now@)
                    && final(self)@ == old(self)@.update(i, c@),
                None => r == Err::<VmConfig, NotFound>(NotFound) && final(self)@ == old(self)@,
            },
    {
        match self.position(id) {
            Some(i) => Ok(self.apply_vm_config_update(i, patch, now)),
            None => Err(NotFound),
        }
    }

    /// Applies `patch` to the first configuration with identifier `id`,
    /// stamped with the current time.
    pub fn update_vm_config_now(&mut self, id: &String, patch: UpdateVmConfig) -> (r: Result<VmConfig, NotFound>)
        ensures
            match keys_of::<VmConfig>(old(self)@).index_of_first(id@) {
                Some(i) => r matches Ok(c) && {
                    &&& c@.id == old(self)@[i].id
                    &&& (match patch.name { Some(v) => c@.name == v@, None => c@.name == old(self)@[i].name })
                    &&& (match patch.user_id { Some(v) => c@.user_id == v@, None => c@.user_id == old(self)@[i].user_id })
                    &&& (match patch.enabled { Some(v) => c@.enabled == v, None => c@.enabled == old(self)@[i].enabled })
                    &&& c@.created_at == old(self)@[i].created_at
                    &&& true
                    &&& final(self)@[i] == c@
                    &&& final(self)@.len() == old(self)@.len()
                    &&& forall|k: int| 0 <= k < old(self)@.len() && k != i ==> #[trigger] final(self)@[k] == old(self)@[k]
                },
                None => true,
            },
            match keys_of::<VmConfig>(old(self)@).index_of_first(id@) {
                Some(i) => r matches Ok(c) && c@ == patched_vm_config(old(self)@[i], patch, c@.updated_at)
                    && is_utc_rfc3339_text(c@.updated_at)
                    && final(self)@ == old(self)@.update(i, c@),
                None => r == Err::<VmConfig, NotFound>(NotFound) && final(self)@ == old(self)@,
            },
    {
        match self.position(id) {
            Some(i) => {
                let now = now_rfc3339();
                Ok(self.apply_vm_config_update(i, patch, now))
            },
            None => Err(NotFound),
        }
    }

    /// Removes the first configuration with identifier `id`.
    pub fn delete_vm_config(&mut self, id: &String) -> (r: Result<(), NotFound>)
        ensures
            match keys_of::<VmConfig>(old(self)@).index_of_first(id@) {
                Some(i) => r is Ok && final(self)@ == old(self)@.remove(i),
                None => r == Err::<(), NotFound>(NotFound) && final(self)@ == old(self)@,
            },
    {
        match self.remove(id) {
            Ok(_) => Ok(()),
            Err(e) => Err(e),
        }
    }
}

impl Registry<TaskQueue> {
    /// All task queues, copied, in insertion order.
    pub fn list_task_queues(&self) -> (all: Vec<TaskQueue>)
        ensures
            views_of(all@) == self@,
    {
        duplicate_all(self.records())
    }

    /// Appends the queue made from `payload` with identifier `id`, created
    /// and updated at `now`, and returns it.
    pub fn create_task_queue(&mut self, payload: CreateTaskQueue, id: String, now: String) -> (q: TaskQueue)
        ensures
            q@.id == id@,
            q@.vm_id == payload.vm_id@,
            q@.name == payload.name@,
            q@.tasks == views_of(payload.tasks@),
            q@.enabled == payload.enabled,
            q@.created_at == now@,
            q@.updated_at == now@,
            q@ == new_task_queue(payload, id@, now@),
            final(self)@ == old(self)@.push(q@),
    {
        let queue = TaskQueue {
            id,
            vm_id: payload.vm_id,
            name: payload.name,
            tasks: payload.tasks,
            enabled: payload.enabled,
            created_at: now.clone(),
            updated_at: now,
        };
        let copy = queue.duplicate();
        self.push(queue);
        copy
    }

    /// Appends a queue made from `payload` under a fresh random identifier,
    /// stamped with the current time, and returns it.
    pub fn create_task_queue_now(&mut self, payload: CreateTaskQueue) -> (q: TaskQueue)
        ensures
            q@.vm_id == payload.vm_id@,
            q@.name == payload.name@,
            q@.tasks == views_of(payload.tasks@),
            q@.enabled == payload.enabled,
            q@.created_at == q@.updated_at,
            is_uuid_v4_text(q@.id),
            is_utc_rfc3339_text(q@.created_at),
            q@ == new_task_queue(payload, q@.id, q@.created_at),
            final(self)@ == old(self)@.push(q@),
    {
        let now = now_rfc3339();
        let id = new_uuid_v4();
        self.create_task_queue(payload, id, now)
    }

    /// A copy of the first queue with identifier `id`.
    pub fn get_task_queue(&self, id: &String) -> (r: Result<TaskQueue, NotFound>)
        ensures
            match lookup::<TaskQueue>(self@, id@) {
                Some(v) => r matches Ok(q) && q@ == v,
                None => r == Err::<TaskQueue, NotFound>(NotFound),
            },
    {
        match self.find(id) {
            Ok(q) => Ok(q.duplicate()),
            Err(e) => Err(e),
        }
    }

    fn apply_task_queue_update(&mut self, i: usize, patch: UpdateTaskQueue, now: String) -> (q: TaskQueue)
        requires
            i < old(self)@.len(),
        ensures
            q@ == patched_task_queue(old(self)@[i as int], patch, now@),
            final(self)@ == old(self)@.update(i as int, q@),
    {
        let mut queue = self.at(i).duplicate();
        match patch.name {
            Some(name) => {
                queue.name = name;
            },
            None => {},
        }
        match patch.tasks {
            Some(tasks) => {
                queue.tasks = tasks;
            },
            None => {},
        }
        match patch.vm_id {
            Some(vm_id) => {
                queue.vm_id = vm_id;
            },
            None => {},
        }
        match patch.enabled {
            Some(enabled) => {
                queue.enabled = enabled;
            },
            None => {},
        }
        queue.updated_at = now;
        let copy = queue.duplicate();
        self.set_at(i, queue);
        copy
    }

    /// Applies `patch` to the first queue with identifier `id`, stamps it
    /// `now` and returns it; the other queues stay.
    pub fn update_task_queue(&mut self, id: &String, patch: UpdateTaskQueue, now: String) -> (r: Result<TaskQueue, NotFound>)
        ensures
            match keys_of::<TaskQueue>(old(self)@).index_of_first(id@) {
                Some(i) => r matches Ok(q) && {
                    &&& q@.id == old(self)@[i].id
                    &&& (match patch.vm_id { Some(v) => q@.vm_id == v@, None => q@.vm_id == old(self)@[i].vm_id })
                    &&& (match patch.name { Some(v) => q@.name == v@, None => q@.name == old(self)@[i].name })
                    &&& (match patch.tasks { Some(t) => q@.tasks == views_of(t@), None => q@.tasks == old(self)@[i].tasks })
                    &&& (match patch.enabled { Some(v) => q@.enabled == v, None => q@.enabled == old(self)@[i].enabled })
                    &&& q@.created_at == old(self)@[i].created_at
                    &&& q@.updated_at == now@
                    &&& final(self)@[i] == q@
                    &&& final(self)@.len() == old(self)@.len()
                    &&& forall|k: int| 0 <= k < old(self)@.len() && k != i ==> #[trigger] final(self)@[k] == old(self)@[k]
                },
                None => true,
            },
            match keys_of::<TaskQueue>(old(self)@).index_of_first(id@) {
                Some(i) => r matches Ok(q) && q@ == patched_task_queue(old(self)@[i], patch, now@)
                    && final(self)@ == old(self)@.update(i, q@),
                None => r == Err::<TaskQueue, NotFound>(NotFound) && final(self)@ == old(self)@,
            },
    {
        match self.position(id) {
            Some(i) => Ok(self.apply_task_queue_update(i, patch, now)),
            None => Err(NotFound),
        }
    }

    /// Applies `patch` to the first queue with identifier `id`, stamped with
    /// the current time.
    pub fn update_task_queue_now(&mut self, id: &String, patch: UpdateTaskQueue) -> (r: Result<TaskQueue, NotFound>)
        ensures
            match keys_of::<TaskQueue>(old(self)@).index_of_first(id@) {
                Some(i) => r matches Ok(q) && {
                    &&& q@.id == old(self)@[i].id
                    &&& (match patch.vm_id { Some(v) => q@.vm_id == v@, None => q@.vm_id == old(self)@[i].vm_id })
                    &&& (match patch.name { Some(v) => q@.name == v@, None => q@.name == old(self)@[i].name })
                    &&& (match patch.tasks { Some(t) => q@.tasks == views_of(t@), None => q@.tasks == old(self)@[i].tasks })
                    &&& (match patch.enabled { Some(v) => q@.enabled == v, None => q@.enabled == old(self)@[i].enabled })
                    &&& q@.created_at == old(self)@[i].created_at
                    &&& true
                    &&& final(self)@[i] == q@
                    &&& final(self)@.len() == old(self)@.len()
                    &&& forall|k: int| 0 <= k < old(self)@.len() && k != i ==> #[trigger] final(self)@[k] == old(self)@[k]
                },
                None => true,
            },
            match keys_of::<TaskQueue>(old(self)@).index_of_first(id@) {
                Some(i) => r matches Ok(q) && q@ == patched_task_queue(old(self)@[i], patch, q@.updated_at)
                    && is_utc_rfc3339_text(q@.updated_at)
                    && final(self)@ == old(self)@.update(i, q@),
                None => r == Err::<TaskQueue, NotFound>(NotFound) && final(self)@ == old(self)@,
            },
    {
        match self.position(id) {
            Some(i) => {
                let now = now_rfc3339();
                Ok(self.apply_task_queue_update(i, patch, now))
            },
            None => Err(NotFound),
        }
    }

    /// Removes the first queue with identifier `id`.
    pub fn delete_task_queue(&mut self, id: &String) -> (r: Result<(), NotFound>)
        ensures
            match keys_of::<TaskQueue>(old(self)@).index_of_first(id@) {
                Some(i) => r is Ok && final(self)@ == old(self)@.remove(i),
                None => r == Err::<(), NotFound>(NotFound) && final(self)@ == old(self)@,
            },
    {
        match self.remove(id) {
            Ok(_) => Ok(()),
            Err(e) => Err(e),
        }
    }
}

/// An update never changes a configuration's identifier or creation time,
/// and always stamps it with the update's time.
pub proof fn lemma_vm_config_update_keeps_identity(old: VmConfigView, patch: UpdateVmConfig, now: Seq<char>)
    ensures
        patched_vm_config(old, patch, now).id == old.id,
        patched_vm_config(old, patch, now).created_at == old.created_at,
        patched_vm_config(old, patch, now).updated_at == now,
{
}

/// An update never changes a queue's identifier or creation time, and always
/// stamps it with the update's time.
pub proof fn lemma_task_queue_update_keeps_identity(old: TaskQueueView, patch: UpdateTaskQueue, now: Seq<char>)
    ensures
        patched_task_queue(old, patch, now).id == old.id,
        patched_task_queue(old, patch, now).created_at == old.created_at,
        patched_task_queue(old, patch, now).updated_at == now,
{
}

/// A new configuration carries the requested name, user and enabled flag,
/// the given identifier, and the creation time as both of its stamps.
pub proof fn lemma_new_vm_config_fields(payload: CreateVmConfig, id: Seq<char>, now: Seq<char>)
    ensures
        new_vm_config(payload, id, now).id == id,
        new_vm_config(payload, id, now).name == payload.name@,
        new_vm_config(payload, id, now).user_id == payload.user_id@,
        new_vm_config(payload, id, now).enabled == payload.enabled,
        new_vm_config(payload, id, now).created_at == now,
        new_vm_config(payload, id, now).updated_at == now,
{
}

/// An update sets exactly the fields that the patch gives and keeps every
/// other field; the update time becomes the one given.
pub proof fn lemma_vm_config_update_fields(old: VmConfigView, patch: UpdateVmConfig, now: Seq<char>)
    ensures
        patch.name matches Some(n) ==> patched_vm_config(old, patch, now).name == n@,
        patch.name is None ==> patched_vm_config(old, patch, now).name == old.name,
        patch.user_id matches Some(u) ==> patched_vm_config(old, patch, now).user_id == u@,
        patch.user_id is None ==> patched_vm_config(old, patch, now).user_id == old.user_id,
        patch.enabled matches Some(e) ==> patched_vm_config(old, patch, now).enabled == e,
        patch.enabled is None ==> patched_vm_config(old, patch, now).enabled == old.enabled,
        patched_vm_config(old, patch, now).id == old.id,
        patched_vm_config(old, patch, now).created_at == old.created_at,
        patched_vm_config(old, patch, now).updated_at == now,
{
}

/// A new queue carries the requested VM, name, tasks (in order, each with
/// its description, keystrokes and delay) and enabled flag.
pub proof fn lemma_new_task_queue_fields(payload: CreateTaskQueue, id: Seq<char>, now: Seq<char>)
    ensures
        new_task_queue(payload, id, now).id == id,
        new_task_queue(payload, id, now).vm_id == payload.vm_id@,
        new_task_queue(payload, id, now).name == payload.name@,
        new_task_queue(payload, id, now).tasks.len() == payload.tasks@.len(),
        forall|j: int|
            0 <= j < payload.tasks@.len() ==> {
                &&& #[trigger] new_task_queue(payload, id, now).tasks[j].description
                    == payload.tasks@[j].description@
                &&& new_task_queue(payload, id, now).tasks[j].keystrokes == opt_chars(
                    payload.tasks@[j].keystrokes,
                )
                &&& new_task_queue(payload, id, now).tasks[j].delay_ms == payload.tasks@[j].delay_ms
            },
        new_task_queue(payload, id, now).enabled == payload.enabled,
        new_task_queue(payload, id, now).created_at == now,
        new_task_queue(payload, id, now).updated_at == now,
{
}

/// An update sets exactly the fields that the patch gives and keeps every
/// other field: in particular a patch without tasks keeps the queue's tasks.
pub proof fn lemma_task_queue_update_fields(old: TaskQueueView, patch: UpdateTaskQueue, now: Seq<char>)
    ensures
        patch.vm_id matches Some(v) ==> patched_task_queue(old, patch, now).vm_id == v@,
        patch.vm_id is None ==> patched_task_queue(old, patch, now).vm_id == old.vm_id,
        patch.name matches Some(n) ==> patched_task_queue(old, patch, now).name == n@,
        patch.name is None ==> patched_task_queue(old, patch, now).name == old.name,
        patch.tasks matches Some(t) ==> patched_task_queue(old, patch, now).tasks == views_of(t@),
        patch.tasks is None ==> patched_task_queue(old, patch, now).tasks == old.tasks,
        patch.enabled matches Some(e) ==> patched_task_queue(old, patch, now).enabled == e,
        patch.enabled is None ==> patched_task_queue(old, patch, now).enabled == old.enabled,
        patched_task_queue(old, patch, now).id == old.id,
        patched_task_queue(old, patch, now).created_at == old.created_at,
        patched_task_queue(old, patch, now).updated_at == now,
{
}

} // verus!
