use npc_backend::controller_records::{
    CreateTaskQueue as CtlCreateTaskQueue, CreateVmConfig as CtlCreateVmConfig, Task as CtlTask,
    TaskQueue as CtlTaskQueue, UpdateTaskQueue as CtlUpdateTaskQueue,
    UpdateVmConfig as CtlUpdateVmConfig, VmConfig as CtlVmConfig,
};
use npc_backend::registry::{NotFound, Registry};
use npc_backend::ui_records::{
    CreateTask, CreateTaskQueue, CreateVmConfig, TaskQueue, UpdateTaskQueue, UpdateVmConfig,
    VmConfig,
};

fn s(x: &str) -> String {
    x.to_string()
}

fn is_uuid_v4(id: &str) -> bool {
    let b = id.as_bytes();
    b.len() == 36
        && b.iter().enumerate().all(|(i, c)| {
            if i == 8 || i == 13 || i == 18 || i == 23 {
                *c == b'-'
            } else {
                c.is_ascii_digit() || (b'a'..=b'f').contains(c)
            }
        })
        && b[14] == b'4'
        && matches!(b[19], b'8' | b'9' | b'a' | b'b')
}

#[test]
fn controller_vm_config_crud() {
    let mut reg: Registry<CtlVmConfig> = Registry::new();
    let c = reg.create_vm_config(
        CtlCreateVmConfig { name: s("vm1"), user_id: s("@agent_0:m"), enabled: false },
        s("id-1"),
        s("t0"),
    );
    assert_eq!(c.id, "id-1");
    assert_eq!(c.created_at, "t0");
    assert_eq!(c.updated_at, "t0");
    assert!(!c.enabled);
    let got = reg.get_vm_config(&s("id-1")).ok().unwrap();
    assert_eq!(got.name, "vm1");
    assert!(reg.get_vm_config(&s("nope")).is_err());

    let u = reg
        .update_vm_config(
            &s("id-1"),
            CtlUpdateVmConfig { name: None, user_id: Some(s("@agent_1:m")), enabled: Some(true) },
            s("t1"),
        )
        .ok()
        .unwrap();
    assert_eq!(u.name, "vm1");
    assert_eq!(u.user_id, "@agent_1:m");
    assert!(u.enabled);
    assert_eq!(u.created_at, "t0");
    assert_eq!(u.updated_at, "t1");
    assert_eq!(reg.list_vm_configs().len(), 1);

    assert!(matches!(
        reg.update_vm_config(&s("nope"), CtlUpdateVmConfig { name: None, user_id: None, enabled: None }, s("t2")),
        Err(NotFound)
    ));
    assert_eq!(reg.delete_vm_config(&s("nope")), Err(NotFound));
    assert_eq!(reg.delete_vm_config(&s("id-1")), Ok(()));
    assert_eq!(reg.list_vm_configs().len(), 0);
}

#[test]
fn controller_vm_config_created_now_has_uuid() {
    let mut reg: Registry<CtlVmConfig> = Registry::new();
    let c = reg.create_vm_config_now(CtlCreateVmConfig { name: s("vm"), user_id: s("u"), enabled: true });
    assert!(is_uuid_v4(&c.id), "{}", c.id);
    assert_eq!(c.created_at, c.updated_at);
    assert!(!c.created_at.is_empty());
    let u = reg
        .update_vm_config_now(&c.id, CtlUpdateVmConfig { name: Some(s("renamed")), user_id: None, enabled: None })
        .ok()
        .unwrap();
    assert_eq!(u.name, "renamed");
    assert_eq!(u.created_at, c.created_at);
}

#[test]
fn controller_lookup_finds_first_match() {
    let mut reg: Registry<CtlVmConfig> = Registry::new();
    reg.create_vm_config(CtlCreateVmConfig { name: s("first"), user_id: s("u"), enabled: true }, s("dup"), s("t"));
    reg.create_vm_config(CtlCreateVmConfig { name: s("second"), user_id: s("u"), enabled: true }, s("dup"), s("t"));
    assert_eq!(reg.get_vm_config(&s("dup")).ok().unwrap().name, "first");
    assert_eq!(reg.delete_vm_config(&s("dup")), Ok(()));
    assert_eq!(reg.get_vm_config(&s("dup")).ok().unwrap().name, "second");
}

#[test]
fn controller_task_queue_crud() {
    let mut reg: Registry<CtlTaskQueue> = Registry::new();
    let q = reg.create_task_queue(
        CtlCreateTaskQueue {
            vm_id: s("vm-1"),
            name: s("boot"),
            tasks: vec![CtlTask { description: s("press enter"), keystrokes: Some(s("\n")), delay_ms: Some(500) }],
            enabled: true,
        },
        s("q1"),
        s("t0"),
    );
    assert_eq!(q.tasks.len(), 1);
    assert_eq!(q.tasks[0].delay_ms, Some(500));
    let u = reg
        .update_task_queue(
            &s("q1"),
            CtlUpdateTaskQueue { vm_id: Some(s("vm-2")), name: None, tasks: Some(Vec::new()), enabled: Some(false) },
            s("t1"),
        )
        .ok()
        .unwrap();
    assert_eq!(u.vm_id, "vm-2");
    assert_eq!(u.name, "boot");
    assert!(u.tasks.is_empty());
    assert!(!u.enabled);
    assert_eq!(u.updated_at, "t1");
    assert_eq!(reg.get_task_queue(&s("q1")).ok().unwrap().vm_id, "vm-2");
    assert_eq!(reg.list_task_queues().len(), 1);
    assert_eq!(reg.delete_task_queue(&s("q1")), Ok(()));
    assert!(reg.get_task_queue(&s("q1")).is_err());
    let q = reg.create_task_queue_now(CtlCreateTaskQueue { vm_id: s("v"), name: s("n"), tasks: Vec::new(), enabled: false });
    assert!(is_uuid_v4(&q.id));
    assert!(reg.update_task_queue_now(&q.id, CtlUpdateTaskQueue { vm_id: None, name: None, tasks: None, enabled: None }).is_ok());
}

#[test]
fn ui_vm_config_starts_enabled() {
    let mut reg: Registry<VmConfig> = Registry::new();
    let c = reg.create_vm_config(CreateVmConfig { name: s("vm"), agent_id: s("agent_0") }, s("c1"), s("t0"));
    assert!(c.enabled);
    let u = reg
        .update_vm_config(&s("c1"), UpdateVmConfig { name: None, agent_id: Some(s("agent_1")), enabled: Some(false) }, s("t1"))
        .ok()
        .unwrap();
    assert_eq!(u.agent_id, "agent_1");
    assert!(!u.enabled);
    assert_eq!(reg.get_vm_config(&s("c1")).ok().unwrap().updated_at, "t1");
    assert_eq!(reg.delete_vm_config(&s("c1")), Ok(()));
    assert_eq!(reg.delete_vm_config(&s("c1")), Err(NotFound));
    let n = reg.create_vm_config_now(CreateVmConfig { name: s("x"), agent_id: s("y") });
    assert!(is_uuid_v4(&n.id));
    assert!(reg.update_vm_config_now(&n.id, UpdateVmConfig { name: None, agent_id: None, enabled: None }).is_ok());
    assert_eq!(reg.list_vm_configs().len(), 1);
}

fn task(d: &str) -> CreateTask {
    CreateTask { description: s(d), keystrokes: None, delay_ms: None }
}

#[test]
fn ui_task_queue_defaults_and_task_ids() {
    let mut reg: Registry<TaskQueue> = Registry::new();
    let q = reg.create_task_queue(
        CreateTaskQueue { vm_id: s("vm"), name: s("q"), tasks: Some(vec![task("a"), task("b")]), loop_enabled: None },
        s("q1"),
        vec![s("t-a"), s("t-b")],
        s("t0"),
    );
    assert!(q.enabled);
    assert!(!q.loop_enabled);
    assert_eq!(q.tasks.len(), 2);
    assert_eq!(q.tasks[1].id, "t-b");
    assert_eq!(q.tasks[1].description, "b");
    assert!(!q.tasks[0].completed);

    let empty = reg.create_task_queue(
        CreateTaskQueue { vm_id: s("vm"), name: s("e"), tasks: None, loop_enabled: Some(true) },
        s("q2"),
        Vec::new(),
        s("t0"),
    );
    assert!(empty.tasks.is_empty());
    assert!(empty.loop_enabled);

    let fresh = reg.create_task_queue_now(CreateTaskQueue {
        vm_id: s("vm"),
        name: s("f"),
        tasks: Some(vec![task("x")]),
        loop_enabled: None,
    });
    assert!(is_uuid_v4(&fresh.id));
    assert!(is_uuid_v4(&fresh.tasks[0].id));
    assert_ne!(fresh.id, fresh.tasks[0].id);
}

#[test]
fn ui_task_queue_update_replaces_tasks() {
    let mut reg: Registry<TaskQueue> = Registry::new();
    reg.create_task_queue(
        CreateTaskQueue { vm_id: s("vm"), name: s("q"), tasks: Some(vec![task("a")]), loop_enabled: None },
        s("q1"),
        vec![s("t-a")],
        s("t0"),
    );
    let u = reg
        .update_task_queue(
            &s("q1"),
            UpdateTaskQueue { name: Some(s("renamed")), tasks: Some(vec![task("b"), task("c")]), loop_enabled: Some(true), enabled: None },
            vec![s("t-b"), s("t-c")],
            s("t1"),
        )
        .ok()
        .unwrap();
    assert_eq!(u.name, "renamed");
    assert_eq!(u.tasks.len(), 2);
    assert_eq!(u.tasks[0].id, "t-b");
    assert!(u.loop_enabled);
    assert!(u.enabled);
    let n = reg
        .update_task_queue_now(&s("q1"), UpdateTaskQueue { name: None, tasks: Some(vec![task("d")]), loop_enabled: None, enabled: Some(false) })
        .ok()
        .unwrap();
    assert!(is_uuid_v4(&n.tasks[0].id));
    assert!(!n.enabled);
    assert!(reg.update_task_queue_now(&s("none"), UpdateTaskQueue { name: None, tasks: None, loop_enabled: None, enabled: None }).is_err());
}

#[test]
fn ui_tasks_add_and_delete() {
    let mut reg: Registry<TaskQueue> = Registry::new();
    reg.create_task_queue(
        CreateTaskQueue { vm_id: s("vm"), name: s("q"), tasks: None, loop_enabled: None },
        s("q1"),
        Vec::new(),
        s("t0"),
    );
    let q = reg.add_task_to_queue(&s("q1"), task("a"), s("t-a"), s("t1")).ok().unwrap();
    assert_eq!(q.tasks.len(), 1);
    assert_eq!(q.updated_at, "t1");
    let q = reg.add_task_to_queue_now(&s("q1"), task("b")).ok().unwrap();
    assert_eq!(q.tasks.len(), 2);
    assert!(is_uuid_v4(&q.tasks[1].id));
    assert!(reg.add_task_to_queue(&s("missing"), task("c"), s("t-c"), s("t2")).is_err());

    assert_eq!(reg.delete_task_from_queue(&s("q1"), &s("nope"), s("t3")), Err(NotFound));
    assert_eq!(reg.get_task_queue(&s("q1")).ok().unwrap().tasks.len(), 2);
    assert_eq!(reg.delete_task_from_queue(&s("missing"), &s("t-a"), s("t3")), Err(NotFound));
    assert_eq!(reg.delete_task_from_queue(&s("q1"), &s("t-a"), s("t3")), Ok(()));
    let after = reg.get_task_queue(&s("q1")).ok().unwrap();
    assert_eq!(after.tasks.len(), 1);
    assert_eq!(after.tasks[0].description, "b");
    assert_eq!(after.updated_at, "t3");
    let id_b = after.tasks[0].id.clone();
    assert_eq!(reg.delete_task_from_queue_now(&s("q1"), &id_b), Ok(()));
    assert!(reg.get_task_queue(&s("q1")).ok().unwrap().tasks.is_empty());
    assert_eq!(reg.delete_task_queue(&s("q1")), Ok(()));
    assert_eq!(reg.list_task_queues().len(), 0);
}

#[test]
fn deleting_a_new_task_restores_the_tasks() {
    let mut reg: Registry<TaskQueue> = Registry::new();
    reg.create_task_queue(
        CreateTaskQueue { vm_id: s("vm"), name: s("q"), tasks: Some(vec![task("a")]), loop_enabled: None },
        s("q1"),
        vec![s("t-a")],
        s("t0"),
    );
    let before = reg.get_task_queue(&s("q1")).ok().unwrap();
    reg.add_task_to_queue(&s("q1"), task("b"), s("t-b"), s("t1")).ok().unwrap();
    assert_eq!(reg.delete_task_from_queue(&s("q1"), &s("t-b"), s("t2")), Ok(()));
    let after = reg.get_task_queue(&s("q1")).ok().unwrap();
    assert_eq!(after.tasks.len(), before.tasks.len());
    assert_eq!(after.tasks[0].id, before.tasks[0].id);
    assert_eq!(after.tasks[0].description, before.tasks[0].description);
    assert_eq!(after.updated_at, "t2");
}

#[test]
fn deleting_a_new_config_restores_the_list() {
    let mut reg: Registry<VmConfig> = Registry::new();
    reg.create_vm_config(CreateVmConfig { name: s("a"), agent_id: s("x") }, s("c1"), s("t0"));
    reg.create_vm_config(CreateVmConfig { name: s("b"), agent_id: s("y") }, s("c2"), s("t0"));
    assert_eq!(reg.delete_vm_config(&s("c2")), Ok(()));
    let all = reg.list_vm_configs();
    assert_eq!(all.len(), 1);
    assert_eq!(all[0].id, "c1");
    assert!(reg.get_vm_config(&s("c2")).is_err());
}

fn is_utc_rfc3339(stamp: &str) -> bool {
    let c: Vec<char> = stamp.chars().collect();
    let Some(k) = c.iter().position(|x| *x == 'T') else { return false };
    let digit = |i: usize| c.get(i).map_or(false, |x| x.is_ascii_digit());
    let n = c.len();
    c.len() >= 25
        && stamp.ends_with("+00:00")
        && k >= 10
        && c[k - 6] == '-'
        && c[k - 3] == '-'
        && [k - 5, k - 4, k - 2, k - 1, k + 1, k + 2, k + 4, k + 5, k + 7, k + 8].iter().all(|i| digit(*i))
        && c[k + 3] == ':'
        && c[k + 6] == ':'
        && (n == k + 15
            || (c[k + 9] == '.' && [k + 19, k + 22, k + 25].contains(&n) && (k + 10..n - 6).all(|i| digit(i))))
}

#[test]
fn stamps_are_utc_rfc3339() {
    let mut reg: Registry<VmConfig> = Registry::new();
    let c = reg.create_vm_config_now(CreateVmConfig { name: s("a"), agent_id: s("x") });
    assert!(is_utc_rfc3339(&c.created_at), "{}", c.created_at);
    let mut ctl_reg: Registry<CtlVmConfig> = Registry::new();
    let d = ctl_reg.create_vm_config_now(CtlCreateVmConfig { name: s("a"), user_id: s("u"), enabled: true });
    assert!(is_utc_rfc3339(&d.updated_at), "{}", d.updated_at);
}
