use librasp::comm::RASPComm;
use librasp::control::Control;
use librasp::error::CommError;
use librasp::host::Settings;
use librasp::process_mode::{Launch, ProcessMode, ServerProcess};
use librasp::text_map::TextMap;

fn settings() -> Settings {
    Settings {
        ns_enter_bin: "/opt/agent/nsenter".to_string(),
        mount_script_bin: "/opt/agent/NSMount".to_string(),
        server_bin: "/opt/agent/rasp_server".to_string(),
        golang_ebpf_bin: "/opt/agent/golang_ebpf".to_string(),
    }
}

fn server(pid: i32, child_id: u32) -> ServerProcess {
    let mut patch_field: TextMap<String> = TextMap::new();
    patch_field.insert("runtime".to_string(), "JVM".to_string());
    patch_field.insert("runtime_version".to_string(), child_id.to_string());
    ServerProcess::new(pid, child_id, patch_field)
}

fn is_server(found: Option<&ServerProcess>, pid: i32, child_id: u32) -> bool {
    match found {
        Some(s) => {
            s.pid == pid
                && s.child_id == child_id
                && s.patch_field.len() == 2
                && s.patch_field.get(&"runtime".to_string()) == Some(&"JVM".to_string())
                && s.patch_field.get(&"runtime_version".to_string()) == Some(&child_id.to_string())
        }
        None => false,
    }
}

fn launch(mode: &ProcessMode, pid: i32, spawned: Result<ServerProcess, String>) -> Launch {
    let (_request, channel) = mode.prepare(pid);
    Launch { channel, spawned }
}

#[test]
fn process_mode_new_is_empty() {
    let m = ProcessMode::new("warn".to_string(), Control::new(), settings());
    assert_eq!(m.log_level, "warn");
    assert_eq!(m.settings, settings());
    assert_eq!(m.mnt_namesapce_server_map.len(), 0);
    assert_eq!(m.mnt_namespace_comm_pair.len(), 0);
}

#[test]
fn prepare_names_the_server_to_spawn() {
    let m = ProcessMode::new("warn".to_string(), Control::new(), settings());
    let (request, (sender, receiver)) = m.prepare(345);
    assert_eq!(request.program, "/opt/agent/rasp_server");
    assert_eq!(request.pid, 345);
    assert_eq!(request.log_level, "warn");
    assert_eq!(sender.capacity(), Some(50));
    assert_eq!(receiver.capacity(), Some(50));
    assert!(receiver.same_channel(&request.receiver));
    let (other, _) = m.prepare(346);
    assert!(!other.receiver.same_channel(&request.receiver));
    sender.send("ping".to_string()).unwrap();
    assert_eq!(request.receiver.try_recv(), Ok("ping".to_string()));
    assert!(receiver.try_recv().is_err());
}

#[test]
fn start_comm_records_server_and_queue() {
    let mut m = ProcessMode::new("info".to_string(), Control::new(), settings());
    let l = launch(&m, 10, Ok(server(10, 1000)));
    assert!(matches!(m.start_comm(10, &"mnt:[1]".to_string(), l), Ok(None)));
    assert_eq!(m.mnt_namesapce_server_map.len(), 1);
    assert_eq!(m.mnt_namespace_comm_pair.len(), 1);
    assert!(is_server(m.mnt_namesapce_server_map.get(&"mnt:[1]".to_string()), 10, 1000));
    let pair = m.mnt_namespace_comm_pair.get(&"mnt:[1]".to_string()).unwrap();
    assert_eq!(pair.0.capacity(), Some(50));
    assert!(pair.1.is_empty());
}

#[test]
fn start_comm_twice_hands_back_the_old_server() {
    let mut m = ProcessMode::new("info".to_string(), Control::new(), settings());
    let l = launch(&m, 10, Ok(server(10, 1000)));
    assert!(matches!(m.start_comm(10, &"mnt:[1]".to_string(), l), Ok(None)));
    let l = launch(&m, 20, Ok(server(20, 2000)));
    assert!(matches!(m.start_comm(20, &"mnt:[2]".to_string(), l), Ok(None)));
    let l = launch(&m, 11, Ok(server(11, 1001)));
    let replaced = m.start_comm(11, &"mnt:[1]".to_string(), l).unwrap();
    assert!(is_server(replaced.as_ref(), 10, 1000));
    assert_eq!(m.mnt_namesapce_server_map.len(), 2);
    assert_eq!(m.mnt_namespace_comm_pair.len(), 2);
    assert!(is_server(m.mnt_namesapce_server_map.get(&"mnt:[1]".to_string()), 11, 1001));
    assert!(is_server(m.mnt_namesapce_server_map.get(&"mnt:[2]".to_string()), 20, 2000));
}

#[test]
fn start_comm_with_failed_spawn_records_nothing() {
    let mut m = ProcessMode::new("info".to_string(), Control::new(), settings());
    let l = launch(&m, 10, Err("No such file or directory".to_string()));
    assert_eq!(
        m.start_comm(10, &"mnt:[1]".to_string(), l).unwrap_err(),
        CommError::SpawnFailed { reason: "No such file or directory".to_string() }
    );
    assert_eq!(m.mnt_namesapce_server_map.len(), 0);
    assert_eq!(m.mnt_namespace_comm_pair.len(), 0);
    assert!(m.ctrl.check());
}

#[test]
fn stop_comm_hands_back_the_server() {
    let mut m = ProcessMode::new("info".to_string(), Control::new(), settings());
    let l = launch(&m, 10, Ok(server(10, 1000)));
    m.start_comm(10, &"mnt:[1]".to_string(), l).unwrap();
    let runner = m.stop_comm(10, &"mnt:[1]".to_string()).unwrap();
    assert!(is_server(Some(&runner), 10, 1000));
    assert_eq!(m.mnt_namesapce_server_map.len(), 0);
    assert_eq!(m.mnt_namespace_comm_pair.len(), 1);
    assert_eq!(
        m.stop_comm(10, &"mnt:[1]".to_string()).unwrap_err(),
        CommError::ServerNotStarted { mnt_namespace: "mnt:[1]".to_string() }
    );
}

#[test]
fn stop_comm_on_unknown_namespace_changes_nothing() {
    let mut m = ProcessMode::new("info".to_string(), Control::new(), settings());
    let l = launch(&m, 10, Ok(server(10, 1000)));
    m.start_comm(10, &"mnt:[1]".to_string(), l).unwrap();
    assert_eq!(
        m.stop_comm(99, &"mnt:[9]".to_string()).unwrap_err(),
        CommError::ServerNotStarted { mnt_namespace: "mnt:[9]".to_string() }
    );
    assert_eq!(m.mnt_namesapce_server_map.len(), 1);
    assert_eq!(m.mnt_namespace_comm_pair.len(), 1);
    assert!(is_server(m.mnt_namesapce_server_map.get(&"mnt:[1]".to_string()), 10, 1000));
    assert!(m.ctrl.check());
}

#[test]
fn process_mode_send_reaches_the_namespace_queue() {
    let mut m = ProcessMode::new("info".to_string(), Control::new(), settings());
    let (request_one, channel) = m.prepare(10);
    m.start_comm(10, &"mnt:[1]".to_string(), Launch { channel, spawned: Ok(server(10, 1000)) })
        .unwrap();
    let (request_two, channel) = m.prepare(20);
    m.start_comm(20, &"mnt:[2]".to_string(), Launch { channel, spawned: Ok(server(20, 2000)) })
        .unwrap();
    assert_eq!(m.send_message_to_probe(10, &"mnt:[1]".to_string(), &"a".to_string()), Ok(()));
    assert_eq!(m.send_message_to_probe(20, &"mnt:[2]".to_string(), &"b".to_string()), Ok(()));
    assert_eq!(m.send_message_to_probe(10, &"mnt:[1]".to_string(), &"c".to_string()), Ok(()));
    assert_eq!(request_one.receiver.try_recv(), Ok("a".to_string()));
    assert_eq!(request_one.receiver.try_recv(), Ok("c".to_string()));
    assert!(request_one.receiver.try_recv().is_err());
    assert_eq!(request_two.receiver.try_recv(), Ok("b".to_string()));
    assert!(request_two.receiver.try_recv().is_err());
}

#[test]
fn process_mode_send_to_unknown_namespace_is_ignored() {
    let mut m = ProcessMode::new("info".to_string(), Control::new(), settings());
    assert_eq!(m.send_message_to_probe(10, &"mnt:[1]".to_string(), &"a".to_string()), Ok(()));
    assert!(m.ctrl.check());
}

#[test]
fn process_mode_after_send_reports_the_message() {
    assert_eq!(ProcessMode::after_send(Ok(())), Ok(()));
    assert_eq!(
        ProcessMode::after_send(Err("lost".to_string())),
        Err(CommError::SendToProbeFailed { message: "lost".to_string() })
    );
}
