use lib::constants::ID_INVALID;
use lib::node::command::Command as NodeCommand;
use lib::pod::command::Command;
use lib::pod::SpaTypes;
use lib::sys::{spa_command, spa_command_body, spa_meta, spa_meta_check, spa_pod, spa_pod_object_body};

#[test]
fn node_command_values() {
    assert_eq!(NodeCommand::SUSPEND().as_raw(), 0);
    assert_eq!(NodeCommand::PAUSE().as_raw(), 1);
    assert_eq!(NodeCommand::START().as_raw(), 2);
    assert_eq!(NodeCommand::ENABLE().as_raw(), 3);
    assert_eq!(NodeCommand::DISABLE().as_raw(), 4);
    assert_eq!(NodeCommand::FLUSH().as_raw(), 5);
    assert_eq!(NodeCommand::DRAIN().as_raw(), 6);
    assert_eq!(NodeCommand::MARKER().as_raw(), 7);
    assert_eq!(NodeCommand::PARAM_BEGIN().as_raw(), 8);
    assert_eq!(NodeCommand::PARAM_END().as_raw(), 9);
    assert_eq!(NodeCommand::REQUEST_PROCESS().as_raw(), 10);
    assert!(NodeCommand::from_raw(4) == NodeCommand::DISABLE());
}

#[test]
fn node_command_init_then_id() {
    let pod = NodeCommand::START().init();
    assert_eq!(NodeCommand::id(&pod), Ok(2));
    assert_eq!(pod.type_(), SpaTypes::CommandNode());
    assert_eq!(
        pod.into_raw(),
        spa_command {
            pod: spa_pod { size: 8, type_: 15 },
            body: spa_command_body { body: spa_pod_object_body { type_: 0x30002, id: 2 } },
        }
    );
}

#[test]
fn node_command_invalid_id_is_error() {
    let pod = NodeCommand::from_raw(ID_INVALID).init();
    assert_eq!(NodeCommand::id(&pod), Err(()));
}

#[test]
fn node_command_of_other_type_is_error() {
    let pod = Command::init(SpaTypes::CommandDevice(), 3);
    assert_eq!(NodeCommand::id(&pod), Err(()));
}

#[test]
fn pod_command_init_type_and_id() {
    let pod = Command::init(SpaTypes::CommandDevice(), 1);
    assert_eq!(pod.type_(), SpaTypes::CommandDevice());
    assert_eq!(pod.type_().as_raw(), 0x30001);
    assert_eq!(pod.id(SpaTypes::CommandDevice()), Ok(1));
    assert_eq!(pod.id(SpaTypes::CommandNode()), Err(()));
    assert_eq!(pod.as_raw().pod, spa_pod { size: 8, type_: SpaTypes::Object().as_raw() });
}

#[test]
fn pod_command_raw_round_trip() {
    let raw = spa_command {
        pod: spa_pod { size: 8, type_: 15 },
        body: spa_command_body { body: spa_pod_object_body { type_: 0x30002, id: ID_INVALID } },
    };
    let pod = Command::from_raw(raw);
    assert_eq!(pod.id(SpaTypes::from_raw(0x30002)), Err(()));
    assert_eq!(pod.into_raw(), raw);
}

#[test]
fn meta_check_bounds() {
    let meta = spa_meta { type_: 3, size: 32, data: 1000 };
    assert!(spa_meta_check(1000, 32, &meta));
    assert!(spa_meta_check(1016, 16, &meta));
    assert!(!spa_meta_check(1017, 16, &meta));
    assert!(!spa_meta_check(usize::MAX, 1, &meta));
}
