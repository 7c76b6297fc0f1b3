use lpc55_isp::cmd::{
    do_enroll, do_generate_uds, do_isp_flash_erase_all, do_isp_read_memory, do_isp_set_userkey,
    do_isp_write_keystore, do_isp_write_memory, do_recv_sb_file, do_save_keystore,
    read_memory_payload,
};
use lpc55_isp::command::{Command, DataProc};
use lpc55_isp::error::{Error, ErrorKind, Stage};
use lpc55_isp::exchange::{Action, Event, Exchange, Outcome, Step};
use lpc55_isp::isp::{CommandTag, KeyType, ResponseCode};

/// Plays the link: answers each action with the next event of `script` and
/// keeps what it was asked to do. Gives back the actions in order and the
/// result, if the script got that far.
fn drive(command: Command, script: Vec<Event>) -> (Vec<Action>, Option<Outcome>) {
    let (mut exchange, first) = Exchange::begin(command);
    let mut actions = vec![first];
    for event in script {
        match exchange.step(event) {
            Step::Next { exchange: next, action } => {
                exchange = next;
                actions.push(action);
            }
            Step::Done { result } => return (actions, Some(result)),
        }
    }
    (actions, None)
}

fn ack(code: ResponseCode) -> Event {
    Event::Response { code }
}

fn no_data_commands() -> Vec<Command> {
    vec![do_save_keystore(), do_enroll(), do_generate_uds(), do_isp_flash_erase_all()]
}

fn send_commands() -> Vec<Command> {
    vec![
        do_isp_write_keystore(vec![9; 40]),
        do_recv_sb_file(vec![0x5A; 700]).unwrap(),
        do_isp_set_userkey(KeyType::USERKEK, vec![3; 32]).unwrap(),
        do_isp_write_memory(0x8000, vec![0xC3; 64]).unwrap(),
    ]
}

fn sent_payload(command: &Command) -> Vec<u8> {
    match &command.data {
        DataProc::SendData { data, .. } => data.clone(),
        other => panic!("no send phase: {:?}", other),
    }
}

fn script_that_succeeds(command: &Command) -> Vec<Event> {
    let mut script = vec![Event::Sent, ack(command.command_resp)];
    match &command.data {
        DataProc::NoData => {}
        DataProc::SendData { code, .. } => {
            script.push(Event::Sent);
            script.push(ack(*code));
        }
        DataProc::RecvData { code, cnt } => {
            script.push(Event::Data { bytes: vec![0x77; *cnt as usize] });
            script.push(ack(*code));
        }
    }
    script
}

fn is_data_action(action: &Action) -> bool {
    matches!(action, Action::SendData { .. } | Action::RecvData { .. })
}

#[test]
fn begin_hands_out_the_command_frame() {
    let (_, action) = Exchange::begin(do_isp_read_memory(0x40, 4));
    assert_eq!(
        action,
        Action::SendCommand { tag: CommandTag::ReadMemory, args: vec![0x40, 4, 0] }
    );
}

#[test]
fn read_memory_step_by_step() {
    let (exchange, _) = Exchange::begin(do_isp_read_memory(0x40, 4));
    let exchange = match exchange.step(Event::Sent) {
        Step::Next { exchange, action } => {
            assert_eq!(action, Action::ReadResponse { expected: ResponseCode::ReadMemoryResponse });
            exchange
        }
        Step::Done { result } => panic!("over after the command frame: {:?}", result),
    };
    let exchange = match exchange.step(ack(ResponseCode::ReadMemoryResponse)) {
        Step::Next { exchange, action } => {
            assert_eq!(action, Action::RecvData { cnt: 4 });
            exchange
        }
        Step::Done { result } => panic!("over after the acknowledgement: {:?}", result),
    };
    let exchange = match exchange.step(Event::Data { bytes: vec![1, 2, 3, 4] }) {
        Step::Next { exchange, action } => {
            assert_eq!(action, Action::ReadResponse { expected: ResponseCode::GenericResponse });
            exchange
        }
        Step::Done { result } => panic!("over after the payload: {:?}", result),
    };
    match exchange.step(ack(ResponseCode::GenericResponse)) {
        Step::Next { action, .. } => panic!("not over: {:?}", action),
        Step::Done { result } => assert_eq!(result, Ok(Some(vec![1, 2, 3, 4]))),
    }
}

#[test]
fn read_memory_of_sixteen_bytes() {
    let memory: Vec<u8> = (0xA0..0xB0).collect();
    let (actions, result) = drive(
        do_isp_read_memory(0x0000_1000, 16),
        vec![
            Event::Sent,
            ack(ResponseCode::ReadMemoryResponse),
            Event::Data { bytes: memory.clone() },
            ack(ResponseCode::GenericResponse),
        ],
    );
    assert_eq!(
        actions,
        vec![
            Action::SendCommand { tag: CommandTag::ReadMemory, args: vec![0x1000, 16, 0] },
            Action::ReadResponse { expected: ResponseCode::ReadMemoryResponse },
            Action::RecvData { cnt: 16 },
            Action::ReadResponse { expected: ResponseCode::GenericResponse },
        ]
    );
    assert_eq!(result, Some(Ok(Some(memory.clone()))));
    let read = read_memory_payload(result.unwrap().unwrap()).unwrap();
    assert_eq!(read.len(), 16);
    assert_eq!(read, memory);
}

#[test]
fn write_memory_of_eight_bytes() {
    let (actions, result) = drive(
        do_isp_write_memory(0x2000, vec![0xAA; 8]).unwrap(),
        vec![
            Event::Sent,
            ack(ResponseCode::GenericResponse),
            Event::Sent,
            ack(ResponseCode::GenericResponse),
        ],
    );
    assert_eq!(
        actions,
        vec![
            Action::SendCommand { tag: CommandTag::WriteMemory, args: vec![0x2000, 8, 0] },
            Action::ReadResponse { expected: ResponseCode::GenericResponse },
            Action::SendData { data: vec![0xAA; 8] },
            Action::ReadResponse { expected: ResponseCode::GenericResponse },
        ]
    );
    assert_eq!(result, Some(Ok(None)));
}

#[test]
fn set_user_key_of_the_device_secret() {
    let (actions, result) = drive(
        do_isp_set_userkey(KeyType::UDS, vec![0x01; 32]).unwrap(),
        vec![
            Event::Sent,
            ack(ResponseCode::KeyProvisionResponse),
            Event::Sent,
            ack(ResponseCode::GenericResponse),
        ],
    );
    assert_eq!(
        actions,
        vec![
            Action::SendCommand { tag: CommandTag::KeyProvision, args: vec![1, 12, 32] },
            Action::ReadResponse { expected: ResponseCode::KeyProvisionResponse },
            Action::SendData { data: vec![0x01; 32] },
            Action::ReadResponse { expected: ResponseCode::GenericResponse },
        ]
    );
    assert_eq!(result, Some(Ok(None)));
}

#[test]
fn set_user_key_refused_at_the_command() {
    let (actions, result) = drive(
        do_isp_set_userkey(KeyType::UDS, vec![0x01; 32]).unwrap(),
        vec![Event::Sent, ack(ResponseCode::GenericResponse), Event::Sent, Event::Sent],
    );
    assert_eq!(
        actions,
        vec![
            Action::SendCommand { tag: CommandTag::KeyProvision, args: vec![1, 12, 32] },
            Action::ReadResponse { expected: ResponseCode::KeyProvisionResponse },
        ]
    );
    let error = Error::UnexpectedResponse {
        stage: Stage::CommandAck,
        expected: ResponseCode::KeyProvisionResponse,
        observed: ResponseCode::GenericResponse,
    };
    assert_eq!(result, Some(Err(error)));
    assert_eq!(error.kind(), ErrorKind::Protocol);
}

#[test]
fn set_user_key_refused_after_the_key() {
    let (actions, result) = drive(
        do_isp_set_userkey(KeyType::UDS, vec![0x01; 32]).unwrap(),
        vec![
            Event::Sent,
            ack(ResponseCode::KeyProvisionResponse),
            Event::Sent,
            ack(ResponseCode::KeyProvisionResponse),
        ],
    );
    assert_eq!(actions.len(), 4);
    assert_eq!(actions[2], Action::SendData { data: vec![0x01; 32] });
    assert_eq!(
        result,
        Some(Err(Error::UnexpectedResponse {
            stage: Stage::DataAck,
            expected: ResponseCode::GenericResponse,
            observed: ResponseCode::KeyProvisionResponse,
        }))
    );
}

#[test]
fn short_read_is_refused() {
    let (actions, result) = drive(
        do_isp_read_memory(0x1000, 16),
        vec![
            Event::Sent,
            ack(ResponseCode::ReadMemoryResponse),
            Event::Data { bytes: vec![0xEE; 10] },
            ack(ResponseCode::GenericResponse),
        ],
    );
    assert_eq!(actions.len(), 3);
    assert_eq!(actions[2], Action::RecvData { cnt: 16 });
    let error = Error::PayloadLength { declared: 16, received: 10 };
    assert_eq!(result, Some(Err(error)));
    assert_eq!(error.kind(), ErrorKind::Protocol);
}

#[test]
fn long_read_is_refused() {
    let (actions, result) = drive(
        do_isp_read_memory(0x1000, 16),
        vec![
            Event::Sent,
            ack(ResponseCode::ReadMemoryResponse),
            Event::Data { bytes: vec![0xEE; 17] },
        ],
    );
    assert_eq!(actions.len(), 3);
    assert_eq!(result, Some(Err(Error::PayloadLength { declared: 16, received: 17 })));
}

#[test]
fn empty_read_where_bytes_are_due() {
    let (_, result) = drive(
        do_isp_read_memory(0x1000, 1),
        vec![Event::Sent, ack(ResponseCode::ReadMemoryResponse), Event::Data { bytes: vec![] }],
    );
    assert_eq!(result, Some(Err(Error::PayloadLength { declared: 1, received: 0 })));
}

#[test]
fn read_of_no_bytes() {
    let (actions, result) = drive(
        do_isp_read_memory(0x1000, 0),
        vec![
            Event::Sent,
            ack(ResponseCode::ReadMemoryResponse),
            Event::Data { bytes: vec![] },
            ack(ResponseCode::GenericResponse),
        ],
    );
    assert_eq!(actions.len(), 4);
    assert_eq!(actions[2], Action::RecvData { cnt: 0 });
    assert_eq!(result, Some(Ok(Some(vec![]))));
}

#[test]
fn received_length_is_the_declared_length() {
    for cnt in [0_u32, 1, 2, 255, 256, 4096] {
        let command = do_isp_read_memory(0x10, cnt);
        let script = script_that_succeeds(&command);
        let (_, result) = drive(command, script);
        let payload = result.unwrap().unwrap().unwrap();
        assert_eq!(payload.len(), cnt as usize);
        for wrong in [cnt + 1, cnt + 100] {
            let (_, result) = drive(
                do_isp_read_memory(0x10, cnt),
                vec![
                    Event::Sent,
                    ack(ResponseCode::ReadMemoryResponse),
                    Event::Data { bytes: vec![0; wrong as usize] },
                    ack(ResponseCode::GenericResponse),
                ],
            );
            assert_eq!(
                result,
                Some(Err(Error::PayloadLength { declared: cnt, received: wrong as usize }))
            );
        }
    }
}

#[test]
fn commands_without_data_take_two_exchanges() {
    for command in no_data_commands() {
        let frame = Action::SendCommand { tag: command.tag, args: command.args.clone() };
        let due = command.command_resp;
        let (actions, result) = drive(command, vec![Event::Sent, ack(due)]);
        assert_eq!(actions, vec![frame, Action::ReadResponse { expected: due }]);
        assert_eq!(result, Some(Ok(None)));
    }
}

#[test]
fn commands_without_data_never_move_a_payload() {
    let scripts = [
        vec![Event::Sent, ack(ResponseCode::GenericResponse), Event::Sent, Event::Sent],
        vec![Event::Sent, ack(ResponseCode::KeyProvisionResponse), Event::Sent],
        vec![Event::Sent, Event::Data { bytes: vec![1, 2] }, Event::Sent],
        vec![Event::Failed, Event::Sent, Event::Sent],
        vec![Event::Sent, Event::Failed],
        vec![Event::Sent],
        vec![],
    ];
    for script in scripts {
        for command in no_data_commands() {
            let (actions, _) = drive(command, script.clone());
            assert!(actions.len() <= 2);
            assert!(!actions.iter().any(is_data_action));
        }
    }
}

#[test]
fn commands_with_a_send_phase_take_three_exchanges() {
    for command in send_commands() {
        let frame = Action::SendCommand { tag: command.tag, args: command.args.clone() };
        let payload = sent_payload(&command);
        let first = command.command_resp;
        let script = script_that_succeeds(&command);
        let (actions, result) = drive(command, script);
        assert_eq!(
            actions,
            vec![
                frame,
                Action::ReadResponse { expected: first },
                Action::SendData { data: payload },
                Action::ReadResponse { expected: ResponseCode::GenericResponse },
            ]
        );
        assert_eq!(result, Some(Ok(None)));
    }
}

#[test]
fn secure_boot_file_goes_out_whole() {
    let file: Vec<u8> = (0..3000_u32).map(|i| (i % 251) as u8).collect();
    let command = do_recv_sb_file(file.clone()).unwrap();
    assert_eq!(command.args, vec![3000]);
    let script = script_that_succeeds(&command);
    let (actions, result) = drive(command, script);
    assert_eq!(actions[0], Action::SendCommand { tag: CommandTag::ReceiveSbFile, args: vec![3000] });
    assert_eq!(actions[2], Action::SendData { data: file });
    assert_eq!(result, Some(Ok(None)));
}

#[test]
fn key_store_goes_out_whole() {
    let keystore: Vec<u8> = (0..=255).rev().collect();
    let (actions, result) = drive(
        do_isp_write_keystore(keystore.clone()),
        vec![
            Event::Sent,
            ack(ResponseCode::KeyProvisionResponse),
            Event::Sent,
            ack(ResponseCode::GenericResponse),
        ],
    );
    assert_eq!(
        actions,
        vec![
            Action::SendCommand { tag: CommandTag::KeyProvision, args: vec![5] },
            Action::ReadResponse { expected: ResponseCode::KeyProvisionResponse },
            Action::SendData { data: keystore },
            Action::ReadResponse { expected: ResponseCode::GenericResponse },
        ]
    );
    assert_eq!(result, Some(Ok(None)));
}

#[test]
fn no_payload_before_the_acknowledgement() {
    let mut commands = send_commands();
    commands.push(do_isp_read_memory(0x1000, 16));
    for command in commands {
        let wrong = if command.command_resp == ResponseCode::GenericResponse {
            ResponseCode::KeyProvisionResponse
        } else {
            ResponseCode::GenericResponse
        };
        let scripts = [
            vec![Event::Failed, ack(command.command_resp), Event::Sent],
            vec![ack(command.command_resp), Event::Sent, Event::Sent],
            vec![Event::Sent, ack(wrong), Event::Sent],
            vec![Event::Sent, Event::Failed, Event::Sent],
            vec![Event::Sent, Event::Sent, Event::Sent],
            vec![Event::Sent, Event::Data { bytes: vec![0; 16] }, Event::Sent],
            vec![Event::Sent],
            vec![],
        ];
        for script in scripts {
            let (actions, result) = drive(command.clone(), script);
            assert!(!actions.iter().any(is_data_action));
            assert!(!matches!(result, Some(Ok(_))));
        }
        let (actions, _) = drive(command.clone(), vec![Event::Sent, ack(command.command_resp)]);
        assert_eq!(actions.len(), 3);
        assert!(is_data_action(&actions[2]));
        assert!(!is_data_action(&actions[0]));
        assert!(!is_data_action(&actions[1]));
    }
}

#[test]
fn erase_all_twice_sends_the_same_frame() {
    let frame = Action::SendCommand { tag: CommandTag::FlashEraseAll, args: vec![0] };
    let (first, result) = drive(do_isp_flash_erase_all(), vec![Event::Sent, Event::Failed]);
    assert_eq!(result, Some(Err(Error::Transport { stage: Stage::CommandAck })));
    let (second, result) =
        drive(do_isp_flash_erase_all(), vec![Event::Sent, ack(ResponseCode::GenericResponse)]);
    assert_eq!(result, Some(Ok(None)));
    assert_eq!(first[0], frame);
    assert_eq!(second[0], frame);
    assert_eq!(first, second);
}

#[test]
fn link_failure_at_each_stage() {
    let stages = [Stage::Command, Stage::CommandAck, Stage::Data, Stage::DataAck];
    let mut commands = send_commands();
    commands.push(do_isp_read_memory(0x1000, 16));
    for command in commands {
        for (place, stage) in stages.iter().enumerate() {
            let mut script = script_that_succeeds(&command);
            script[place] = Event::Failed;
            let (actions, result) = drive(command.clone(), script);
            assert_eq!(actions.len(), place + 1);
            let error = Error::Transport { stage: *stage };
            assert_eq!(result, Some(Err(error)));
            assert_eq!(error.kind(), ErrorKind::Transport);
        }
    }
    for command in no_data_commands() {
        let (_, result) = drive(command.clone(), vec![Event::Failed]);
        assert_eq!(result, Some(Err(Error::Transport { stage: Stage::Command })));
        let (_, result) = drive(command, vec![Event::Sent, Event::Failed]);
        assert_eq!(result, Some(Err(Error::Transport { stage: Stage::CommandAck })));
    }
}

#[test]
fn events_out_of_turn() {
    let read = do_isp_read_memory(0x1000, 2);
    let write = do_isp_write_memory(0x1000, vec![1, 2]).unwrap();
    let first = ack(ResponseCode::ReadMemoryResponse);
    let last = ack(ResponseCode::GenericResponse);
    let bytes = Event::Data { bytes: vec![1, 2] };

    let (_, result) = drive(read.clone(), vec![first.clone()]);
    assert_eq!(result, Some(Err(Error::UnexpectedEvent { stage: Stage::Command })));
    let (_, result) = drive(read.clone(), vec![bytes.clone()]);
    assert_eq!(result, Some(Err(Error::UnexpectedEvent { stage: Stage::Command })));
    let (_, result) = drive(read.clone(), vec![Event::Sent, Event::Sent]);
    assert_eq!(result, Some(Err(Error::UnexpectedEvent { stage: Stage::CommandAck })));
    let (_, result) = drive(read.clone(), vec![Event::Sent, bytes.clone()]);
    assert_eq!(result, Some(Err(Error::UnexpectedEvent { stage: Stage::CommandAck })));
    let (_, result) = drive(read.clone(), vec![Event::Sent, first.clone(), Event::Sent]);
    assert_eq!(result, Some(Err(Error::UnexpectedEvent { stage: Stage::Data })));
    let (_, result) = drive(read.clone(), vec![Event::Sent, first.clone(), last.clone()]);
    assert_eq!(result, Some(Err(Error::UnexpectedEvent { stage: Stage::Data })));
    let (_, result) = drive(read.clone(), vec![Event::Sent, first.clone(), bytes.clone(), bytes.clone()]);
    assert_eq!(result, Some(Err(Error::UnexpectedEvent { stage: Stage::DataAck })));
    let (_, result) = drive(read, vec![Event::Sent, first, bytes.clone(), Event::Sent]);
    assert_eq!(result, Some(Err(Error::UnexpectedEvent { stage: Stage::DataAck })));

    let (_, result) = drive(write.clone(), vec![Event::Sent, last.clone(), bytes.clone()]);
    assert_eq!(result, Some(Err(Error::UnexpectedEvent { stage: Stage::Data })));
    let (_, result) = drive(write, vec![Event::Sent, last.clone(), last]);
    assert_eq!(result, Some(Err(Error::UnexpectedEvent { stage: Stage::Data })));
    assert_eq!(Error::UnexpectedEvent { stage: Stage::Data }.kind(), ErrorKind::Internal);
}

#[test]
fn unexpected_response_names_both_codes() {
    let (_, result) = drive(
        do_isp_read_memory(0x1000, 2),
        vec![Event::Sent, ack(ResponseCode::GetPropertyResponse)],
    );
    assert_eq!(
        result,
        Some(Err(Error::UnexpectedResponse {
            stage: Stage::CommandAck,
            expected: ResponseCode::ReadMemoryResponse,
            observed: ResponseCode::GetPropertyResponse,
        }))
    );
    let (_, result) = drive(
        do_isp_read_memory(0x1000, 2),
        vec![
            Event::Sent,
            ack(ResponseCode::ReadMemoryResponse),
            Event::Data { bytes: vec![5, 6] },
            ack(ResponseCode::ReadMemoryResponse),
        ],
    );
    assert_eq!(
        result,
        Some(Err(Error::UnexpectedResponse {
            stage: Stage::DataAck,
            expected: ResponseCode::GenericResponse,
            observed: ResponseCode::ReadMemoryResponse,
        }))
    );
}

#[test]
fn an_exchange_stays_open_until_its_last_acknowledgement() {
    let mut commands = send_commands();
    commands.push(do_isp_read_memory(0x1000, 16));
    commands.extend(no_data_commands());
    for command in commands {
        let script = script_that_succeeds(&command);
        for seen in 0..script.len() {
            let (actions, result) = drive(command.clone(), script[..seen].to_vec());
            assert_eq!(actions.len(), seen + 1);
            assert_eq!(result, None);
        }
        let (actions, result) = drive(command.clone(), script.clone());
        assert_eq!(actions.len(), script.len());
        assert!(matches!(result, Some(Ok(_))));
    }
}

#[test]
fn a_command_of_any_tag_runs_the_same_way() {
    let command = Command {
        tag: CommandTag::GetProperty,
        command_resp: ResponseCode::GetPropertyResponse,
        args: vec![1, 0],
        data: DataProc::NoData,
    };
    let (actions, result) =
        drive(command, vec![Event::Sent, ack(ResponseCode::GetPropertyResponse)]);
    assert_eq!(
        actions,
        vec![
            Action::SendCommand { tag: CommandTag::GetProperty, args: vec![1, 0] },
            Action::ReadResponse { expected: ResponseCode::GetPropertyResponse },
        ]
    );
    assert_eq!(result, Some(Ok(None)));
}
