use iot_registry::{
    delete_device, execute, process_instruction, receive_message, register_device, send_message,
    update_device, Account, DeviceInfo, IoTError, IoTInstruction, Message, ProcessError, Pubkey,
    MAX_DEVICE_TYPE_LEN, MAX_MESSAGE_LEN,
};

const NOW: i64 = 1_700_000_000;

fn key(byte: u8) -> Pubkey {
    Pubkey::new_from_array([byte; 32])
}

fn program() -> Pubkey {
    key(0xEE)
}

fn signer(byte: u8) -> Account {
    Account { key: key(byte), is_signer: true, data: Vec::new() }
}

fn bystander(byte: u8) -> Account {
    Account { key: key(byte), is_signer: false, data: Vec::new() }
}

fn buffer(byte: u8, len: usize) -> Account {
    Account { key: key(byte), is_signer: false, data: vec![0xAB; len] }
}

fn holding(byte: u8, record: Vec<u8>, len: usize) -> Account {
    let mut account = buffer(byte, len);
    account.data[..record.len()].copy_from_slice(&record);
    account
}

fn unauthorized() -> ProcessError {
    ProcessError::Custom(IoTError::UnauthorizedOperation)
}

fn register(device_type: &str, device_id: &str, owner: Pubkey) -> Vec<u8> {
    IoTInstruction::RegisterDevice {
        device_type: device_type.to_string(),
        device_id: device_id.to_string(),
        owner,
    }
    .pack()
    .unwrap()
}

fn update(new_device_type: &str, device_id: &str) -> Vec<u8> {
    IoTInstruction::UpdateDevice {
        new_device_type: new_device_type.to_string(),
        device_id: device_id.to_string(),
    }
    .pack()
    .unwrap()
}

fn delete(device_id: &str) -> Vec<u8> {
    IoTInstruction::DeleteDevice { device_id: device_id.to_string() }.pack().unwrap()
}

fn send(message: &str, recipient: Pubkey, message_id: u64) -> Vec<u8> {
    IoTInstruction::SendMessage { message: message.to_string(), recipient, message_id }
        .pack()
        .unwrap()
}

fn receive(sender: Pubkey, message_id: u64) -> Vec<u8> {
    IoTInstruction::ReceiveMessage { sender, message_id }.pack().unwrap()
}

fn sensor() -> DeviceInfo {
    DeviceInfo::new("sensor".to_string(), "dev-1".to_string(), key(7), 100)
}

fn letter() -> Message {
    Message {
        message_id: 42,
        sender: key(1),
        recipient: key(2),
        content: "hello".to_string(),
        timestamp: 100,
        read: false,
    }
}

#[test]
fn register_stores_a_fresh_record() {
    let mut accounts = vec![signer(1), buffer(9, 128)];
    let data = register("sensor", "dev-1", key(7));
    assert_eq!(process_instruction(&program(), &mut accounts, &data, NOW), Ok(()));
    let record = DeviceInfo::unpack(&accounts[1].data).unwrap();
    assert_eq!(
        record,
        DeviceInfo {
            initialized: true,
            device_type: "sensor".to_string(),
            device_id: "dev-1".to_string(),
            owner: key(7),
            last_activity: NOW,
            total_messages: 0,
            active: true,
        }
    );
}

#[test]
fn register_writes_the_front_and_leaves_the_rest() {
    let mut accounts = vec![signer(1), buffer(9, 128)];
    let data = register("sensor", "dev-1", key(7));
    process_instruction(&program(), &mut accounts, &data, NOW).unwrap();
    let expected = DeviceInfo::new("sensor".to_string(), "dev-1".to_string(), key(7), NOW)
        .pack()
        .unwrap();
    assert_eq!(expected.len(), 69);
    assert_eq!(&accounts[1].data[..69], &expected[..]);
    assert_eq!(&accounts[1].data[69..], &[0xAB; 59][..]);
    assert_eq!(accounts[1].data.len(), 128);
    assert_eq!(accounts[0], signer(1));
    assert_eq!(accounts[1].key, key(9));
    assert!(!accounts[1].is_signer);
}

#[test]
fn register_fills_a_buffer_of_exactly_the_record_size() {
    let mut accounts = vec![signer(1), buffer(9, 69)];
    let data = register("sensor", "dev-1", key(7));
    assert_eq!(process_instruction(&program(), &mut accounts, &data, NOW), Ok(()));
    assert_eq!(
        accounts[1].data,
        DeviceInfo::new("sensor".to_string(), "dev-1".to_string(), key(7), NOW).pack().unwrap()
    );
}

#[test]
fn register_into_too_small_a_buffer_fails_and_writes_nothing() {
    let mut accounts = vec![signer(1), buffer(9, 68)];
    let before = accounts.clone();
    let data = register("sensor", "dev-1", key(7));
    assert_eq!(
        process_instruction(&program(), &mut accounts, &data, NOW),
        Err(ProcessError::Serialization)
    );
    assert_eq!(accounts, before);
    let mut accounts = vec![signer(1), buffer(9, 0)];
    assert_eq!(
        process_instruction(&program(), &mut accounts, &data, NOW),
        Err(ProcessError::Serialization)
    );
}

#[test]
fn register_with_type_of_fifty_bytes_is_accepted() {
    let device_type = "t".repeat(MAX_DEVICE_TYPE_LEN);
    assert_eq!(device_type.len(), 50);
    let mut accounts = vec![signer(1), buffer(9, 200)];
    let data = register(&device_type, "dev-1", key(7));
    assert_eq!(process_instruction(&program(), &mut accounts, &data, NOW), Ok(()));
    assert_eq!(DeviceInfo::unpack(&accounts[1].data).unwrap().device_type, device_type);
}

#[test]
fn register_with_type_of_fifty_one_bytes_is_rejected() {
    let device_type = "t".repeat(51);
    let mut accounts = vec![signer(1), buffer(9, 200)];
    let before = accounts.clone();
    let data = register(&device_type, "dev-1", key(7));
    assert_eq!(
        process_instruction(&program(), &mut accounts, &data, NOW),
        Err(ProcessError::Custom(IoTError::InvalidDeviceType))
    );
    assert_eq!(accounts, before);
}

#[test]
fn register_measures_the_type_in_bytes() {
    let device_type = "é".repeat(26);
    assert_eq!(device_type.chars().count(), 26);
    assert_eq!(device_type.len(), 52);
    let mut accounts = vec![signer(1), buffer(9, 200)];
    let data = register(&device_type, "dev-1", key(7));
    assert_eq!(
        process_instruction(&program(), &mut accounts, &data, NOW),
        Err(ProcessError::Custom(IoTError::InvalidDeviceType))
    );
    let device_type = "é".repeat(25);
    let data = register(&device_type, "dev-1", key(7));
    assert_eq!(process_instruction(&program(), &mut accounts, &data, NOW), Ok(()));
}

#[test]
fn register_without_signature_is_unauthorized() {
    let mut accounts = vec![bystander(1), buffer(9, 128)];
    let before = accounts.clone();
    let data = register("sensor", "dev-1", key(7));
    assert_eq!(process_instruction(&program(), &mut accounts, &data, NOW), Err(unauthorized()));
    assert_eq!(accounts, before);
}

#[test]
fn signature_is_checked_before_the_type() {
    let mut accounts = vec![bystander(1), buffer(9, 200)];
    let data = register(&"t".repeat(51), "dev-1", key(7));
    assert_eq!(process_instruction(&program(), &mut accounts, &data, NOW), Err(unauthorized()));
}

#[test]
fn register_overwrites_an_existing_device() {
    let mut accounts = vec![signer(1), holding(9, sensor().pack().unwrap(), 128)];
    let data = register("pump", "dev-2", key(8));
    assert_eq!(process_instruction(&program(), &mut accounts, &data, NOW), Ok(()));
    assert_eq!(
        DeviceInfo::unpack(&accounts[1].data),
        Some(DeviceInfo::new("pump".to_string(), "dev-2".to_string(), key(8), NOW))
    );
}

#[test]
fn register_does_not_require_the_owner_to_sign() {
    let mut accounts = vec![signer(1), buffer(9, 128)];
    let data = register("sensor", "dev-1", key(7));
    assert_eq!(process_instruction(&program(), &mut accounts, &data, NOW), Ok(()));
    let record = DeviceInfo::unpack(&accounts[1].data).unwrap();
    assert_eq!(record.owner, key(7));
    assert_ne!(record.owner, accounts[0].key);
}

#[test]
fn update_replaces_type_and_time_only() {
    let stored = DeviceInfo { total_messages: 5, ..sensor() };
    let mut accounts = vec![signer(1), holding(9, stored.pack().unwrap(), 128)];
    let data = update("actuator", "dev-1");
    assert_eq!(process_instruction(&program(), &mut accounts, &data, NOW), Ok(()));
    assert_eq!(
        DeviceInfo::unpack(&accounts[1].data),
        Some(DeviceInfo {
            initialized: true,
            device_type: "actuator".to_string(),
            device_id: "dev-1".to_string(),
            owner: key(7),
            last_activity: NOW,
            total_messages: 5,
            active: true,
        })
    );
}

#[test]
fn update_with_other_device_id_is_unauthorized() {
    let mut accounts = vec![signer(1), holding(9, sensor().pack().unwrap(), 128)];
    let before = accounts.clone();
    let data = update("actuator", "dev-2");
    assert_eq!(process_instruction(&program(), &mut accounts, &data, NOW), Err(unauthorized()));
    assert_eq!(accounts, before);
}

#[test]
fn update_without_signature_is_unauthorized() {
    let mut accounts = vec![bystander(1), holding(9, sensor().pack().unwrap(), 128)];
    let before = accounts.clone();
    let data = update("actuator", "dev-1");
    assert_eq!(process_instruction(&program(), &mut accounts, &data, NOW), Err(unauthorized()));
    assert_eq!(accounts, before);
}

#[test]
fn update_of_a_buffer_without_record_is_malformed() {
    let mut accounts = vec![signer(1), buffer(9, 128)];
    let before = accounts.clone();
    let data = update("actuator", "dev-1");
    assert_eq!(
        process_instruction(&program(), &mut accounts, &data, NOW),
        Err(ProcessError::MalformedRecord)
    );
    assert_eq!(accounts, before);
    let mut accounts = vec![signer(1), buffer(9, 0)];
    assert_eq!(
        process_instruction(&program(), &mut accounts, &data, NOW),
        Err(ProcessError::MalformedRecord)
    );
}

#[test]
fn zeroed_buffer_reads_as_a_device_without_id() {
    let zeroed = Account { key: key(9), is_signer: false, data: vec![0; 64] };
    let mut accounts = vec![signer(1), zeroed];
    let before = accounts.clone();
    let data = update("actuator", "dev-1");
    assert_eq!(process_instruction(&program(), &mut accounts, &data, NOW), Err(unauthorized()));
    assert_eq!(accounts, before);
    let data = delete("dev-1");
    assert_eq!(process_instruction(&program(), &mut accounts, &data, NOW), Err(unauthorized()));
    assert_eq!(accounts, before);
    let data = delete("");
    assert_eq!(process_instruction(&program(), &mut accounts, &data, NOW), Ok(()));
    let stored = DeviceInfo::unpack(&accounts[1].data).unwrap();
    assert!(!stored.initialized);
    assert!(!stored.active);
    assert_eq!(stored.last_activity, NOW);
}

#[test]
fn update_does_not_limit_the_new_type() {
    let mut accounts = vec![signer(1), holding(9, sensor().pack().unwrap(), 400)];
    let long = "t".repeat(200);
    let data = update(&long, "dev-1");
    assert_eq!(process_instruction(&program(), &mut accounts, &data, NOW), Ok(()));
    assert_eq!(DeviceInfo::unpack(&accounts[1].data).unwrap().device_type, long);
}

#[test]
fn update_that_outgrows_the_buffer_fails_and_writes_nothing() {
    let record = sensor().pack().unwrap();
    let len = record.len();
    let mut accounts = vec![signer(1), holding(9, record, len + 1)];
    let before = accounts.clone();
    let data = update("actuator", "dev-1");
    assert_eq!(
        process_instruction(&program(), &mut accounts, &data, NOW),
        Err(ProcessError::Serialization)
    );
    assert_eq!(accounts, before);
}

#[test]
fn update_to_a_shorter_type_leaves_stale_bytes_behind_the_record() {
    let record = sensor().pack().unwrap();
    let len = record.len();
    let mut accounts = vec![signer(1), holding(9, record.clone(), len)];
    let data = update("led", "dev-1");
    assert_eq!(process_instruction(&program(), &mut accounts, &data, NOW), Ok(()));
    assert_eq!(accounts[1].data.len(), len);
    assert_eq!(&accounts[1].data[len - 3..], &record[len - 3..]);
    let stored = DeviceInfo::unpack(&accounts[1].data).unwrap();
    assert_eq!(stored.device_type, "led");
    assert_eq!(stored.device_id, "dev-1");
}

#[test]
fn delete_deactivates_and_keeps_the_rest() {
    let stored = DeviceInfo { total_messages: 5, ..sensor() };
    let len = stored.pack().unwrap().len();
    let mut accounts = vec![signer(1), holding(9, stored.pack().unwrap(), len)];
    let data = delete("dev-1");
    assert_eq!(process_instruction(&program(), &mut accounts, &data, NOW), Ok(()));
    assert_eq!(
        DeviceInfo::unpack(&accounts[1].data),
        Some(DeviceInfo {
            initialized: true,
            device_type: "sensor".to_string(),
            device_id: "dev-1".to_string(),
            owner: key(7),
            last_activity: NOW,
            total_messages: 5,
            active: false,
        })
    );
}

#[test]
fn delete_with_other_device_id_is_unauthorized() {
    let mut accounts = vec![signer(1), holding(9, sensor().pack().unwrap(), 128)];
    let before = accounts.clone();
    let data = delete("dev-10");
    assert_eq!(process_instruction(&program(), &mut accounts, &data, NOW), Err(unauthorized()));
    assert_eq!(accounts, before);
}

#[test]
fn delete_without_signature_is_unauthorized() {
    let mut accounts = vec![bystander(1), holding(9, sensor().pack().unwrap(), 128)];
    let before = accounts.clone();
    let data = delete("dev-1");
    assert_eq!(process_instruction(&program(), &mut accounts, &data, NOW), Err(unauthorized()));
    assert_eq!(accounts, before);
}

#[test]
fn delete_of_a_buffer_without_record_is_malformed() {
    let mut accounts = vec![signer(1), buffer(9, 128)];
    let data = delete("dev-1");
    assert_eq!(
        process_instruction(&program(), &mut accounts, &data, NOW),
        Err(ProcessError::MalformedRecord)
    );
}

#[test]
fn delete_twice_succeeds_and_refreshes_the_time() {
    let mut accounts = vec![signer(1), holding(9, sensor().pack().unwrap(), 128)];
    let data = delete("dev-1");
    assert_eq!(process_instruction(&program(), &mut accounts, &data, NOW), Ok(()));
    assert_eq!(process_instruction(&program(), &mut accounts, &data, NOW + 5), Ok(()));
    let stored = DeviceInfo::unpack(&accounts[1].data).unwrap();
    assert!(!stored.active);
    assert_eq!(stored.last_activity, NOW + 5);
}

#[test]
fn device_lifecycle_end_to_end() {
    let owner = key(7);
    let mut accounts = vec![signer(1), buffer(9, 256)];

    let data = register("sensor", "dev-1", owner);
    assert_eq!(process_instruction(&program(), &mut accounts, &data, 10), Ok(()));
    let record = DeviceInfo::unpack(&accounts[1].data).unwrap();
    assert_eq!(record.device_type, "sensor");
    assert_eq!(record.device_id, "dev-1");
    assert_eq!(record.owner, owner);
    assert!(record.active);

    let data = update("actuator", "dev-1");
    assert_eq!(process_instruction(&program(), &mut accounts, &data, 20), Ok(()));
    let record = DeviceInfo::unpack(&accounts[1].data).unwrap();
    assert_eq!(record.device_type, "actuator");
    assert_eq!(record.device_id, "dev-1");
    assert_eq!(record.owner, owner);
    assert!(record.active);
    assert_eq!(record.last_activity, 20);

    let data = delete("dev-1");
    assert_eq!(process_instruction(&program(), &mut accounts, &data, 30), Ok(()));
    let record = DeviceInfo::unpack(&accounts[1].data).unwrap();
    assert!(!record.active);
    assert_eq!(record.device_type, "actuator");
    assert_eq!(record.owner, owner);

    let data = update("x", "dev-1");
    assert_eq!(process_instruction(&program(), &mut accounts, &data, 40), Ok(()));
    let record = DeviceInfo::unpack(&accounts[1].data).unwrap();
    assert_eq!(record.device_type, "x");
    assert!(!record.active);
    assert!(record.initialized);
    assert_eq!(record.total_messages, 0);
    assert_eq!(record.last_activity, 40);
}

#[test]
fn send_stores_an_unread_message_from_the_signer() {
    let mut accounts = vec![signer(1), bystander(2), buffer(9, 256)];
    let data = send("hello", key(2), 42);
    assert_eq!(process_instruction(&program(), &mut accounts, &data, NOW), Ok(()));
    assert_eq!(
        Message::unpack(&accounts[2].data),
        Some(Message {
            message_id: 42,
            sender: key(1),
            recipient: key(2),
            content: "hello".to_string(),
            timestamp: NOW,
            read: false,
        })
    );
    assert_eq!(accounts[0], signer(1));
    assert_eq!(accounts[1], bystander(2));
}

#[test]
fn send_takes_the_recipient_from_the_command_not_from_the_accounts() {
    let mut accounts = vec![signer(1), bystander(2), buffer(9, 256)];
    let data = send("hello", key(3), 42);
    assert_eq!(process_instruction(&program(), &mut accounts, &data, NOW), Ok(()));
    let stored = Message::unpack(&accounts[2].data).unwrap();
    assert_eq!(stored.recipient, key(3));
    assert_eq!(stored.sender, key(1));
}

#[test]
fn send_with_content_of_a_thousand_bytes_is_accepted() {
    let content = "m".repeat(MAX_MESSAGE_LEN);
    assert_eq!(content.len(), 1000);
    let mut accounts = vec![signer(1), bystander(2), buffer(9, 1085)];
    let data = send(&content, key(2), 1);
    assert_eq!(process_instruction(&program(), &mut accounts, &data, NOW), Ok(()));
    let stored = Message::unpack(&accounts[2].data).unwrap();
    assert_eq!(stored.content, content);
    assert!(!stored.read);
}

#[test]
fn send_with_content_of_a_thousand_and_one_bytes_is_rejected() {
    let content = "m".repeat(1001);
    let mut accounts = vec![signer(1), bystander(2), buffer(9, 2000)];
    let before = accounts.clone();
    let data = send(&content, key(2), 1);
    assert_eq!(
        process_instruction(&program(), &mut accounts, &data, NOW),
        Err(ProcessError::Custom(IoTError::InvalidMessageLength))
    );
    assert_eq!(accounts, before);
}

#[test]
fn send_without_signature_is_unauthorized() {
    let mut accounts = vec![bystander(1), signer(2), buffer(9, 256)];
    let before = accounts.clone();
    let data = send("hello", key(2), 42);
    assert_eq!(process_instruction(&program(), &mut accounts, &data, NOW), Err(unauthorized()));
    assert_eq!(accounts, before);
    let data = send(&"m".repeat(1001), key(2), 42);
    assert_eq!(process_instruction(&program(), &mut accounts, &data, NOW), Err(unauthorized()));
}

#[test]
fn send_into_too_small_a_buffer_fails_and_writes_nothing() {
    let mut accounts = vec![signer(1), bystander(2), buffer(9, 89)];
    let before = accounts.clone();
    let data = send("hello", key(2), 42);
    assert_eq!(
        process_instruction(&program(), &mut accounts, &data, NOW),
        Err(ProcessError::Serialization)
    );
    assert_eq!(accounts, before);
    accounts[2].data.push(0);
    assert_eq!(process_instruction(&program(), &mut accounts, &data, NOW), Ok(()));
}

#[test]
fn send_needs_three_accounts() {
    let data = send("hello", key(2), 42);
    let mut accounts = vec![signer(1), buffer(9, 256)];
    let before = accounts.clone();
    assert_eq!(
        process_instruction(&program(), &mut accounts, &data, NOW),
        Err(ProcessError::NotEnoughAccountKeys)
    );
    assert_eq!(accounts, before);
    let mut accounts = vec![bystander(1), buffer(9, 256)];
    assert_eq!(
        process_instruction(&program(), &mut accounts, &data, NOW),
        Err(ProcessError::NotEnoughAccountKeys)
    );
    let mut accounts: Vec<Account> = Vec::new();
    assert_eq!(
        process_instruction(&program(), &mut accounts, &data, NOW),
        Err(ProcessError::NotEnoughAccountKeys)
    );
}

#[test]
fn other_commands_need_two_accounts() {
    for data in [
        register("sensor", "dev-1", key(7)),
        update("actuator", "dev-1"),
        delete("dev-1"),
        receive(key(1), 42),
    ] {
        let mut accounts = vec![signer(1)];
        assert_eq!(
            process_instruction(&program(), &mut accounts, &data, NOW),
            Err(ProcessError::NotEnoughAccountKeys)
        );
        assert_eq!(accounts, vec![signer(1)]);
        let mut accounts: Vec<Account> = Vec::new();
        assert_eq!(
            process_instruction(&program(), &mut accounts, &data, NOW),
            Err(ProcessError::NotEnoughAccountKeys)
        );
    }
}

#[test]
fn accounts_beyond_those_taken_are_ignored() {
    let mut accounts = vec![signer(1), buffer(9, 128), buffer(10, 16), signer(11)];
    let data = register("sensor", "dev-1", key(7));
    assert_eq!(process_instruction(&program(), &mut accounts, &data, NOW), Ok(()));
    assert_eq!(accounts[2], buffer(10, 16));
    assert_eq!(accounts[3], signer(11));
}

#[test]
fn receive_marks_the_message_read_and_keeps_the_rest() {
    let mut accounts = vec![signer(2), holding(9, letter().pack().unwrap(), 128)];
    let data = receive(key(1), 42);
    assert_eq!(process_instruction(&program(), &mut accounts, &data, NOW), Ok(()));
    assert_eq!(Message::unpack(&accounts[1].data), Some(Message { read: true, ..letter() }));
    assert_eq!(&accounts[1].data[90..], &[0xAB; 38][..]);
}

#[test]
fn receive_does_not_look_at_the_sender_in_the_command() {
    let mut accounts = vec![signer(2), holding(9, letter().pack().unwrap(), 128)];
    let data = receive(key(0x55), 42);
    assert_eq!(process_instruction(&program(), &mut accounts, &data, NOW), Ok(()));
    let stored = Message::unpack(&accounts[1].data).unwrap();
    assert!(stored.read);
    assert_eq!(stored.sender, key(1));
}

#[test]
fn receive_twice_succeeds() {
    let mut accounts = vec![signer(2), holding(9, letter().pack().unwrap(), 128)];
    let data = receive(key(1), 42);
    assert_eq!(process_instruction(&program(), &mut accounts, &data, NOW), Ok(()));
    let after_first = accounts.clone();
    assert_eq!(process_instruction(&program(), &mut accounts, &data, NOW + 1), Ok(()));
    assert_eq!(accounts, after_first);
    assert_eq!(Message::unpack(&accounts[1].data).unwrap().timestamp, 100);
}

#[test]
fn receive_by_another_identity_is_unauthorized() {
    let mut accounts = vec![signer(3), holding(9, letter().pack().unwrap(), 128)];
    let before = accounts.clone();
    let data = receive(key(1), 42);
    assert_eq!(process_instruction(&program(), &mut accounts, &data, NOW), Err(unauthorized()));
    assert_eq!(accounts, before);
    assert!(!Message::unpack(&accounts[1].data).unwrap().read);
}

#[test]
fn receive_by_another_identity_leaves_a_read_message_read() {
    let read = Message { read: true, ..letter() };
    let mut accounts = vec![signer(3), holding(9, read.pack().unwrap(), 128)];
    let data = receive(key(1), 42);
    assert_eq!(process_instruction(&program(), &mut accounts, &data, NOW), Err(unauthorized()));
    assert!(Message::unpack(&accounts[1].data).unwrap().read);
}

#[test]
fn receive_with_other_message_id_is_unauthorized() {
    let mut accounts = vec![signer(2), holding(9, letter().pack().unwrap(), 128)];
    let before = accounts.clone();
    let data = receive(key(1), 43);
    assert_eq!(process_instruction(&program(), &mut accounts, &data, NOW), Err(unauthorized()));
    assert_eq!(accounts, before);
}

#[test]
fn receive_without_signature_is_unauthorized() {
    let mut recipient = bystander(2);
    recipient.data = vec![1, 2, 3];
    let mut accounts = vec![recipient, holding(9, letter().pack().unwrap(), 128)];
    let before = accounts.clone();
    let data = receive(key(1), 42);
    assert_eq!(process_instruction(&program(), &mut accounts, &data, NOW), Err(unauthorized()));
    assert_eq!(accounts, before);
}

#[test]
fn receive_of_a_buffer_without_record_is_malformed() {
    let mut accounts = vec![signer(2), buffer(9, 40)];
    let before = accounts.clone();
    let data = receive(key(1), 42);
    assert_eq!(
        process_instruction(&program(), &mut accounts, &data, NOW),
        Err(ProcessError::MalformedRecord)
    );
    assert_eq!(accounts, before);
}

#[test]
fn message_lifecycle_end_to_end() {
    let mut accounts = vec![signer(1), bystander(2), buffer(9, 300)];
    let data = send("ping", key(2), 7);
    assert_eq!(process_instruction(&program(), &mut accounts, &data, 50), Ok(()));
    let stored = accounts[2].data.clone();

    let mut accounts = vec![signer(2), Account { key: key(9), is_signer: false, data: stored }];
    let data = receive(key(1), 7);
    assert_eq!(process_instruction(&program(), &mut accounts, &data, 60), Ok(()));
    assert_eq!(
        Message::unpack(&accounts[1].data),
        Some(Message {
            message_id: 7,
            sender: key(1),
            recipient: key(2),
            content: "ping".to_string(),
            timestamp: 50,
            read: true,
        })
    );
}

#[test]
fn malformed_instruction_is_rejected_before_the_accounts_are_looked_at() {
    let mut accounts: Vec<Account> = Vec::new();
    assert_eq!(
        process_instruction(&program(), &mut accounts, &[9], NOW),
        Err(ProcessError::MalformedInstruction)
    );
    assert_eq!(
        process_instruction(&program(), &mut accounts, &[], NOW),
        Err(ProcessError::MalformedInstruction)
    );
    let mut accounts = vec![signer(1), buffer(9, 128)];
    let before = accounts.clone();
    let mut data = register("sensor", "dev-1", key(7));
    data.push(0);
    assert_eq!(
        process_instruction(&program(), &mut accounts, &data, NOW),
        Err(ProcessError::MalformedInstruction)
    );
    data.truncate(data.len() - 2);
    assert_eq!(
        process_instruction(&program(), &mut accounts, &data, NOW),
        Err(ProcessError::MalformedInstruction)
    );
    assert_eq!(accounts, before);
}

#[test]
fn the_program_id_plays_no_part() {
    let data = register("sensor", "dev-1", key(7));
    let mut first = vec![signer(1), buffer(9, 128)];
    let mut second = first.clone();
    assert_eq!(process_instruction(&key(0), &mut first, &data, NOW), Ok(()));
    assert_eq!(process_instruction(&key(0xFF), &mut second, &data, NOW), Ok(()));
    assert_eq!(first, second);
}

#[test]
fn execute_does_what_the_buffer_of_the_command_does() {
    let instruction = IoTInstruction::SendMessage {
        message: "hello".to_string(),
        recipient: key(2),
        message_id: 42,
    };
    let mut direct = vec![signer(1), bystander(2), buffer(9, 256)];
    let mut decoded = direct.clone();
    let data = instruction.pack().unwrap();
    assert_eq!(execute(&mut direct, instruction, NOW), Ok(()));
    assert_eq!(process_instruction(&program(), &mut decoded, &data, NOW), Ok(()));
    assert_eq!(direct, decoded);
}

#[test]
fn commands_can_be_called_on_their_fields() {
    let mut accounts = vec![signer(1), buffer(9, 128)];
    assert_eq!(
        register_device(&mut accounts, "sensor".to_string(), "dev-1".to_string(), key(7), 1),
        Ok(())
    );
    assert_eq!(
        update_device(&mut accounts, "actuator".to_string(), "dev-1".to_string(), 2),
        Ok(())
    );
    assert_eq!(update_device(&mut accounts, "x".to_string(), "dev-9".to_string(), 3), Err(unauthorized()));
    assert_eq!(delete_device(&mut accounts, "dev-1".to_string(), 4), Ok(()));
    assert_eq!(
        DeviceInfo::unpack(&accounts[1].data),
        Some(DeviceInfo {
            initialized: true,
            device_type: "actuator".to_string(),
            device_id: "dev-1".to_string(),
            owner: key(7),
            last_activity: 4,
            total_messages: 0,
            active: false,
        })
    );

    let mut accounts = vec![signer(1), bystander(2), buffer(9, 128)];
    assert_eq!(send_message(&mut accounts, "hello".to_string(), key(1), 5, 6), Ok(()));
    let stored = accounts.remove(2);
    let mut accounts = vec![signer(1), stored];
    assert_eq!(receive_message(&mut accounts, 6), Err(unauthorized()));
    assert_eq!(receive_message(&mut accounts, 5), Ok(()));
    assert!(Message::unpack(&accounts[1].data).unwrap().read);
}

#[test]
fn failure_kinds_have_stable_codes() {
    assert_eq!(IoTError::InsufficientBalance.code(), 0);
    assert_eq!(IoTError::InvalidDeviceType.code(), 1);
    assert_eq!(IoTError::InvalidMessageLength.code(), 2);
    assert_eq!(IoTError::UnauthorizedOperation.code(), 3);
}

#[test]
fn failure_kinds_have_messages() {
    assert_eq!(IoTError::InsufficientBalance.message(), "Insufficient balance");
    assert_eq!(IoTError::InvalidDeviceType.message(), "Invalid device type");
    assert_eq!(IoTError::InvalidMessageLength.message(), "Invalid message length");
    assert_eq!(IoTError::UnauthorizedOperation.message(), "Unauthorized operation");
}

#[test]
fn domain_failure_converts_into_a_rejection() {
    assert_eq!(
        ProcessError::from(IoTError::InvalidDeviceType),
        ProcessError::Custom(IoTError::InvalidDeviceType)
    );
    let converted: ProcessError = IoTError::UnauthorizedOperation.into();
    assert_eq!(converted, unauthorized());
}
