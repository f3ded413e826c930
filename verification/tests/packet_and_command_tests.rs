use pumpkin_core::blocks::{song_name, BlastFurnaceBlock, JukeboxAction, JukeboxBlock};
use pumpkin_core::client_suggestions::{
    nodes_to_proto_node_builders, ArgumentType, CommandSender, ProtoNode, ProtoNodeBuilder,
    ProtoNodeType, SuggestionProviders,
};
use pumpkin_core::command_tree::CommandError;
use pumpkin_core::experience_command::{init_command_tree, xp_amount, ExpType, Executor, Mode};
use pumpkin_core::generation::Direction;
use pumpkin_core::login::{
    can_join, check_profile_actions, duplicate_login_check, handle_login_cookie_response,
    AuthError, DisconnectReason, SLoginCookieResponse,
};
use pumpkin_core::packet::{
    bytes_to_vec, decode_varuint, PacketDecodeError, UDPNetworkDecoder, VarUIntResult,
};
use pumpkin_core::summonable_entities::{
    entity_index_from_name, find_arg, Arg, SummonableEntitiesArgumentConsumer,
};
use pumpkin_core::text::TextComponent;
use pumpkin_core::viewer::{ViewerCountListener, ViewerCountTracker};

#[test]
fn varuint_decoding() {
    assert_eq!(decode_varuint(&[0x05], 0), VarUIntResult::Value(5, 1));
    assert_eq!(decode_varuint(&[0x80, 0x01], 0), VarUIntResult::Value(128, 2));
    assert_eq!(decode_varuint(&[], 0), VarUIntResult::Eof);
    assert_eq!(decode_varuint(&[0x80], 0), VarUIntResult::Eof);
    assert_eq!(
        decode_varuint(&[0x80, 0x80, 0x80, 0x80, 0x80, 0x01], 0),
        VarUIntResult::TooLong
    );
}

#[test]
fn game_packet_parses_header_and_payload() {
    let decoder = UDPNetworkDecoder::new();
    // length 3 (one header byte + two payload bytes), header 0x09, payload [0xAA, 0xBB]
    let data = [0x03u8, 0x09, 0xAA, 0xBB];
    let packet = decoder.get_game_packet(&data).unwrap();
    assert_eq!(packet.id, 9);
    assert_eq!(packet.payload_bytes(), vec![0xAA, 0xBB]);
}

#[test]
fn game_packet_masks_the_identifier_to_ten_bits() {
    let decoder = UDPNetworkDecoder::new();
    // header varint 0xFF 0x3F = 0x1FFF: the low ten bits are 0x3FF.
    let data = [0x02u8, 0xFF, 0x3F];
    let packet = decoder.get_game_packet(&data).unwrap();
    assert_eq!(packet.id, 0x3FF);
    assert_eq!(packet.payload_bytes(), Vec::<u8>::new());
}

#[test]
fn game_packet_skips_method_byte_under_compression() {
    let mut decoder = UDPNetworkDecoder::new();
    decoder.set_compression(64);
    let data = [0x00u8, 0x03, 0x09, 0xAA, 0xBB];
    let packet = decoder.get_game_packet(&data).unwrap();
    assert_eq!(packet.id, 9);
    assert_eq!(packet.payload_bytes(), vec![0xAA, 0xBB]);
}

#[test]
fn game_packet_error_variants() {
    let decoder = UDPNetworkDecoder::new();
    match decoder.get_game_packet(&[]) {
        Err(PacketDecodeError::ConnectionClosed) => {},
        other => panic!("expected a closed connection, got {:?}", other),
    }
    match decoder.get_game_packet(&[0x80, 0x80, 0x80, 0x80, 0x80]) {
        Err(PacketDecodeError::MalformedLength(_)) => {},
        other => panic!("expected a malformed length, got {:?}", other),
    }
    // Declared three bytes, only one present.
    match decoder.get_game_packet(&[0x03, 0x09, 0xAA]) {
        Err(PacketDecodeError::FailedDecompression(_)) => {},
        other => panic!("expected a failed read, got {:?}", other),
    }
}

#[test]
fn packet_payload_passes_bytes_through() {
    let decoder = UDPNetworkDecoder::new();
    let payload = decoder.get_packet_payload(vec![1, 2, 3]).unwrap();
    assert_eq!(bytes_to_vec(&payload), vec![1, 2, 3]);
}

#[test]
fn success_messages_pick_key_and_arguments() {
    let single = Executor::get_success_message(
        Mode::Add,
        ExpType::Points,
        5,
        1,
        Some(TextComponent::text("steve")),
    );
    match single {
        TextComponent::Translate { key, with } => {
            assert_eq!(key, "commands.experience.add.points.success.single");
            assert_eq!(with.len(), 2);
            assert_eq!(with[0], TextComponent::Text("5".to_string()));
            assert_eq!(with[1], TextComponent::Text("steve".to_string()));
        },
        other => panic!("expected a translated message, got {:?}", other),
    }
    let multiple = Executor::get_success_message(Mode::Assign, ExpType::Levels, -3, 4, None);
    match multiple {
        TextComponent::Translate { key, with } => {
            assert_eq!(key, "commands.experience.set.levels.success.multiple");
            assert_eq!(with[0], TextComponent::Text("-3".to_string()));
            assert_eq!(with[1], TextComponent::Text("4".to_string()));
        },
        other => panic!("expected a translated message, got {:?}", other),
    }
}

#[test]
fn set_points_cap_follows_the_current_level() {
    assert!(Executor::set_points_allowed(7, 0));
    assert!(!Executor::set_points_allowed(8, 0));
    assert!(Executor::set_points_allowed(42, 16));
    assert!(!Executor::set_points_allowed(43, 16));
}

#[test]
fn experience_tree_shape() {
    let tree = init_command_tree();
    assert_eq!(tree.names.len(), 2);
    assert_eq!(tree.names[0], "experience");
    assert_eq!(tree.names[1], "xp");
    assert_eq!(tree.children.len(), 3);
    match &xp_amount() {
        pumpkin_core::command_tree::CommandConsumer::BoundedNum { name, min, max } => {
            assert_eq!(name.as_str(), "amount");
            assert_eq!(*min, 0);
            assert_eq!(*max, i32::MAX);
        },
        other => panic!("expected the bounded amount consumer, got {:?}", other),
    }
}

#[test]
fn kill_tree_requires_a_player_for_self_kill() {
    let tree = pumpkin_core::kill_command::init_command_tree();
    assert_eq!(tree.names[0], "kill");
    assert_eq!(tree.children.len(), 2);
    let player = CommandSender { is_player: true };
    let console = CommandSender { is_player: false };
    let (exec_player, _) = nodes_to_proto_node_builders(&player, &tree.nodes, &tree.children);
    let (exec_console, _) = nodes_to_proto_node_builders(&console, &tree.nodes, &tree.children);
    // The self-kill leaf sits behind the player requirement.
    assert!(exec_player);
    assert!(!exec_console);
}

#[test]
fn builders_flatten_children_below_parents() {
    let leaf = |name: &str| ProtoNodeBuilder {
        child_nodes: Vec::new(),
        node_type: ProtoNodeType::Literal { name: name.to_string(), is_executable: true },
    };
    let root = ProtoNodeBuilder {
        child_nodes: vec![leaf("a"), leaf("b")],
        node_type: ProtoNodeType::Root,
    };
    let mut buffer: Vec<ProtoNode> = Vec::new();
    let idx = root.build(&mut buffer);
    assert_eq!(buffer.len(), 3);
    assert_eq!(idx, 2);
    assert_eq!(buffer[idx].node_type, ProtoNodeType::Root);
    assert_eq!(buffer[idx].children, vec![0, 1]);
    assert_eq!(
        buffer[0].node_type,
        ProtoNodeType::Literal { name: "a".to_string(), is_executable: true }
    );
}

#[test]
fn summonable_entities_consumer_resolves_names() {
    let consumer = SummonableEntitiesArgumentConsumer;
    assert_eq!(consumer.get_client_side_parser(), ArgumentType::ResourceLocation);
    assert_eq!(
        consumer.get_client_side_suggestion_type_override(),
        Some(SuggestionProviders::SummonableEntities)
    );
    assert_eq!(consumer.default_name(), "summonable_entities");
    let registry: Vec<Vec<u8>> = vec![b"pig".to_vec(), b"zombie".to_vec()];
    assert_eq!(entity_index_from_name(&registry, "pig"), Some(0));
    assert_eq!(entity_index_from_name(&registry, "minecraft:zombie"), Some(1));
    assert_eq!(entity_index_from_name(&registry, "creeper"), None);
    let args = vec![("target".to_string(), Arg::Block("minecraft:pig".to_string()))];
    assert_eq!(find_arg(&args, "target", &registry).unwrap(), 0);
    match find_arg(&args, "missing", &registry) {
        Err(CommandError::InvalidConsumption(Some(n))) => assert_eq!(n, "missing"),
        other => panic!("expected invalid consumption, got {:?}", other),
    }
    let bad = vec![("target".to_string(), Arg::Block("creeper".to_string()))];
    match find_arg(&bad, "target", &registry) {
        Err(CommandError::CommandFailed(_)) => {},
        other => panic!("expected a command failure, got {:?}", other),
    }
}

#[test]
fn jukebox_and_furnace_decisions() {
    let jukebox = JukeboxBlock;
    assert_eq!(jukebox.use_with_item_action(true, Some(3)), JukeboxAction::StopMusic);
    assert_eq!(jukebox.use_with_item_action(false, Some(3)), JukeboxAction::Play(3));
    assert_eq!(jukebox.use_with_item_action(false, None), JukeboxAction::Pass);
    assert_eq!(song_name("minecraft:cat"), Some(b"cat".to_vec()));
    assert_eq!(song_name("nocolon"), None);
    let furnace = BlastFurnaceBlock;
    assert_eq!(furnace.placement_facing(Direction::North), Direction::South);
    assert_eq!(furnace.placement_facing(Direction::West), Direction::East);
}

struct CountingListener {
    opens: u32,
    closes: u32,
    updates: u32,
}

impl ViewerCountListener for CountingListener {
    fn on_container_open(&mut self) {
        self.opens += 1;
    }

    fn on_container_close(&mut self) {
        self.closes += 1;
    }

    fn on_viewer_count_update(&mut self, _old_count: u16, _new_count: u16) {
        self.updates += 1;
    }
}

#[test]
fn viewer_count_tracker_notifies_on_transitions() {
    let mut tracker = ViewerCountTracker::new();
    let mut listener = CountingListener { opens: 0, closes: 0, updates: 0 };
    tracker.open_container();
    tracker.update_viewer_count(&mut listener);
    assert_eq!((listener.opens, listener.closes, listener.updates), (1, 0, 1));
    // No change: no notification.
    tracker.update_viewer_count(&mut listener);
    assert_eq!(listener.updates, 1);
    tracker.close_container();
    tracker.update_viewer_count(&mut listener);
    assert_eq!((listener.opens, listener.closes, listener.updates), (1, 1, 2));
}

#[test]
fn login_gates() {
    assert!(can_join(100, 0));
    assert!(can_join(19, 20));
    assert!(!can_join(20, 20));
    // Without the banned-players allowance, any action bans.
    let actions = vec!["FORCED_NAME_CHANGE".to_string()];
    assert_eq!(check_profile_actions(&actions, false, &Vec::new()), Err(AuthError::Banned));
    assert_eq!(check_profile_actions(&Vec::new(), false, &Vec::new()), Ok(()));
    // With it, a missing required action is disallowed.
    let allowed = vec!["USING_BANNED_SKIN".to_string()];
    assert_eq!(
        check_profile_actions(&actions, true, &allowed),
        Err(AuthError::DisallowedAction)
    );
    assert_eq!(check_profile_actions(&Vec::new(), true, &Vec::new()), Ok(()));
}

#[test]
fn duplicate_logins_are_detected() {
    let online = vec![(7u128, "alice".to_string()), (9u128, "bob".to_string())];
    assert_eq!(
        duplicate_login_check(&online, 7, &"carol".to_string()),
        Some(DisconnectReason::DuplicateUuid)
    );
    assert_eq!(
        duplicate_login_check(&online, 8, &"bob".to_string()),
        Some(DisconnectReason::DuplicateName)
    );
    assert_eq!(duplicate_login_check(&online, 8, &"carol".to_string()), None);
}

#[test]
fn cookie_response_reports_the_payload_size() {
    let with_payload = SLoginCookieResponse {
        key: "pumpkin:token".to_string(),
        payload: Some(vec![1, 2, 3, 4]),
    };
    assert_eq!(handle_login_cookie_response(&with_payload), Some(4));
    let empty = SLoginCookieResponse { key: "pumpkin:token".to_string(), payload: None };
    assert_eq!(handle_login_cookie_response(&empty), None);
}

#[test]
fn kill_messages() {
    let single =
        pumpkin_core::kill_command::kill_success_message(1, Some(TextComponent::text("zed")));
    match single {
        TextComponent::Translate { key, with } => {
            assert_eq!(key, "commands.kill.success.single");
            assert_eq!(with[0], TextComponent::Text("zed".to_string()));
        },
        other => panic!("expected a translated message, got {:?}", other),
    }
    let multiple = pumpkin_core::kill_command::kill_success_message(5, None);
    match multiple {
        TextComponent::Translate { key, with } => {
            assert_eq!(key, "commands.kill.success.multiple");
            assert_eq!(with[0], TextComponent::Text("5".to_string()));
        },
        other => panic!("expected a translated message, got {:?}", other),
    }
}
