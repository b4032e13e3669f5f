use charcoal::background::processor::{
    drain_commands, parse_message, process_command, process_payload, process_payloads,
    process_round, send_message, Routing,
};
use charcoal::{Charcoal, CharcoalConfig, IPCData, Phase, TrackAction};
use hearth_interconnect::errors::ErrorReport;
use hearth_interconnect::messages::{
    ExternalQueueJobResponse, JobExpired, JobRequest, Message, Metadata, PingPongResponse,
    ShutdownAlert,
};

fn owned(s: &str) -> String {
    s.to_string()
}

fn join_reply(guild_id: &str, worker_id: &str, job_id: &str) -> Message {
    Message::ExternalQueueJobResponse(ExternalQueueJobResponse {
        job_id: owned(job_id),
        worker_id: owned(worker_id),
        guild_id: owned(guild_id),
    })
}

fn bytes_of(message: &Message) -> Vec<u8> {
    match serde_json::to_vec(message) {
        Ok(bytes) => bytes,
        Err(_) => panic!("the message has an encoding"),
    }
}

fn joining(guild_id: &str) -> (Charcoal, Vec<IPCData>) {
    let mut registry = Charcoal::new();
    let key = owned(guild_id);
    assert!(registry.create_session(key.clone()).is_ok());
    let command = match registry.request_join(&key, owned("voice-42"), owned("r1")) {
        Ok(c) => c,
        Err(_) => panic!("a new player can join"),
    };
    (registry, vec![command])
}

fn joined_registry(guild_ids: &[&str]) -> Charcoal {
    let mut registry = Charcoal::new();
    let mut events = Vec::new();
    for guild_id in guild_ids {
        let key = owned(guild_id);
        assert!(registry.create_session(key.clone()).is_ok());
        assert!(registry.request_join(&key, owned("voice-42"), owned("r1")).is_ok());
        registry.open_route(&key);
        assert_eq!(
            parse_message(join_reply(guild_id, "w1", "j1"), &mut registry, &mut events),
            Routing::Delivered
        );
        assert!(registry.complete_join(&key).is_ok());
    }
    assert!(events.is_empty());
    registry
}

#[test]
fn join_success() {
    let mut registry = Charcoal::new();
    let mut events = Vec::new();
    let key = owned("guild-1");
    assert!(registry.create_session(key.clone()).is_ok());
    let command = match registry.request_join(&key, owned("voice-42"), owned("r1")) {
        Ok(c) => c,
        Err(_) => panic!("a new player can join"),
    };
    let published = drain_commands(&vec![command], "communication", &mut registry);
    assert_eq!(published.len(), 1);
    assert_eq!(published[0].topic, "communication");
    assert_eq!(
        published[0].payload,
        r#"{"type":"ExternalQueueJob","request_id":"r1","guild_id":"guild-1"}"#
    );
    let reply = br#"{"type":"ExternalQueueJobResponse","job_id":"j1","worker_id":"w1","guild_id":"guild-1"}"#;
    assert_eq!(process_payload(reply, &mut registry, &mut events), Routing::Delivered);
    let follow_up = match registry.complete_join(&key) {
        Ok(c) => c,
        Err(_) => panic!("the join did not complete"),
    };
    let player = match registry.get_player(&key) {
        Some(p) => p,
        None => panic!("the player is missing"),
    };
    assert_eq!(player.phase(), Phase::Joined);
    assert_eq!(player.worker_id(), Some(&owned("w1")));
    assert_eq!(player.job_id(), Some(&owned("j1")));
    assert!(events.is_empty());
    let published = drain_commands(&vec![follow_up], "communication", &mut registry);
    assert_eq!(published.len(), 1);
    assert_eq!(
        published[0].payload,
        r#"{"type":"DirectWorkerCommunication","job_id":"j1","guild_id":"guild-1","voice_channel_id":"voice-42","play_audio_url":null,"action_type":{"type":"JoinChannel"},"request_id":null,"new_volume":null,"seek_position":null,"loop_times":null,"worker_id":"w1"}"#
    );
}

#[test]
fn malformed_payload_is_skipped() {
    let (mut registry, commands) = joining("guild-1");
    let mut events = Vec::new();
    drain_commands(&commands, "communication", &mut registry);
    assert_eq!(process_payload(b"\xff\xfe not json", &mut registry, &mut events), Routing::Malformed);
    assert_eq!(process_payload(b"", &mut registry, &mut events), Routing::Malformed);
    assert_eq!(process_payload(b"{\"type\":\"NoSuchMessage\"}", &mut registry, &mut events), Routing::Malformed);
    assert_eq!(
        process_payload(b"{\"type\":\"ExternalJobExpired\",\"guild_id\":\"guild-1\"}", &mut registry, &mut events),
        Routing::Malformed
    );
    assert!(events.is_empty());
    let player = registry.get_player(&owned("guild-1"));
    assert_eq!(player.map(|p| (p.phase(), p.route_is_open())), Some((Phase::Joining, true)));
    let reply = bytes_of(&join_reply("guild-1", "w1", "j1"));
    assert_eq!(process_payload(&reply, &mut registry, &mut events), Routing::Delivered);
    assert!(registry.complete_join(&owned("guild-1")).is_ok());
}

#[test]
fn process_payloads_reports_each_payload() {
    let (mut registry, commands) = joining("guild-1");
    let mut events = Vec::new();
    drain_commands(&commands, "communication", &mut registry);
    let payloads = vec![
        b"garbage".to_vec(),
        bytes_of(&join_reply("guild-1", "w1", "j1")),
        bytes_of(&join_reply("guild-1", "w2", "j2")),
        bytes_of(&join_reply("guild-8", "w1", "j1")),
        bytes_of(&Message::ExternalJobExpired(JobExpired {
            guild_id: owned("guild-1"),
            job_id: owned("j1"),
        })),
        bytes_of(&Message::InternalPingPongRequest),
    ];
    assert_eq!(
        process_payloads(&payloads, &mut registry, &mut events),
        vec![
            Routing::Malformed,
            Routing::Delivered,
            Routing::RouteFilled,
            Routing::NoSession,
            Routing::Queued,
            Routing::Ignored,
        ]
    );
    assert_eq!(events.len(), 1);
    assert!(registry.complete_join(&owned("guild-1")).is_ok());
    let ids = registry.get_player(&owned("guild-1")).map(|p| p.worker_id().cloned());
    assert_eq!(ids, Some(Some(owned("w1"))));
    assert_eq!(process_payloads(&vec![], &mut registry, &mut events), vec![]);
}

#[test]
fn second_reply_for_a_pending_request_is_dropped() {
    let (mut registry, commands) = joining("guild-1");
    let mut events = Vec::new();
    drain_commands(&commands, "communication", &mut registry);
    assert_eq!(
        parse_message(join_reply("guild-1", "w1", "j1"), &mut registry, &mut events),
        Routing::Delivered
    );
    assert_eq!(
        parse_message(join_reply("guild-1", "w2", "j2"), &mut registry, &mut events),
        Routing::RouteFilled
    );
    assert!(registry.complete_join(&owned("guild-1")).is_ok());
    let job = registry.get_player(&owned("guild-1")).map(|p| p.job_id().cloned());
    assert_eq!(job, Some(Some(owned("j1"))));
    assert_eq!(
        parse_message(join_reply("guild-1", "w3", "j3"), &mut registry, &mut events),
        Routing::NoRoute
    );
}

#[test]
fn reply_before_the_command_left_is_dropped() {
    let (mut registry, commands) = joining("guild-1");
    let mut events = Vec::new();
    assert_eq!(
        parse_message(join_reply("guild-1", "w1", "j1"), &mut registry, &mut events),
        Routing::NoRoute
    );
    drain_commands(&commands, "communication", &mut registry);
    assert_eq!(
        parse_message(join_reply("guild-1", "w1", "j1"), &mut registry, &mut events),
        Routing::Delivered
    );
}

#[test]
fn replies_are_routed_by_guild() {
    let mut registry = joined_registry(&["guild-1", "guild-2"]);
    let mut events = Vec::new();
    let ask = match registry.request_metadata(&owned("guild-2"), owned("r2")) {
        Ok(c) => c,
        Err(_) => panic!("a joined player can be asked for metadata"),
    };
    assert!(process_command(&ask, "communication", &mut registry).is_some());
    let metadata = |guild_id: &str| {
        Message::ExternalMetadataResult(Metadata {
            duration: Some(10),
            position: Some(1),
            sample_rate: Some(44100),
            job_id: owned("j1"),
            guild_id: owned(guild_id),
        })
    };
    assert_eq!(parse_message(metadata("guild-1"), &mut registry, &mut events), Routing::NoRoute);
    assert_eq!(parse_message(metadata("guild-3"), &mut registry, &mut events), Routing::NoSession);
    assert_eq!(parse_message(metadata("guild-2"), &mut registry, &mut events), Routing::Delivered);
    match registry.complete_metadata(&owned("guild-2")) {
        Ok(m) => assert_eq!(m.sample_rate, Some(44100)),
        Err(_) => panic!("the metadata did not arrive"),
    }
}

#[test]
fn error_report_is_routed_like_a_reply() {
    let mut registry = joined_registry(&["guild-1"]);
    let mut events = Vec::new();
    let report = |guild_id: &str| {
        Message::ErrorReport(ErrorReport {
            error: owned("track not found"),
            request_id: owned("r2"),
            job_id: owned("j1"),
            guild_id: owned(guild_id),
        })
    };
    assert_eq!(parse_message(report("guild-1"), &mut registry, &mut events), Routing::NoRoute);
    assert_eq!(parse_message(report("guild-2"), &mut registry, &mut events), Routing::NoSession);
    let ask = match registry.request_metadata(&owned("guild-1"), owned("r2")) {
        Ok(c) => c,
        Err(_) => panic!("a joined player can be asked for metadata"),
    };
    drain_commands(&vec![ask], "communication", &mut registry);
    assert_eq!(parse_message(report("guild-1"), &mut registry, &mut events), Routing::Delivered);
    match registry.complete_metadata(&owned("guild-1")) {
        Err(charcoal::TrackActionError::RemoteError(e)) => {
            assert_eq!(e.error, "track not found");
            assert_eq!(e.job_id, "j1");
        }
        _ => panic!("the report was not handed on"),
    }
    assert!(events.is_empty());
}

#[test]
fn lifecycle_events_are_queued_and_leave_the_registry_alone() {
    let mut registry = joined_registry(&["guild-1"]);
    let mut events = Vec::new();
    let expired = Message::ExternalJobExpired(JobExpired {
        guild_id: owned("guild-1"),
        job_id: owned("j1"),
    });
    let shutdown = Message::WorkerShutdownAlert(ShutdownAlert {
        worker_id: owned("w1"),
        affected_guild_ids: vec![owned("guild-1")],
    });
    assert_eq!(parse_message(expired, &mut registry, &mut events), Routing::Queued);
    assert_eq!(parse_message(shutdown, &mut registry, &mut events), Routing::Queued);
    assert!(registry.contains(&owned("guild-1")));
    assert_eq!(events.len(), 2);
    match &events[0] {
        IPCData::FromBackground(data) => match &data.message {
            Message::ExternalJobExpired(e) => assert_eq!(e.guild_id, "guild-1"),
            _ => panic!("the first event is not the expired job"),
        },
        _ => panic!("the first event does not come from the background"),
    }
    match &events[1] {
        IPCData::FromBackground(data) => match &data.message {
            Message::WorkerShutdownAlert(a) => assert_eq!(a.affected_guild_ids, vec![owned("guild-1")]),
            _ => panic!("the second event is not the shutdown"),
        },
        _ => panic!("the second event does not come from the background"),
    }
}

#[test]
fn worker_shutdown_eviction() {
    let mut registry = joined_registry(&["guild-1", "guild-2"]);
    let mut events = Vec::new();
    let alert = br#"{"type":"WorkerShutdownAlert","worker_id":"w1","affected_guild_ids":["guild-1"]}"#;
    assert_eq!(process_payload(alert, &mut registry, &mut events), Routing::Queued);
    assert!(registry.get_player(&owned("guild-1")).is_some());
    let evicted = registry.drain_events(&mut events);
    assert_eq!(evicted.len(), 1);
    assert_eq!(evicted[0].guild_id, "guild-1");
    assert_eq!(evicted[0].cause, charcoal::EvictionCause::WorkerShutdown);
    assert!(registry.get_player(&owned("guild-1")).is_none());
    assert!(registry.get_player(&owned("guild-2")).is_some());
    assert!(events.is_empty());
}

#[test]
fn reply_after_exit() {
    let mut registry = joined_registry(&["guild-3"]);
    let mut events = Vec::new();
    let leave = match registry.exit_channel(&owned("guild-3")) {
        Ok(c) => c,
        Err(_) => panic!("a joined player can leave"),
    };
    let published = drain_commands(&vec![leave], "communication", &mut registry);
    assert_eq!(published.len(), 1);
    assert_eq!(
        published[0].payload,
        r#"{"type":"DirectWorkerCommunication","job_id":"j1","guild_id":"guild-3","voice_channel_id":null,"play_audio_url":null,"action_type":{"type":"LeaveChannel"},"request_id":null,"new_volume":null,"seek_position":null,"loop_times":null,"worker_id":"w1"}"#
    );
    let reply = bytes_of(&join_reply("guild-3", "w1", "j1"));
    assert_eq!(process_payload(&reply, &mut registry, &mut events), Routing::NoSession);
    assert!(!registry.contains(&owned("guild-3")));
    assert!(events.is_empty());
}

#[test]
fn other_messages_are_ignored() {
    let mut registry = joined_registry(&["guild-1"]);
    let mut events = Vec::new();
    let others = vec![
        Message::InternalPingPongRequest,
        Message::InternalPongResponse(PingPongResponse { worker_id: owned("w1") }),
        Message::ExternalQueueJob(JobRequest { request_id: owned("r1"), guild_id: owned("guild-1") }),
    ];
    for message in others {
        assert_eq!(parse_message(message, &mut registry, &mut events), Routing::Ignored);
    }
    let ack = br#"{"type":"DirectWorkerCommunication","job_id":"j1","guild_id":"guild-1","voice_channel_id":null,"play_audio_url":null,"action_type":{"type":"PausePlayback"},"request_id":"r1","new_volume":0.5,"seek_position":null,"loop_times":null,"worker_id":"w1"}"#;
    assert_eq!(process_payload(ack, &mut registry, &mut events), Routing::Ignored);
    assert!(events.is_empty());
    assert!(registry.contains(&owned("guild-1")));
}

#[test]
fn send_message_encodes_for_the_topic() {
    let message = Message::ExternalQueueJob(JobRequest {
        request_id: owned("r\"1"),
        guild_id: owned("guild-1"),
    });
    let publication = match send_message(&message, "hearth") {
        Some(p) => p,
        None => panic!("the message has an encoding"),
    };
    assert_eq!(publication.topic, "hearth");
    assert_eq!(
        publication.payload,
        r#"{"type":"ExternalQueueJob","request_id":"r\"1","guild_id":"guild-1"}"#
    );
    let ping = match send_message(&Message::InternalPingPongRequest, "") {
        Some(p) => p,
        None => panic!("the message has an encoding"),
    };
    assert_eq!(ping.topic, "");
    assert_eq!(ping.payload, r#"{"type":"InternalPingPongRequest"}"#);
}

#[test]
fn encoding_and_decoding_agree() {
    let registry = joined_registry(&["guild-1"]);
    let command = match registry.track_command(
        &owned("guild-1"),
        TrackAction::SeekToPosition(90_000),
        owned("r6"),
    ) {
        Ok(IPCData::FromMain(m)) => m.message,
        _ => panic!("a joined player accepts track commands"),
    };
    let publication = match send_message(&command, "communication") {
        Some(p) => p,
        None => panic!("the message has an encoding"),
    };
    assert_eq!(
        publication.payload,
        r#"{"type":"DirectWorkerCommunication","job_id":"j1","guild_id":"guild-1","voice_channel_id":null,"play_audio_url":null,"action_type":{"type":"SeekToPosition"},"request_id":"r6","new_volume":null,"seek_position":90000,"loop_times":null,"worker_id":"w1"}"#
    );
    match serde_json::from_str::<Message>(&publication.payload) {
        Ok(Message::DirectWorkerCommunication(d)) => {
            assert_eq!(d.seek_position, Some(90_000));
            assert_eq!(d.request_id, Some(owned("r6")));
        }
        _ => panic!("the payload does not decode to the command"),
    }
}

#[test]
fn commands_are_published_in_the_order_of_the_queue() {
    let mut registry = joined_registry(&["guild-1", "guild-2"]);
    let command = |registry: &Charcoal, guild_id: &str, action: TrackAction, id: &str| {
        match registry.track_command(&owned(guild_id), action, owned(id)) {
            Ok(c) => c,
            Err(_) => panic!("a joined player accepts track commands"),
        }
    };
    let queue = vec![
        command(&registry, "guild-1", TrackAction::PausePlayback, "c1"),
        command(&registry, "guild-2", TrackAction::LoopIndefinitely, "c2"),
        IPCData::new_from_background(Message::InternalPingPongRequest),
        command(&registry, "guild-1", TrackAction::ResumePlayback, "c3"),
    ];
    let published = drain_commands(&queue, "communication", &mut registry);
    let ids: Vec<Option<String>> = published
        .iter()
        .map(|p| match serde_json::from_str::<Message>(&p.payload) {
            Ok(Message::DirectWorkerCommunication(d)) => d.request_id,
            _ => None,
        })
        .collect();
    assert_eq!(ids, vec![Some(owned("c1")), Some(owned("c2")), Some(owned("c3"))]);
    assert!(published.iter().all(|p| p.topic == "communication"));
    assert!(drain_commands(&vec![], "communication", &mut registry).is_empty());
}

#[test]
fn only_awaited_commands_open_a_route() {
    let mut registry = joined_registry(&["guild-1"]);
    let key = owned("guild-1");
    let pause = match registry.track_command(&key, TrackAction::PausePlayback, owned("c1")) {
        Ok(c) => c,
        Err(_) => panic!("a joined player accepts track commands"),
    };
    assert!(process_command(&pause, "communication", &mut registry).is_some());
    assert_eq!(registry.get_player(&key).map(|p| p.route_is_open()), Some(false));
    let ask = match registry.request_metadata(&key, owned("c2")) {
        Ok(c) => c,
        Err(_) => panic!("a joined player can be asked for metadata"),
    };
    assert_eq!(registry.get_player(&key).map(|p| p.route_is_open()), Some(false));
    assert!(process_command(&ask, "communication", &mut registry).is_some());
    assert_eq!(registry.get_player(&key).map(|p| p.route_is_open()), Some(true));
    let stray = IPCData::new_from_background(Message::InternalPingPongRequest);
    assert!(process_command(&stray, "communication", &mut registry).is_none());
    let gone = IPCData::new_from_main(Message::InternalPingPongRequest, true, owned("guild-9"));
    assert!(process_command(&gone, "communication", &mut registry).is_some());
    assert!(!registry.contains(&owned("guild-9")));
}

#[test]
fn round_routes_before_it_publishes() {
    let (mut registry, commands) = joining("guild-1");
    let mut events = Vec::new();
    let config = CharcoalConfig { ssl: None, sasl: None, kafka_topic: owned("communication") };
    let early = vec![bytes_of(&join_reply("guild-1", "w1", "j1"))];
    let round = process_round(&early, &commands, &config, &mut registry, &mut events);
    assert_eq!(round.routings, vec![Routing::NoRoute]);
    assert_eq!(round.publications.len(), 1);
    assert_eq!(round.publications[0].topic, "communication");
    let key = owned("guild-1");
    assert_eq!(registry.get_player(&key).map(|p| p.route_is_open()), Some(true));
    let expired = bytes_of(&Message::ExternalJobExpired(JobExpired {
        guild_id: owned("guild-1"),
        job_id: owned("j1"),
    }));
    let late = vec![bytes_of(&join_reply("guild-1", "w1", "j1")), expired];
    let round = process_round(&late, &vec![], &config, &mut registry, &mut events);
    assert_eq!(round.routings, vec![Routing::Delivered, Routing::Queued]);
    assert!(round.publications.is_empty());
    assert_eq!(events.len(), 1);
    assert_eq!(registry.get_player(&key).map(|p| p.has_reply()), Some(true));
    let idle = process_round(&vec![], &vec![], &config, &mut registry, &mut events);
    assert!(idle.routings.is_empty());
    assert!(idle.publications.is_empty());
    assert_eq!(events.len(), 1);
}
