use pet_participant::common::{RoundParameters, RoundSeed};
use pet_participant::crypto::{
    init, EncryptKeyPair, PublicEncryptKey, PublicSigningKey, Ratio, SecretSigningKey, Signature,
    SigningKeyPair,
};
use pet_participant::dict::{SumDict, UpdateSeedDict};
use pet_participant::mask::{MaskConfig, MaskObject, MaskSeed, Model};
use pet_participant::message::{Message, Payload};
use pet_participant::settings::{AgentSettings, MaxMessageSize};
use pet_participant::state_machine::{
    Awaiting, Demand, DemandKind, IoError, NewRound, Notification, Phase, SendMessageError,
    SerializableState, SharedState, State, StateMachine, Sum, Sum2, Supply, Transition,
    TransitionOutcome, Turn, Update,
};

fn hex(text: &str) -> Vec<u8> {
    (0..text.len() / 2)
        .map(|i| u8::from_str_radix(&text[2 * i..2 * i + 2], 16).unwrap())
        .collect()
}

fn known_keys() -> SigningKeyPair {
    let seed = hex("9d61b19deffd5a60ba844af492ec2cc44449c5697b326919703bac031cae7f60");
    let public = hex("d75a980182b10ab7d54bfed3c964073a0ee172f3daa62325af021a68f707511a");
    let mut secret = seed;
    secret.extend(public.clone());
    SigningKeyPair {
        public: PublicSigningKey::from_slice(&public).unwrap(),
        secret: SecretSigningKey::from_slice(&secret).unwrap(),
    }
}

fn ratio(numer: u64, denom: u64) -> Ratio {
    Ratio { numer, denom }
}

fn params(sum: Ratio, update: Ratio) -> RoundParameters {
    RoundParameters {
        pk: EncryptKeyPair::generate().public,
        sum,
        update,
        seed: RoundSeed { bytes: [0; 32] },
    }
}

fn shared(round_params: RoundParameters) -> SharedState {
    SharedState {
        keys: known_keys(),
        mask_config: MaskConfig { group_type: 1, data_type: 2, bound_type: 3, model_type: 4 },
        scalar: ratio(1, 1),
        message_size: MaxMessageSize::default(),
        round_params,
    }
}

fn new_round(round_params: RoundParameters) -> StateMachine {
    StateMachine::NewRound(Phase::new(State::new(shared(round_params), NewRound)))
}

fn complete(transition: Transition) -> StateMachine {
    match transition.outcome {
        TransitionOutcome::Complete(machine) => machine,
        TransitionOutcome::Pending(machine) => panic!("pending: {:?}", machine),
    }
}

fn pending(transition: Transition) -> StateMachine {
    match transition.outcome {
        TransitionOutcome::Pending(machine) => machine,
        TransitionOutcome::Complete(machine) => panic!("complete: {:?}", machine),
    }
}

fn sum_state(machine: &StateMachine) -> &State<Sum> {
    match machine {
        StateMachine::Sum(phase) => &phase.state,
        other => panic!("not in the sum phase: {:?}", other),
    }
}

fn sum2_state(machine: &StateMachine) -> &State<Sum2> {
    match machine {
        StateMachine::Sum2(phase) => &phase.state,
        other => panic!("not in the sum2 phase: {:?}", other),
    }
}

fn update_state(machine: &StateMachine) -> &State<Update> {
    match machine {
        StateMachine::Update(phase) => &phase.state,
        other => panic!("not in the update phase: {:?}", other),
    }
}

fn is_awaiting(machine: &StateMachine) -> bool {
    matches!(machine, StateMachine::Awaiting(_))
}

fn sum_dict(keys: &[EncryptKeyPair]) -> SumDict {
    let mut dict = SumDict::new();
    for (index, pair) in keys.iter().enumerate() {
        dict.insert(PublicSigningKey { bytes: [index as u8 + 1; 32] }, pair.public);
    }
    dict
}

/// An update phase that has fetched, loaded and masked.
fn masked_update(round_params: RoundParameters, sums: SumDict) -> StateMachine {
    let machine = StateMachine::Update(Phase::new(State::new(
        shared(round_params),
        Update::new(Signature { bytes: [1; 64] }, Signature { bytes: [2; 64] }),
    )));
    let machine = complete(machine.proceed(Supply::Sums(Ok(Some(sums)))));
    let machine = complete(machine.proceed(Supply::Model(Ok(Some(Model { bytes: vec![1, 2] })))));
    complete(machine.proceed(Supply::Masked(
        MaskSeed { bytes: [0x42; 32] },
        MaskObject { bytes: vec![9; 10] },
    )))
}

#[test]
fn new_machine_waits() {
    let settings = AgentSettings::new(
        known_keys(),
        MaskConfig { group_type: 1, data_type: 2, bound_type: 3, model_type: 4 },
    );
    let machine = StateMachine::new(settings);
    match &machine {
        StateMachine::Awaiting(phase) => {
            assert_eq!(phase.state.shared.keys, known_keys());
            assert_eq!(phase.state.shared.scalar, ratio(1, 1));
            assert_eq!(phase.state.shared.message_size, MaxMessageSize::capped(4096).unwrap());
            assert_eq!(phase.state.shared.message_size.max_payload_size(), Some(3944));
            assert_eq!(phase.state.shared.round_params, RoundParameters::default());
        }
        other => panic!("not waiting: {:?}", other),
    }
    assert_eq!(machine.demand().kind(), DemandKind::Nothing);
    let transition = machine.clone().proceed(Supply::Nothing);
    assert_eq!(transition.notification, None);
    assert_eq!(pending(transition), machine);
}

#[test]
fn not_elected() {
    init().unwrap();
    let machine = new_round(params(ratio(0, 1), ratio(0, 1)));
    assert_eq!(machine.demand().kind(), DemandKind::Nothing);
    let transition = machine.proceed(Supply::Nothing);
    assert_eq!(transition.notification, Some(Notification::Idle));
    let machine = complete(transition);
    assert!(is_awaiting(&machine));
    assert_eq!(machine.demand().kind(), DemandKind::Nothing);
}

#[test]
fn election_goes_by_the_signatures() {
    init().unwrap();
    // With the seed zero the digest of the sum signature starts with
    // 9e3d769dca1f8ecd and that of the update signature with
    // e9c1402aa2dfa9cc.
    let sum_score = 0x9e3d769dca1f8ecdu64;
    let update_score = 0xe9c1402aa2dfa9ccu64;
    let half = 1u64 << 63;

    let machine = new_round(params(ratio(sum_score / 2 + 1, half), ratio(0, 1)));
    let transition = machine.proceed(Supply::Nothing);
    assert_eq!(transition.notification, Some(Notification::Sum));
    let machine = complete(transition);
    let expected = hex(
        "08790f6ae350cb959d31fa529a78c788cc9fce346b648e98b1e29d7fa6e94eccc8b3c910fc78967e7fd755d0a2753083dbc4d169cff2e8f0112ee01d1dd87206",
    );
    assert_eq!(sum_state(&machine).private.sum_signature.as_slice(), expected.as_slice());
    assert_eq!(sum_state(&machine).private.message, None);

    let machine = new_round(params(ratio(sum_score / 2, half), ratio(update_score / 2 + 1, half)));
    let transition = machine.proceed(Supply::Nothing);
    assert_eq!(transition.notification, Some(Notification::Update));
    let machine = complete(transition);
    let update = &update_state(&machine).private;
    assert_eq!(update.sum_signature.as_slice(), expected.as_slice());
    let expected = hex(
        "870c3c01077debacb359fa98630a01a9966a7a23b6051f2f8735b2c1741570ddbbc3e7f4a06acd015c2a6dc71eb95d2ebcb8070cc099ba3bf436d46cd6a22204",
    );
    assert_eq!(update.update_signature.as_slice(), expected.as_slice());
    assert_eq!(*update, Update::new(update.sum_signature, update.update_signature));

    let machine = new_round(params(ratio(sum_score / 2, half), ratio(update_score / 2, half)));
    let transition = machine.proceed(Supply::Nothing);
    assert_eq!(transition.notification, Some(Notification::Idle));
    assert!(is_awaiting(&complete(transition)));
}

#[test]
fn sum_participant_happy_path() {
    init().unwrap();
    let coordinator = EncryptKeyPair::generate();
    let mut round = params(ratio(1, 1), ratio(0, 1));
    round.pk = coordinator.public;
    let mut sends = 0;

    let transition = new_round(round).proceed(Supply::Nothing);
    assert_eq!(transition.notification, Some(Notification::Sum));
    let machine = complete(transition);
    let ephm_keys = sum_state(&machine).private.ephm_keys;
    let sum_signature = sum_state(&machine).private.sum_signature;

    // compose
    assert_eq!(machine.demand().kind(), DemandKind::Nothing);
    let transition = machine.proceed(Supply::Nothing);
    assert_eq!(transition.notification, None);
    let machine = complete(transition);
    assert!(sum_state(&machine).private.message.is_some());

    // send
    let packets = match machine.demand() {
        Demand::Delivery(packets) => packets,
        other => panic!("no delivery: {:?}", other),
    };
    assert_eq!(packets.len(), 1);
    assert_eq!(packets[0].len(), 104 + 96 + 48);
    let opened = coordinator.decrypt(&packets[0]).unwrap();
    match Message::from_bytes(&opened).unwrap().payload {
        Payload::Sum(sum) => {
            assert_eq!(sum.sum_signature, sum_signature);
            assert_eq!(sum.ephm_pk, ephm_keys.public);
        }
        other => panic!("not a sum message: {:?}", other),
    }
    sends += packets.len();
    let transition = machine.proceed(Supply::Delivered(Ok(())));
    assert_eq!(transition.notification, None);
    let machine = complete(transition);
    assert_eq!(sum2_state(&machine).private, Sum2::new(ephm_keys, sum_signature));

    // mask length
    assert_eq!(machine.demand().kind(), DemandKind::MaskLength);
    let machine = pending(machine.proceed(Supply::MaskLength(Ok(None))));
    let machine = pending(machine.proceed(Supply::MaskLength(Err(IoError))));
    let machine = pending(machine.proceed(Supply::Nothing));
    let machine = complete(machine.proceed(Supply::MaskLength(Ok(Some(4)))));
    assert_eq!(sum2_state(&machine).private.mask_length, Some(4));

    // seeds
    match machine.demand() {
        Demand::Seeds(pk) => assert_eq!(pk, known_keys().public),
        other => panic!("no seeds asked for: {:?}", other),
    }
    let seeds = [MaskSeed { bytes: [0x0a; 32] }, MaskSeed { bytes: [0x0b; 32] }];
    let mut dict = UpdateSeedDict::new();
    dict.insert(PublicSigningKey { bytes: [1; 32] }, seeds[0].encrypt(&ephm_keys.public));
    dict.insert(PublicSigningKey { bytes: [2; 32] }, seeds[1].encrypt(&ephm_keys.public));
    let machine = pending(machine.proceed(Supply::Seeds(Ok(None))));
    let machine = complete(machine.proceed(Supply::Seeds(Ok(Some(dict.clone())))));
    assert_eq!(sum2_state(&machine).private.seed_dict, Some(dict));

    // decrypt
    assert_eq!(machine.demand().kind(), DemandKind::Nothing);
    let machine = complete(machine.proceed(Supply::Nothing));
    assert_eq!(sum2_state(&machine).private.seeds, Some(seeds.to_vec()));
    assert_eq!(sum2_state(&machine).private.seed_dict, None);

    // aggregate
    match machine.demand() {
        Demand::Aggregation { config, mask_length, seeds: asked } => {
            assert_eq!(config, shared(round).mask_config);
            assert_eq!(mask_length, 4);
            assert_eq!(asked.as_slice(), &seeds);
        }
        other => panic!("no aggregation asked for: {:?}", other),
    }
    let machine = pending(machine.proceed(Supply::Nothing));
    let mask = MaskObject { bytes: vec![4, 3, 2, 1] };
    let machine = complete(machine.proceed(Supply::Aggregated(Some(mask.clone()))));
    assert_eq!(sum2_state(&machine).private.mask, Some(mask.clone()));
    assert_eq!(sum2_state(&machine).private.seeds, None);

    // compose
    assert_eq!(machine.demand().kind(), DemandKind::Nothing);
    let machine = complete(machine.proceed(Supply::Nothing));
    assert_eq!(sum2_state(&machine).private.mask, None);
    assert_eq!(sum2_state(&machine).private.mask_length, Some(4));

    // send
    let packets = match machine.demand() {
        Demand::Delivery(packets) => packets,
        other => panic!("no delivery: {:?}", other),
    };
    assert_eq!(packets.len(), 1);
    let opened = coordinator.decrypt(&packets[0]).unwrap();
    match Message::from_bytes(&opened).unwrap().payload {
        Payload::Sum2(sum2) => {
            assert_eq!(sum2.sum_signature, sum_signature);
            assert_eq!(sum2.model_mask, mask);
        }
        other => panic!("not a sum2 message: {:?}", other),
    }
    sends += packets.len();
    let transition = machine.proceed(Supply::Delivered(Ok(())));
    assert_eq!(transition.notification, Some(Notification::Idle));
    assert!(is_awaiting(&complete(transition)));
    assert_eq!(sends, 2);
}

#[test]
fn update_participant_happy_path() {
    init().unwrap();
    let coordinator = EncryptKeyPair::generate();
    let mut round = params(ratio(0, 1), ratio(1, 1));
    round.pk = coordinator.public;

    let transition = new_round(round).proceed(Supply::Nothing);
    assert_eq!(transition.notification, Some(Notification::Update));
    let machine = complete(transition);
    let sum_signature = update_state(&machine).private.sum_signature;
    let update_signature = update_state(&machine).private.update_signature;

    // fetch sums
    assert_eq!(machine.demand().kind(), DemandKind::Sums);
    let machine = pending(machine.proceed(Supply::Sums(Err(IoError))));
    let machine = pending(machine.proceed(Supply::Sums(Ok(None))));
    let sum_keys =
        [EncryptKeyPair::generate(), EncryptKeyPair::generate(), EncryptKeyPair::generate()];
    let sums = sum_dict(&sum_keys);
    let machine = complete(machine.proceed(Supply::Sums(Ok(Some(sums.clone())))));
    assert_eq!(update_state(&machine).private.sum_dict, Some(sums.clone()));

    // load model
    assert_eq!(machine.demand().kind(), DemandKind::Model);
    let machine = pending(machine.proceed(Supply::Model(Ok(None))));
    let model = Model { bytes: vec![1, 2, 3, 4] };
    let machine = complete(machine.proceed(Supply::Model(Ok(Some(model.clone())))));
    assert_eq!(update_state(&machine).private.model, Some(model.clone()));

    // mask
    match machine.demand() {
        Demand::Masking { config, scalar, model: asked } => {
            assert_eq!(config, shared(round).mask_config);
            assert_eq!(scalar, ratio(1, 1));
            assert_eq!(*asked, model);
        }
        other => panic!("no masking asked for: {:?}", other),
    }
    let machine = pending(machine.proceed(Supply::Nothing));
    let seed = MaskSeed { bytes: [0x42; 32] };
    let masked = MaskObject { bytes: vec![9; 10] };
    let machine = complete(machine.proceed(Supply::Masked(seed, masked.clone())));
    assert_eq!(update_state(&machine).private.mask, Some((seed, masked.clone())));
    assert_eq!(update_state(&machine).private.model, None);

    // build the seed dictionary
    assert_eq!(machine.demand().kind(), DemandKind::Nothing);
    let machine = complete(machine.proceed(Supply::Nothing));
    let seed_dict = update_state(&machine).private.seed_dict.clone().unwrap();
    assert_eq!(update_state(&machine).private.sum_dict, None);
    assert_eq!(seed_dict.len(), 3);
    for index in 0..3 {
        let (key, sealed) = seed_dict.entry(index);
        assert_eq!(key, sums.entry(index).0);
        assert_eq!(sealed.decrypt(&sum_keys[index]), Some(seed));
    }

    // compose
    assert_eq!(machine.demand().kind(), DemandKind::Nothing);
    let machine = complete(machine.proceed(Supply::Nothing));
    assert!(update_state(&machine).private.message.is_some());
    assert_eq!(update_state(&machine).private.mask, None);
    assert_eq!(update_state(&machine).private.seed_dict, None);

    // send
    let packets = match machine.demand() {
        Demand::Delivery(packets) => packets,
        other => panic!("no delivery: {:?}", other),
    };
    assert_eq!(packets.len(), 1);
    let opened = coordinator.decrypt(&packets[0]).unwrap();
    match Message::from_bytes(&opened).unwrap().payload {
        Payload::Update(update) => {
            assert_eq!(update.sum_signature, sum_signature);
            assert_eq!(update.update_signature, update_signature);
            assert_eq!(update.masked_model, masked);
            assert_eq!(update.local_seed_dict, seed_dict);
        }
        other => panic!("not an update message: {:?}", other),
    }
    let transition = machine.proceed(Supply::Delivered(Ok(())));
    assert_eq!(transition.notification, Some(Notification::Idle));
    assert!(is_awaiting(&complete(transition)));
}

#[test]
fn update_gives_up_after_a_failed_send_too() {
    init().unwrap();
    let round = params(ratio(0, 1), ratio(1, 1));
    let machine = masked_update(round, sum_dict(&[EncryptKeyPair::generate()]));
    let machine = complete(machine.proceed(Supply::Nothing));
    let machine = complete(machine.proceed(Supply::Nothing));
    assert_eq!(machine.demand().kind(), DemandKind::Delivery);
    let transition = machine.proceed(Supply::Delivered(Err(SendMessageError)));
    assert_eq!(transition.notification, Some(Notification::Idle));
    assert!(is_awaiting(&complete(transition)));
}

#[test]
fn mid_phase_round_change() {
    init().unwrap();
    let round = params(ratio(0, 1), ratio(1, 1));
    let machine = masked_update(round, sum_dict(&[EncryptKeyPair::generate()]));
    assert!(update_state(&machine).private.mask.is_some());
    let mut other = round;
    other.seed = RoundSeed { bytes: [7; 32] };
    match machine.transition(Ok(other)) {
        Turn::Done(transition) => {
            assert_eq!(transition.notification, Some(Notification::NewRound));
            match complete(transition) {
                StateMachine::NewRound(phase) => {
                    assert_eq!(phase.state.shared.round_params, other);
                    assert_eq!(phase.state.shared.keys, known_keys());
                }
                machine => panic!("not in the new-round phase: {:?}", machine),
            }
        }
        Turn::Fresh(machine) => panic!("went on: {:?}", machine),
    }
}

#[test]
fn send_failure_in_sum() {
    init().unwrap();
    let machine = complete(new_round(params(ratio(1, 1), ratio(0, 1))).proceed(Supply::Nothing));
    let machine = complete(machine.proceed(Supply::Nothing));
    assert_eq!(machine.demand().kind(), DemandKind::Delivery);
    let transition = machine.proceed(Supply::Delivered(Err(SendMessageError)));
    assert_eq!(transition.notification, Some(Notification::Idle));
    assert!(is_awaiting(&complete(transition)));
}

#[test]
fn freshness_comes_first_in_every_phase() {
    init().unwrap();
    let round = params(ratio(1, 1), ratio(1, 1));
    let mut other = round;
    other.update = ratio(1, 2);
    let machines = vec![
        new_round(round),
        StateMachine::Awaiting(Phase::new(State::new(shared(round), Awaiting))),
        complete(new_round(round).proceed(Supply::Nothing)),
        masked_update(round, sum_dict(&[EncryptKeyPair::generate()])),
        StateMachine::Sum2(Phase::new(State::new(
            shared(round),
            Sum2::new(EncryptKeyPair::generate(), Signature { bytes: [3; 64] }),
        ))),
    ];
    for machine in machines {
        // no answer: nothing changes
        match machine.clone().transition(Err(IoError)) {
            Turn::Done(transition) => {
                assert_eq!(transition.notification, None);
                assert_eq!(pending(transition), machine);
            }
            Turn::Fresh(machine) => panic!("went on: {:?}", machine),
        }
        // the same round: the phase goes on
        assert_eq!(machine.clone().transition(Ok(round)), Turn::Fresh(machine.clone()));
        // another round: new round
        let mut expected = shared(round);
        expected.round_params = other;
        assert_eq!(
            machine.transition(Ok(other)),
            Turn::Done(Transition {
                outcome: TransitionOutcome::Complete(StateMachine::NewRound(Phase::new(
                    State::new(expected, NewRound)
                ))),
                notification: Some(Notification::NewRound),
            })
        );
    }
}

#[test]
fn a_field_that_is_filled_is_not_filled_again() {
    init().unwrap();
    let round = params(ratio(0, 1), ratio(1, 1));
    let sums = sum_dict(&[EncryptKeyPair::generate(), EncryptKeyPair::generate()]);
    let machine = StateMachine::Update(Phase::new(State::new(
        shared(round),
        Update::new(Signature { bytes: [1; 64] }, Signature { bytes: [2; 64] }),
    )));
    let machine = complete(machine.proceed(Supply::Sums(Ok(Some(sums.clone())))));
    // another dictionary comes: it is not taken
    let other = sum_dict(&[EncryptKeyPair::generate()]);
    let machine = pending(machine.proceed(Supply::Sums(Ok(Some(other)))));
    assert_eq!(update_state(&machine).private.sum_dict, Some(sums.clone()));
    let model = Model { bytes: vec![1] };
    let machine = complete(machine.proceed(Supply::Model(Ok(Some(model.clone())))));
    let machine = pending(machine.proceed(Supply::Model(Ok(Some(Model { bytes: vec![2] })))));
    assert_eq!(update_state(&machine).private.model, Some(model));
    assert_eq!(update_state(&machine).private.sum_dict, Some(sums));

    let machine = StateMachine::Sum2(Phase::new(State::new(
        shared(round),
        Sum2::new(EncryptKeyPair::generate(), Signature { bytes: [3; 64] }),
    )));
    let machine = complete(machine.proceed(Supply::MaskLength(Ok(Some(4)))));
    let machine = pending(machine.proceed(Supply::MaskLength(Ok(Some(5)))));
    assert_eq!(sum2_state(&machine).private.mask_length, Some(4));

    let machine = complete(new_round(params(ratio(1, 1), ratio(0, 1))).proceed(Supply::Nothing));
    let machine = complete(machine.proceed(Supply::Nothing));
    let message = sum_state(&machine).private.message.clone();
    assert!(message.is_some());
    let saved = machine.clone().save();
    assert_eq!(sum_state(&StateMachine::restore(saved)).private.message, message);
}

#[test]
fn a_seed_that_does_not_open_ends_the_sum2_phase() {
    init().unwrap();
    let round = params(ratio(1, 1), ratio(0, 1));
    let ephm_keys = EncryptKeyPair::generate();
    let machine = StateMachine::Sum2(Phase::new(State::new(
        shared(round),
        Sum2::new(ephm_keys, Signature { bytes: [3; 64] }),
    )));
    let machine = complete(machine.proceed(Supply::MaskLength(Ok(Some(4)))));
    let mut dict = UpdateSeedDict::new();
    dict.insert(
        PublicSigningKey { bytes: [1; 32] },
        MaskSeed { bytes: [1; 32] }.encrypt(&ephm_keys.public),
    );
    dict.insert(
        PublicSigningKey { bytes: [2; 32] },
        MaskSeed { bytes: [2; 32] }.encrypt(&EncryptKeyPair::generate().public),
    );
    let machine = complete(machine.proceed(Supply::Seeds(Ok(Some(dict)))));
    let transition = machine.proceed(Supply::Nothing);
    assert_eq!(transition.notification, Some(Notification::Idle));
    assert!(is_awaiting(&complete(transition)));
}

#[test]
fn a_mask_that_cannot_be_added_ends_the_sum2_phase() {
    init().unwrap();
    let round = params(ratio(1, 1), ratio(0, 1));
    let ephm_keys = EncryptKeyPair::generate();
    let machine = StateMachine::Sum2(Phase::new(State::new(
        shared(round),
        Sum2::new(ephm_keys, Signature { bytes: [3; 64] }),
    )));
    let machine = complete(machine.proceed(Supply::MaskLength(Ok(Some(4)))));
    let machine = complete(machine.proceed(Supply::Seeds(Ok(Some(UpdateSeedDict::new())))));
    let machine = complete(machine.proceed(Supply::Nothing));
    assert_eq!(sum2_state(&machine).private.seeds, Some(vec![]));
    let transition = machine.proceed(Supply::Aggregated(None));
    assert_eq!(transition.notification, None);
    assert!(is_awaiting(&complete(transition)));
}

#[test]
fn a_message_too_long_to_encode_ends_the_phase() {
    init().unwrap();
    let round = params(ratio(0, 1), ratio(1, 1));
    let mut state = shared(round);
    // leaves one byte of data to a chunk: more chunks than an index counts
    state.message_size = MaxMessageSize::capped(161).unwrap();
    let mut update = Update::new(Signature { bytes: [1; 64] }, Signature { bytes: [2; 64] });
    update.mask = Some((MaskSeed { bytes: [1; 32] }, MaskObject { bytes: vec![0; 70_000] }));
    update.seed_dict = Some(UpdateSeedDict::new());
    let machine = StateMachine::Update(Phase::new(State::new(state, update)));
    assert_eq!(machine.demand().kind(), DemandKind::Nothing);
    let transition = machine.proceed(Supply::Nothing);
    assert_eq!(transition.notification, Some(Notification::Idle));
    assert!(is_awaiting(&complete(transition)));

    // a sum message goes out in 96 chunks of one byte
    let machine = StateMachine::Sum(Phase::new(State::new(
        state,
        Sum::new(Signature { bytes: [3; 64] }),
    )));
    let machine = complete(machine.proceed(Supply::Nothing));
    match machine.demand() {
        Demand::Delivery(packets) => {
            assert_eq!(packets.len(), 96);
            assert!(packets.iter().all(|packet| packet.len() == 161));
        }
        other => panic!("no delivery: {:?}", other),
    };
}

#[test]
fn long_update_message_goes_out_in_chunks() {
    init().unwrap();
    let coordinator = EncryptKeyPair::generate();
    let mut round = params(ratio(0, 1), ratio(1, 1));
    round.pk = coordinator.public;
    let mut state = shared(round);
    state.message_size = MaxMessageSize::capped(152 + 256).unwrap();
    let machine = StateMachine::Update(Phase::new(State::new(
        state,
        Update::new(Signature { bytes: [1; 64] }, Signature { bytes: [2; 64] }),
    )));
    let sum_keys = [EncryptKeyPair::generate(), EncryptKeyPair::generate()];
    let machine = complete(machine.proceed(Supply::Sums(Ok(Some(sum_dict(&sum_keys))))));
    let machine = complete(machine.proceed(Supply::Model(Ok(Some(Model { bytes: vec![1] })))));
    let machine = complete(machine.proceed(Supply::Masked(
        MaskSeed { bytes: [0x42; 32] },
        MaskObject { bytes: vec![9; 500] },
    )));
    let machine = complete(machine.proceed(Supply::Nothing));
    let machine = complete(machine.proceed(Supply::Nothing));
    let packets = match machine.demand() {
        Demand::Delivery(packets) => packets,
        other => panic!("no delivery: {:?}", other),
    };
    // 136 + 500 + 2 * 112 = 860 bytes in chunks of 248
    assert_eq!(packets.len(), 4);
    let mut reassembled = Vec::new();
    let mut ids = Vec::new();
    for (index, packet) in packets.iter().enumerate() {
        assert!(packet.len() <= 152 + 256);
        let opened = coordinator.decrypt(packet).unwrap();
        assert_eq!(opened[100], 4);
        match Message::from_bytes(&opened).unwrap().payload {
            Payload::Chunk(chunk) => {
                assert_eq!(chunk.id as usize, index);
                assert_eq!(chunk.last, index == 3);
                ids.push(chunk.message_id);
                reassembled.extend(chunk.data);
            }
            other => panic!("not a chunk: {:?}", other),
        }
    }
    assert!(ids.iter().all(|id| *id == ids[0]));
    assert_eq!(reassembled.len(), 860);
    assert_eq!(&reassembled[..64], &[1; 64]);
    assert_eq!(&reassembled[128..132], &[0, 0, 1, 0xf8]);
}

#[test]
fn save_and_restore_change_nothing() {
    init().unwrap();
    let round = params(ratio(0, 1), ratio(1, 1));
    let sums = sum_dict(&[EncryptKeyPair::generate()]);
    let machines = vec![
        new_round(params(ratio(0, 1), ratio(0, 1))),
        StateMachine::Awaiting(Phase::new(State::new(shared(round), Awaiting))),
        masked_update(round, sums.clone()),
        StateMachine::Sum2(Phase::new(State::new(
            shared(round),
            Sum2::new(EncryptKeyPair::generate(), Signature { bytes: [3; 64] }),
        ))),
    ];
    for machine in machines {
        let saved = machine.clone().save();
        match (&saved, &machine) {
            (SerializableState::NewRound(state), StateMachine::NewRound(phase)) => {
                assert_eq!(*state, phase.state)
            }
            (SerializableState::Awaiting(state), StateMachine::Awaiting(phase)) => {
                assert_eq!(*state, phase.state)
            }
            (SerializableState::Update(state), StateMachine::Update(phase)) => {
                assert_eq!(*state, phase.state)
            }
            (SerializableState::Sum2(state), StateMachine::Sum2(phase)) => {
                assert_eq!(*state, phase.state)
            }
            other => panic!("another phase: {:?}", other),
        }
        let restored = StateMachine::restore(saved);
        assert_eq!(restored, machine);
        assert_eq!(restored.demand().kind(), machine.demand().kind());
        assert_eq!(
            restored.clone().transition(Ok(round)),
            machine.clone().transition(Ok(round))
        );
        let supply = || Supply::MaskLength(Ok(Some(4)));
        let one = restored.proceed(supply());
        let other = machine.proceed(supply());
        // the seed dictionary is sealed afresh each time: compare what is fixed
        assert_eq!(one.notification, other.notification);
        match (one.outcome, other.outcome) {
            (TransitionOutcome::Pending(a), TransitionOutcome::Pending(b)) => assert_eq!(a, b),
            (TransitionOutcome::Complete(a), TransitionOutcome::Complete(b)) => {
                match (&a, &b) {
                    (StateMachine::Update(a), StateMachine::Update(b)) => {
                        let a = a.state.private.seed_dict.clone().unwrap();
                        let b = b.state.private.seed_dict.clone().unwrap();
                        assert_eq!(a.len(), b.len());
                        assert_eq!(a.entry(0).0, b.entry(0).0);
                    }
                    _ => assert_eq!(a, b),
                }
            }
            other => panic!("different outcomes: {:?}", other),
        }
    }
}

#[test]
fn a_state_that_lacks_a_field_ends_the_phase() {
    init().unwrap();
    let round = params(ratio(0, 1), ratio(1, 1));
    // The mask is there but the sum dictionary is not.
    let mut update = Update::new(Signature { bytes: [1; 64] }, Signature { bytes: [2; 64] });
    update.mask = Some((MaskSeed { bytes: [1; 32] }, MaskObject { bytes: vec![1] }));
    let machine = StateMachine::Update(Phase::new(State::new(shared(round), update)));
    let transition = machine.proceed(Supply::Nothing);
    assert_eq!(transition.notification, Some(Notification::Idle));
    assert!(is_awaiting(&complete(transition)));
}

#[test]
fn message_sizes() {
    assert_eq!(MaxMessageSize::capped(160), None);
    assert_eq!(MaxMessageSize::capped(0), None);
    let smallest = MaxMessageSize::capped(161).unwrap();
    assert_eq!(smallest.limit(), Some(161));
    assert_eq!(smallest.max_payload_size(), Some(9));
    assert_eq!(MaxMessageSize::default().limit(), Some(4096));
    assert_eq!(MaxMessageSize::default().max_payload_size(), Some(3944));
    assert_eq!(MaxMessageSize::unlimited().limit(), None);
    assert_eq!(MaxMessageSize::unlimited().max_payload_size(), None);
}

#[test]
fn round_parameters_differ_in_any_field() {
    let round = RoundParameters {
        pk: PublicEncryptKey { bytes: [1; 32] },
        sum: ratio(1, 2),
        update: ratio(1, 3),
        seed: RoundSeed { bytes: [2; 32] },
    };
    assert!(round.same(&round));
    let mut other = round;
    other.pk.bytes[31] = 0;
    assert!(!round.same(&other));
    let mut other = round;
    other.sum = ratio(2, 4);
    assert!(!round.same(&other));
    let mut other = round;
    other.update.denom = 4;
    assert!(!round.same(&other));
    let mut other = round;
    other.seed.bytes[0] = 0;
    assert!(!round.same(&other));
}

#[test]
fn states_in_and_out_of_order() {
    init().unwrap();
    let round = params(ratio(0, 1), ratio(1, 1));
    let machine = masked_update(round, sum_dict(&[EncryptKeyPair::generate()]));
    assert!(machine.clone().save().is_valid());
    let machine = complete(machine.proceed(Supply::Nothing));
    assert!(machine.clone().save().is_valid());
    let machine = complete(machine.proceed(Supply::Nothing));
    assert!(machine.save().is_valid());

    let mut update = Update::new(Signature { bytes: [1; 64] }, Signature { bytes: [2; 64] });
    assert!(update.is_valid());
    update.mask = Some((MaskSeed { bytes: [1; 32] }, MaskObject { bytes: vec![1] }));
    assert!(!update.is_valid());
    assert!(!SerializableState::Update(State::new(shared(round), update)).is_valid());

    let mut sum2 = Sum2::new(EncryptKeyPair::generate(), Signature { bytes: [3; 64] });
    assert!(sum2.is_valid());
    sum2.seeds = Some(vec![]);
    assert!(!sum2.is_valid());
    sum2.mask_length = Some(1);
    assert!(sum2.is_valid());
    sum2.mask = Some(MaskObject { bytes: vec![] });
    assert!(!sum2.is_valid());
    assert!(SerializableState::NewRound(State::new(shared(round), NewRound)).is_valid());
}

#[test]
fn ephemeral_keys_must_be_a_pair() {
    init().unwrap();
    let round = params(ratio(1, 1), ratio(0, 1));
    let machine = complete(new_round(round).proceed(Supply::Nothing));
    assert!(sum_state(&machine).private.ephm_keys.matches());
    assert!(sum_state(&machine).private.is_valid());
    assert!(machine.clone().save().is_valid());
    let machine = complete(machine.proceed(Supply::Nothing));
    let machine = complete(machine.proceed(Supply::Delivered(Ok(()))));
    assert!(sum2_state(&machine).private.is_valid());

    let mixed = EncryptKeyPair {
        public: EncryptKeyPair::generate().public,
        secret: EncryptKeyPair::generate().secret,
    };
    assert!(!mixed.matches());
    let mut sum = Sum::new(Signature { bytes: [3; 64] });
    assert!(sum.is_valid());
    sum.ephm_keys = mixed;
    assert!(!sum.is_valid());
    assert!(!SerializableState::Sum(State::new(shared(round), sum)).is_valid());
    assert!(!Sum2::new(mixed, Signature { bytes: [3; 64] }).is_valid());
}

#[test]
fn what_is_sealed_for_the_announced_key_opens_in_sum2() {
    init().unwrap();
    // a sum participant announces its ephemeral key
    let round = params(ratio(1, 1), ratio(0, 1));
    let sum = complete(new_round(round).proceed(Supply::Nothing));
    let announced = sum_state(&sum).private.ephm_keys.public;
    let mut sums = SumDict::new();
    sums.insert(known_keys().public, announced);
    // an update participant seals its mask seed for that key
    let update = masked_update(round, sums);
    let update = complete(update.proceed(Supply::Nothing));
    let seed_dict = update_state(&update).private.seed_dict.clone().unwrap();
    // the sum participant opens it in the sum2 phase
    let sum = complete(sum.proceed(Supply::Nothing));
    let sum2 = complete(sum.proceed(Supply::Delivered(Ok(()))));
    let sum2 = complete(sum2.proceed(Supply::MaskLength(Ok(Some(4)))));
    let sum2 = complete(sum2.proceed(Supply::Seeds(Ok(Some(seed_dict)))));
    let sum2 = complete(sum2.proceed(Supply::Nothing));
    assert_eq!(sum2_state(&sum2).private.seeds, Some(vec![MaskSeed { bytes: [0x42; 32] }]));
}
