use metered_vm::address::Address;
use metered_vm::encoding::{read_byte_string, Serialized};
use metered_vm::error::{ActorError, ExitCode};
use metered_vm::reward::{Actor, Call, Method, RewardHandler, METHOD_CONSTRUCTOR};

/// Records the handlers that ran, and fails where it is told to.
#[derive(Default)]
struct Recorder {
    log: Vec<String>,
    fail_with: Option<ActorError>,
}

impl Recorder {
    fn done(&mut self, entry: String) -> Result<(), ActorError> {
        self.log.push(entry);
        match &self.fail_with {
            Some(e) => Err(e.clone()),
            None => Ok(()),
        }
    }
}

impl RewardHandler for Recorder {
    fn constructor(&mut self) -> Result<(), ActorError> {
        self.done(String::from("constructor"))
    }
    fn award_block_reward(&mut self) -> Result<(), ActorError> {
        self.done(String::from("award"))
    }
    fn withdraw_reward(&mut self, miner: &Address) -> Result<(), ActorError> {
        self.done(format!("withdraw {:?}", miner.id()))
    }
}

fn invalid_method() -> ActorError {
    ActorError::new(ExitCode::InvalidMethod, "Invalid method")
}

fn malformed() -> ActorError {
    ActorError::new(ExitCode::MalformedParameters, "Malformed parameters")
}

#[test]
fn method_numbers() {
    assert_eq!(METHOD_CONSTRUCTOR, 0);
    assert_eq!(Method::from_method_num(0), Some(Method::Constructor));
    assert_eq!(Method::from_method_num(1), None);
    assert_eq!(Method::from_method_num(2), Some(Method::AwardBlockReward));
    assert_eq!(Method::from_method_num(3), Some(Method::WithdrawReward));
    assert_eq!(Method::from_method_num(4), None);
    assert_eq!(Method::from_method_num(u64::MAX), None);
    for m in [Method::Constructor, Method::AwardBlockReward, Method::WithdrawReward] {
        assert_eq!(Method::from_method_num(m.method_num()), Some(m));
    }
}

#[test]
fn unknown_method_is_invalid_whatever_the_parameters() {
    let actor = Actor;
    for method in [1u64, 4, 5, 100, u64::MAX] {
        for params in [Serialized::default(), Serialized::from_address(&Address::new_id(1))] {
            let mut rt = Recorder::default();
            assert_eq!(actor.invoke_method(&mut rt, method, &params), Err(invalid_method()));
            assert!(rt.log.is_empty());
            assert_eq!(Actor::dispatch(method, &params), Err(invalid_method()));
        }
    }
}

#[test]
fn methods_without_parameters_run_on_the_empty_payload() {
    let actor = Actor;
    let mut rt = Recorder::default();
    assert_eq!(actor.invoke_method(&mut rt, 0, &Serialized::default()), Ok(Serialized::default()));
    assert_eq!(
        actor.invoke_method(&mut rt, 2, &Serialized::new(vec![])),
        Ok(Serialized::default())
    );
    assert_eq!(rt.log, vec!["constructor", "award"]);
    assert_eq!(Actor::dispatch(0, &Serialized::default()), Ok(Call::Constructor));
    assert_eq!(Actor::dispatch(2, &Serialized::default()), Ok(Call::AwardBlockReward));
}

#[test]
fn methods_without_parameters_refuse_a_payload() {
    let actor = Actor;
    let mut rt = Recorder::default();
    for method in [0u64, 2] {
        assert_eq!(
            actor.invoke_method(&mut rt, method, &Serialized::new(vec![0x40])),
            Err(malformed())
        );
        assert_eq!(
            actor.invoke_method(&mut rt, method, &Serialized::from_address(&Address::new_id(1))),
            Err(malformed())
        );
    }
    assert!(rt.log.is_empty());
}

#[test]
fn withdraw_reads_its_address() {
    let actor = Actor;
    let mut rt = Recorder::default();
    let miner = Address::new_id(1234);
    let params = Serialized::from_address(&miner);
    assert_eq!(params.bytes(), &[0x43, 0x00, 0xd2, 0x09]);
    assert_eq!(Actor::dispatch(3, &params), Ok(Call::WithdrawReward(miner)));
    assert_eq!(actor.invoke_method(&mut rt, 3, &params), Ok(Serialized::default()));
    assert_eq!(rt.log, vec!["withdraw Some(1234)"]);
    let bls = Address::new_bls([5; 48]);
    assert_eq!(Actor::dispatch(3, &Serialized::from_address(&bls)), Ok(Call::WithdrawReward(bls)));
}

#[test]
fn withdraw_refuses_what_is_no_address() {
    let actor = Actor;
    let mut rt = Recorder::default();
    let bad: Vec<Vec<u8>> = vec![
        vec![],
        vec![0x40],
        vec![0x42, 0x00],
        vec![0x42, 0x00, 0x01, 0x02],
        vec![0x42, 0x07, 0x01],
        vec![0x43, 0x00, 0x80, 0x00],
        vec![0x62, 0x00, 0x01],
        vec![0x58, 0x02, 0x00, 0x01],
        vec![0x00],
    ];
    for bytes in bad {
        assert_eq!(actor.invoke_method(&mut rt, 3, &Serialized::new(bytes)), Err(malformed()));
    }
    assert!(rt.log.is_empty());
}

#[test]
fn handlers_failure_is_the_outcome() {
    let actor = Actor;
    let failure = ActorError::new(ExitCode::ActorFailure, "no reward to withdraw");
    let mut rt = Recorder { log: vec![], fail_with: Some(failure.clone()) };
    let params = Serialized::from_address(&Address::new_id(7));
    assert_eq!(actor.invoke_method(&mut rt, 3, &params), Err(failure.clone()));
    assert_eq!(actor.invoke_method(&mut rt, 0, &Serialized::default()), Err(failure.clone()));
    assert_eq!(rt.log.len(), 2);
    assert_eq!(Actor::envelope(Err(failure.clone())), Err(failure));
    assert_eq!(Actor::envelope(Ok(())), Ok(Serialized::default()));
}

#[test]
fn address_parameters_round_trip() {
    for a in [
        Address::new_id(0),
        Address::new_id(u64::MAX),
        Address::new_secp256k1([3; 20]),
        Address::new_actor([4; 20]),
        Address::new_bls([5; 48]),
    ] {
        let params = Serialized::from_address(&a);
        assert_eq!(params.to_address(), Some(a));
        assert!(!params.is_empty());
        assert_eq!(params.clone(), params);
    }
    // a key of 48 bytes takes the long header
    let params = Serialized::from_address(&Address::new_bls([5; 48]));
    assert_eq!(&params.bytes()[..3], &[0x58, 49, 3]);
    assert_eq!(params.bytes().len(), 51);
}

#[test]
fn byte_string_framing() {
    assert_eq!(read_byte_string(&[0x40]), Some(&[][..]));
    assert_eq!(read_byte_string(&[0x43, 1, 2, 3]), Some(&[1u8, 2, 3][..]));
    let mut short = vec![0x57];
    short.extend_from_slice(&[7; 23]);
    assert_eq!(read_byte_string(&short), Some(&[7u8; 23][..]));
    let mut long = vec![0x58, 24];
    long.extend_from_slice(&[7; 24]);
    assert_eq!(read_byte_string(&long), Some(&[7u8; 24][..]));
    let mut longest = vec![0x58, 255];
    longest.extend_from_slice(&[7; 255]);
    assert_eq!(read_byte_string(&longest), Some(&[7u8; 255][..]));
    assert_eq!(read_byte_string(&[]), None);
    assert_eq!(read_byte_string(&[0x41]), None);
    assert_eq!(read_byte_string(&[0x41, 1, 2]), None);
    assert_eq!(read_byte_string(&[0x58]), None);
    // a short string under the long header is not canonical
    assert_eq!(read_byte_string(&[0x58, 1, 9]), None);
    assert_eq!(read_byte_string(&[0x59, 0, 1, 9]), None);
}
