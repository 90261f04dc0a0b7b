use betterscale::command::{account_json, run, Command, Run, RunAction, RunEvent, RunFailure};

fn step(run: Run, event: RunEvent) -> Result<Run, RunFailure> {
    assert!(run.accepts(&event));
    run.advance(event)
}

fn advanced(run: Run, event: RunEvent) -> Run {
    match step(run, event) {
        Ok(run) => run,
        Err(failure) => panic!("{:?}", failure),
    }
}

fn refused(run: Run, event: RunEvent) -> RunFailure {
    match step(run, event) {
        Ok(run) => panic!("{:?}", run.action()),
        Err(failure) => failure,
    }
}

fn started(command: Command) -> Run {
    match run(command) {
        Ok(run) => run,
        Err(failure) => panic!("{:?}", failure),
    }
}

fn account() -> Command {
    Command::Account { pubkey: " 02".to_string() + &"00".repeat(31) + "\n", balance: 70 }
}

#[test]
fn a_dht_node_is_described_and_printed() {
    let mut secret = [0u8; 32];
    secret[31] = 9;
    let job = started(Command::DhtNode { secret: "00".repeat(31) + "09" });
    assert_eq!(job.action(), RunAction::GenerateDhtConfig { secret });
    let job = advanced(job, RunEvent::Text("{}".to_string()));
    assert_eq!(job.action(), RunAction::Print);
    assert_eq!(job.text(), "{}");
    let job = advanced(job, RunEvent::Done);
    assert_eq!(job.action(), RunAction::Finished);
    assert!(!job.accepts(&RunEvent::Done));
}

#[test]
fn a_bad_secret_is_refused() {
    let failure = run(Command::DhtNode { secret: "secret".to_string() }).err();
    assert_eq!(failure, Some(RunFailure::InvalidSecretKey));
    assert_eq!(RunFailure::InvalidSecretKey.contexts(), ["Invalid secret key", "Invalid data"]);
}

#[test]
fn zerostates_are_prepared_and_printed() {
    let job = started(Command::ZeroState);
    assert_eq!(job.action(), RunAction::ReadConfig);
    let job = advanced(job, RunEvent::Done);
    assert_eq!(job.action(), RunAction::CheckOutput);
    let job = advanced(job, RunEvent::Directory);
    assert_eq!(job.action(), RunAction::PrepareZerostates);
    assert_eq!(job.text(), "");
    let job = advanced(job, RunEvent::Text("done".to_string()));
    assert_eq!(job.text(), "done");
    assert_eq!(job.action(), RunAction::Print);
}

#[test]
fn zerostates_fail_with_their_contexts() {
    let failure = refused(started(Command::ZeroState), RunEvent::Failed);
    assert_eq!(failure, RunFailure::At(RunAction::ReadConfig));
    assert_eq!(failure.contexts(), ["Failed to read zerostate config"]);

    let job = advanced(started(Command::ZeroState), RunEvent::Done);
    let failure = refused(job, RunEvent::NoDirectory);
    assert_eq!(failure, RunFailure::NoDirectory);
    assert_eq!(failure.contexts(), ["Expected `output` param to be a directory"]);

    let job = advanced(started(Command::ZeroState), RunEvent::Done);
    let job = advanced(job, RunEvent::Directory);
    let failure = refused(job, RunEvent::Failed);
    assert_eq!(failure.contexts(), ["Failed to prepare zerostates"]);
}

#[test]
fn an_account_is_built_and_printed() {
    let mut key = [0u8; 32];
    key[0] = 2;
    let job = started(account());
    assert_eq!(job.action(), RunAction::CheckPublicKey { key });
    let job = advanced(job, RunEvent::KeyAccepted);
    assert_eq!(job.action(), RunAction::BuildAccount { key, balance: 70 });
    let job = advanced(job, RunEvent::Built { address: [0xab; 32] });
    assert_eq!(job.action(), RunAction::SerializeAccount);
    let job = advanced(job, RunEvent::Done);
    assert_eq!(job.action(), RunAction::PackAccount);
    let job = advanced(job, RunEvent::Packed { boc: b"hello".to_vec() });
    assert_eq!(job.action(), RunAction::Print);
    let expected = format!(
        "{{\n  \"address\": \"{}\",\n  \"boc\": \"aGVsbG8=\"\n}}",
        "ab".repeat(32)
    );
    assert_eq!(job.text(), expected);
}

#[test]
fn an_account_fails_with_its_contexts() {
    let failure = run(Command::Account { pubkey: "0x02".to_string(), balance: 0 }).err();
    assert_eq!(failure, Some(RunFailure::InvalidPublicKey));

    let failure = refused(started(account()), RunEvent::KeyRejected);
    assert_eq!(failure, RunFailure::InvalidPublicKey);
    assert_eq!(failure.contexts(), ["Invalid public key"]);

    let job = advanced(started(account()), RunEvent::KeyAccepted);
    assert_eq!(refused(job, RunEvent::Failed).contexts(), ["Failed to build account"]);

    let job = advanced(started(account()), RunEvent::KeyAccepted);
    let job = advanced(job, RunEvent::Built { address: [0; 32] });
    assert_eq!(refused(job, RunEvent::Failed).contexts(), ["Failed to serialize account"]);

    let job = advanced(started(account()), RunEvent::KeyAccepted);
    let job = advanced(job, RunEvent::Built { address: [0; 32] });
    let job = advanced(job, RunEvent::Done);
    assert_eq!(refused(job, RunEvent::Failed).contexts(), ["Failed to serialize account cell"]);
}

#[test]
fn events_that_answer_nothing_are_told_apart() {
    let job = started(Command::ZeroState);
    assert!(job.accepts(&RunEvent::Done));
    assert!(job.accepts(&RunEvent::Failed));
    assert!(!job.accepts(&RunEvent::Directory));
    assert!(!job.accepts(&RunEvent::KeyAccepted));
    assert!(!job.accepts(&RunEvent::Text(String::new())));
    assert!(!job.accepts(&RunEvent::Packed { boc: Vec::new() }));
    assert!(RunFailure::At(RunAction::Print).contexts().is_empty());
}

#[test]
fn account_json_of_nothing() {
    let expected = format!("{{\n  \"address\": \"{}\",\n  \"boc\": \"\"\n}}", "0".repeat(64));
    assert_eq!(account_json(&[0; 32], &Vec::new()), expected);
}
