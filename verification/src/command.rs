//! The command line's flow: what each command asks for, in which order, and what it prints.
use vstd::prelude::*;

use crate::base64_text;
use crate::base64_text::encode_base64;
use crate::hex_text;
use crate::hex_text::to_hex;
use crate::json;
use crate::json::{new_object, print_object, put_text};
use crate::keys;
use crate::keys::hex_or_base64;
use crate::publication;
use crate::zerostates;

verus! {

/// A command, as far as the flow depends on it.
#[derive(Debug, PartialEq, Eq)]
pub enum Command {
    /// Describe a node of the distributed hash table.
    DhtNode { secret: String },
    /// Make the zerostates of a network.
    ZeroState,
    /// Make a wallet's account.
    Account { pubkey: String, balance: u64 },
}

/// A piece of outside work.
#[derive(Clone, Copy, Debug, PartialEq, Eq)]
pub enum RunAction {
    /// Describe the node with this secret key.
    GenerateDhtConfig { secret: [u8; 32] },
    /// Read the description of the zerostates.
    ReadConfig,
    /// Find out whether the output goes to a directory.
    CheckOutput,
    /// Make the zerostates from the description that was read.
    PrepareZerostates,
    /// Find out whether this is a public key.
    CheckPublicKey { key: [u8; 32] },
    /// Build the wallet.
    BuildAccount { key: [u8; 32], balance: u64 },
    /// Turn the wallet into cells.
    SerializeAccount,
    /// Turn those cells into bytes.
    PackAccount,
    /// Print the text that the run holds.
    Print,
    /// Nothing: the command is done.
    Finished,
}

/// How a piece of outside work went.
#[derive(Debug, PartialEq, Eq)]
pub enum RunEvent {
    Done,
    /// The work resulted in a text to print.
    Text(String),
    Directory,
    NoDirectory,
    KeyAccepted,
    KeyRejected,
    Built { address: [u8; 32] },
    Packed { boc: Vec<u8> },
    Failed,
}

/// Why a command was not carried out.
#[derive(Clone, Copy, Debug, PartialEq, Eq)]
pub enum RunFailure {
    InvalidSecretKey,
    InvalidPublicKey,
    NoDirectory,
    /// This did not succeed.
    At(RunAction),
}

/// Where a command stands.
#[derive(Clone, Copy, Debug, PartialEq, Eq)]
pub enum RunPhase {
    Dht { secret: [u8; 32] },
    ReadConfig,
    CheckOutput,
    Zerostates,
    Key { key: [u8; 32], balance: u64 },
    Build { key: [u8; 32], balance: u64 },
    Serialize { address: [u8; 32] },
    Pack { address: [u8; 32] },
    Print,
    Finished,
}

/// Everything that decides what comes next, and the text to print.
#[verifier::ext_equal]
pub ghost struct RunState {
    pub phase: RunPhase,
    pub text: Seq<char>,
}

/// The 32 bytes of a key that an operator has written, with or without white space around it.
pub open spec fn key_bytes(text: Seq<char>) -> Option<Seq<u8>> {
    keys::hex_or_base64_bytes(keys::trimmed(text), 32)
}

/// The fields that tell of an account.
pub open spec fn account_fields(
    address: Seq<u8>,
    boc: Seq<u8>,
) -> Map<Seq<char>, json::Field> {
    json::no_fields().insert(
        "address"@,
        json::Field::Text(hex_text::hex_text(address)),
    ).insert("boc"@, json::Field::Text(base64_text::base64_text(boc)))
}

/// Whether the base64 text of so many bytes can be held in memory.
pub open spec fn encodable(len: nat) -> bool {
    (len + 2) / 3 * 4 <= isize::MAX
}

/// The work that is asked for.
pub open spec fn run_action(state: RunState) -> RunAction {
    match state.phase {
        RunPhase::Dht { secret } => RunAction::GenerateDhtConfig { secret },
        RunPhase::ReadConfig => RunAction::ReadConfig,
        RunPhase::CheckOutput => RunAction::CheckOutput,
        RunPhase::Zerostates => RunAction::PrepareZerostates,
        RunPhase::Key { key, .. } => RunAction::CheckPublicKey { key },
        RunPhase::Build { key, balance } => RunAction::BuildAccount { key, balance },
        RunPhase::Serialize { .. } => RunAction::SerializeAccount,
        RunPhase::Pack { .. } => RunAction::PackAccount,
        RunPhase::Print => RunAction::Print,
        RunPhase::Finished => RunAction::Finished,
    }
}

/// Whether an event can be the outcome of a piece of work.
pub open spec fn run_fits(action: RunAction, event: RunEvent) -> bool {
    match action {
        RunAction::GenerateDhtConfig { .. } => event is Text,
        RunAction::ReadConfig => event is Done || event is Failed,
        RunAction::CheckOutput => event is Directory || event is NoDirectory,
        RunAction::PrepareZerostates => event is Text || event is Failed,
        RunAction::CheckPublicKey { .. } => event is KeyAccepted || event is KeyRejected,
        RunAction::BuildAccount { .. } => event is Built || event is Failed,
        RunAction::SerializeAccount => event is Done || event is Failed,
        RunAction::PackAccount => event is Failed || (event is Packed && encodable(
            event->boc@.len(),
        )),
        RunAction::Print => event is Done,
        RunAction::Finished => false,
    }
}

/// A state in which a text is to be printed.
pub open spec fn printing(text: Seq<char>) -> RunState {
    RunState { phase: RunPhase::Print, text }
}

/// A state in which there is nothing to print yet.
pub open spec fn quiet(phase: RunPhase) -> RunState {
    RunState { phase, text: seq![] }
}

/// Where the command goes on after work that went well.
pub open spec fn run_onward(state: RunState, event: RunEvent) -> RunState {
    match state.phase {
        RunPhase::Dht { .. } => printing(event->Text_0@),
        RunPhase::ReadConfig => quiet(RunPhase::CheckOutput),
        RunPhase::CheckOutput => quiet(RunPhase::Zerostates),
        RunPhase::Zerostates => printing(event->Text_0@),
        RunPhase::Key { key, balance } => quiet(RunPhase::Build { key, balance }),
        RunPhase::Build { .. } => quiet(RunPhase::Serialize { address: event->address }),
        RunPhase::Serialize { address } => quiet(RunPhase::Pack { address }),
        RunPhase::Pack { address } => printing(
            json::pretty_text(account_fields(address@, event->boc@)),
        ),
        RunPhase::Print => quiet(RunPhase::Finished),
        RunPhase::Finished => quiet(RunPhase::Finished),
    }
}

/// What an outcome leads to: the next state, or the end.
pub open spec fn run_next(state: RunState, event: RunEvent) -> Result<RunState, RunFailure> {
    match event {
        RunEvent::Failed => Err(RunFailure::At(run_action(state))),
        RunEvent::NoDirectory => Err(RunFailure::NoDirectory),
        RunEvent::KeyRejected => Err(RunFailure::InvalidPublicKey),
        _ => Ok(run_onward(state, event)),
    }
}

/// What is told of a failure, on top of the failure itself, the widest first.
pub open spec fn run_contexts(failure: RunFailure) -> Seq<Seq<char>> {
    match failure {
        RunFailure::InvalidSecretKey => seq!["Invalid secret key"@, "Invalid data"@],
        RunFailure::InvalidPublicKey => seq!["Invalid public key"@],
        RunFailure::NoDirectory => seq!["Expected `output` param to be a directory"@],
        RunFailure::At(action) => match action {
            RunAction::ReadConfig => seq!["Failed to read zerostate config"@],
            RunAction::PrepareZerostates => seq!["Failed to prepare zerostates"@],
            RunAction::BuildAccount { .. } => seq!["Failed to build account"@],
            RunAction::SerializeAccount => seq!["Failed to serialize account"@],
            RunAction::PackAccount => seq!["Failed to serialize account cell"@],
            _ => seq![],
        },
    }
}

impl RunFailure {
    /// What is told of the failure, on top of the failure itself, the widest first.
    pub fn contexts(&self) -> (contexts: Vec<&'static str>)
        ensures
            zerostates::texts(contexts@) == run_contexts(*self),
    {
        let mut contexts: Vec<&'static str> = Vec::new();
        match self {
            RunFailure::InvalidSecretKey => {
                contexts.push("Invalid secret key");
                contexts.push(keys::InvalidData.message());
            },
            RunFailure::InvalidPublicKey => contexts.push("Invalid public key"),
            RunFailure::NoDirectory => contexts.push("Expected `output` param to be a directory"),
            RunFailure::At(action) => match action {
                RunAction::ReadConfig => contexts.push("Failed to read zerostate config"),
                RunAction::PrepareZerostates => contexts.push("Failed to prepare zerostates"),
                RunAction::BuildAccount { .. } => contexts.push("Failed to build account"),
                RunAction::SerializeAccount => contexts.push("Failed to serialize account"),
                RunAction::PackAccount => contexts.push("Failed to serialize account cell"),
                _ => {},
            },
        }
        assert(zerostates::texts(contexts@) =~= run_contexts(*self));
        contexts
    }
}

/// Tells of an account, in JSON.
pub fn account_json(address: &[u8; 32], boc: &Vec<u8>) -> (text: String)
    requires
        encodable(boc@.len()),
    ensures
        text@ == json::pretty_text(account_fields(address@, boc@)),
{
    let address = to_hex(address.as_slice());
    let boc = encode_base64(boc.as_slice());
    let mut object = new_object();
    put_text(&mut object, "address", address.as_str());
    put_text(&mut object, "boc", boc.as_str());
    print_object(&object)
}

/// A command that is being carried out.
pub struct Run {
    phase: RunPhase,
    text: String,
}

impl View for Run {
    type V = RunState;

    closed spec fn view(&self) -> RunState {
        RunState { phase: self.phase, text: self.text@ }
    }
}

/// Reads a key that an operator has written, with or without white space around it.
pub fn parse_key(text: &str) -> (key: Option<[u8; 32]>)
    ensures
        match key {
            Some(bytes) => key_bytes(text@) == Some(bytes@),
            None => key_bytes(text@) is None,
        },
{
    match hex_or_base64::<32>(text.trim()) {
        Ok(bytes) => Some(bytes),
        Err(_) => None,
    }
}

fn at(phase: RunPhase) -> (run: Run)
    ensures
        run@ == quiet(phase),
{
    let text = String::new();
    assert(text@ =~= seq![]);
    Run { phase, text }
}

/// Starts to carry out a command.
pub fn run(command: Command) -> (result: Result<Run, RunFailure>)
    ensures
        match command {
            Command::DhtNode { secret } => match key_bytes(secret@) {
                Some(bytes) => result matches Ok(run) && run@ == quiet(run@.phase)
                    && (run@.phase matches RunPhase::Dht { secret: key } && key@ == bytes),
                None => result == Err::<Run, RunFailure>(RunFailure::InvalidSecretKey),
            },
            Command::ZeroState => result matches Ok(run) && run@ == quiet(RunPhase::ReadConfig),
            Command::Account { pubkey, balance } => match key_bytes(pubkey@) {
                Some(bytes) => result matches Ok(run) && run@ == quiet(run@.phase)
                    && (run@.phase matches RunPhase::Key { key, balance: funds } && key@ == bytes
                    && funds == balance),
                None => result == Err::<Run, RunFailure>(RunFailure::InvalidPublicKey),
            },
        },
{
    match command {
        Command::DhtNode { secret } => match parse_key(secret.as_str()) {
            Some(secret) => Ok(at(RunPhase::Dht { secret })),
            None => Err(RunFailure::InvalidSecretKey),
        },
        Command::ZeroState => Ok(at(RunPhase::ReadConfig)),
        Command::Account { pubkey, balance } => match parse_key(pubkey.as_str()) {
            Some(key) => Ok(at(RunPhase::Key { key, balance })),
            None => Err(RunFailure::InvalidPublicKey),
        },
    }
}

/// Whether the base64 text of so many bytes can be held in memory.
fn can_encode(len: usize) -> (can: bool)
    ensures
        can == encodable(len as nat),
{
    len <= usize::MAX - 2 && (len + 2) / 3 <= isize::MAX as usize / 4
}

impl Run {
    /// The work that is asked for.
    pub fn action(&self) -> (action: RunAction)
        ensures
            action == run_action(self@),
    {
        match self.phase {
            RunPhase::Dht { secret } => RunAction::GenerateDhtConfig { secret },
            RunPhase::ReadConfig => RunAction::ReadConfig,
            RunPhase::CheckOutput => RunAction::CheckOutput,
            RunPhase::Zerostates => RunAction::PrepareZerostates,
            RunPhase::Key { key, .. } => RunAction::CheckPublicKey { key },
            RunPhase::Build { key, balance } => RunAction::BuildAccount { key, balance },
            RunPhase::Serialize { .. } => RunAction::SerializeAccount,
            RunPhase::Pack { .. } => RunAction::PackAccount,
            RunPhase::Print => RunAction::Print,
            RunPhase::Finished => RunAction::Finished,
        }
    }

    /// The text to print.
    pub fn text(&self) -> (text: &str)
        ensures
            text@ == self@.text,
    {
        self.text.as_str()
    }

    /// Whether an event can be the outcome of the work that is asked for.
    pub fn accepts(&self, event: &RunEvent) -> (accepted: bool)
        ensures
            accepted == run_fits(run_action(self@), *event),
    {
        match (self.action(), event) {
            (RunAction::GenerateDhtConfig { .. }, RunEvent::Text(_)) => true,
            (RunAction::ReadConfig, RunEvent::Done | RunEvent::Failed) => true,
            (RunAction::CheckOutput, RunEvent::Directory | RunEvent::NoDirectory) => true,
            (RunAction::PrepareZerostates, RunEvent::Text(_) | RunEvent::Failed) => true,
            (RunAction::CheckPublicKey { .. }, RunEvent::KeyAccepted | RunEvent::KeyRejected) => true,
            (RunAction::BuildAccount { .. }, RunEvent::Built { .. } | RunEvent::Failed) => true,
            (RunAction::SerializeAccount, RunEvent::Done | RunEvent::Failed) => true,
            (RunAction::PackAccount, RunEvent::Failed) => true,
            (RunAction::PackAccount, RunEvent::Packed { boc }) => can_encode(boc.len()),
            (RunAction::Print, RunEvent::Done) => true,
            _ => false,
        }
    }

    /// Takes in how the work went. The result is the command as it goes on, or why it ends.
    pub fn advance(self, event: RunEvent) -> (result: Result<Run, RunFailure>)
        requires
            run_fits(run_action(self@), event),
        ensures
            match result {
                Ok(run) => run_next(self@, event) == Ok::<RunState, RunFailure>(run@),
                Err(failure) => run_next(self@, event) == Err::<RunState, RunFailure>(failure),
            },
    {
        let action = self.action();
        match event {
            RunEvent::Failed => Err(RunFailure::At(action)),
            RunEvent::NoDirectory => Err(RunFailure::NoDirectory),
            RunEvent::KeyRejected => Err(RunFailure::InvalidPublicKey),
            RunEvent::Text(text) => Ok(Run { phase: RunPhase::Print, text }),
            RunEvent::Directory => Ok(at(RunPhase::Zerostates)),
            RunEvent::KeyAccepted => match self.phase {
                RunPhase::Key { key, balance } => Ok(at(RunPhase::Build { key, balance })),
                _ => Ok(self),
            },
            RunEvent::Built { address } => Ok(at(RunPhase::Serialize { address })),
            RunEvent::Packed { boc } => match self.phase {
                RunPhase::Pack { address } => {
                    let text = account_json(&address, &boc);
                    Ok(Run { phase: RunPhase::Print, text })
                },
                _ => Ok(self),
            },
            RunEvent::Done => match self.phase {
                RunPhase::ReadConfig => Ok(at(RunPhase::CheckOutput)),
                RunPhase::Serialize { address } => Ok(at(RunPhase::Pack { address })),
                _ => Ok(at(RunPhase::Finished)),
            },
        }
    }
}

/// The state after an outcome that ends nothing.
pub open spec fn run_after(state: RunState, event: RunEvent) -> RunState {
    run_next(state, event)->Ok_0
}

/// Nothing is printed before all the work for it has succeeded, and nothing is asked for after it.
pub proof fn law_print_comes_last(state: RunState, event: RunEvent)
    requires
        run_fits(run_action(state), event),
    ensures
        run_action(state) is Print ==> run_next(state, event) == Ok::<RunState, RunFailure>(
            quiet(RunPhase::Finished),
        ),
        event is Failed || event is NoDirectory || event is KeyRejected ==> run_next(state, event)
            is Err,
        run_next(state, event) matches Ok(next) ==> run_action(next) is Print || next == quiet(
            next.phase,
        ),
{
}

/// A node of the distributed hash table: its description is made, and printed as it is.
pub proof fn law_dht_node_flow(secret: [u8; 32], text: String)
    ensures
        ({
            let s0 = quiet(RunPhase::Dht { secret });
            &&& run_action(s0) == RunAction::GenerateDhtConfig { secret }
            &&& run_next(s0, RunEvent::Text(text)) == Ok::<RunState, RunFailure>(printing(text@))
        }),
{
}

/// The zerostates: the description is read before the output directory is looked at, both before
/// anything is made, and what making them tells is printed as it is.
pub proof fn law_zerostate_flow(text: String)
    ensures
        ({
            let s0 = quiet(RunPhase::ReadConfig);
            let s1 = run_after(s0, RunEvent::Done);
            let s2 = run_after(s1, RunEvent::Directory);
            &&& run_action(s0) == RunAction::ReadConfig
            &&& run_action(s1) == RunAction::CheckOutput
            &&& run_action(s2) == RunAction::PrepareZerostates
            &&& run_next(s2, RunEvent::Text(text)) == Ok::<RunState, RunFailure>(printing(text@))
        }),
{
}

/// An account: the key is checked before anything is built with it, and what is printed holds the
/// address that was built and the bytes that were packed.
pub proof fn law_account_flow(key: [u8; 32], balance: u64, address: [u8; 32], boc: Vec<u8>)
    requires
        encodable(boc@.len()),
    ensures
        ({
            let s0 = quiet(RunPhase::Key { key, balance });
            let s1 = run_after(s0, RunEvent::KeyAccepted);
            let s2 = run_after(s1, RunEvent::Built { address });
            let s3 = run_after(s2, RunEvent::Done);
            &&& run_action(s0) == RunAction::CheckPublicKey { key }
            &&& run_action(s1) == RunAction::BuildAccount { key, balance }
            &&& run_action(s2) == RunAction::SerializeAccount
            &&& run_action(s3) == RunAction::PackAccount
            &&& run_next(s3, RunEvent::Packed { boc }) == Ok::<RunState, RunFailure>(
                printing(json::pretty_text(account_fields(address@, boc@))),
            )
        }),
{
}

/// Whichever way a key is written, in hexadecimal of either case or in base64 with or without its
/// padding, and with any white space around it, the command reads that key.
pub proof fn law_any_form_of_a_key_is_read(
    before: Seq<char>,
    text: Seq<char>,
    after: Seq<char>,
    key: Seq<u8>,
)
    requires
        keys::all_white_space(before),
        keys::all_white_space(after),
        hex_text::hex_bytes(text) == Some(key) || base64_text::base64_stands_for(text, key),
        key.len() == 32,
    ensures
        key_bytes(before + text + after) == Some(key),
{
    if hex_text::hex_bytes(text) == Some(key) {
        keys::law_hex_is_read_trimmed(before, text, after, key);
    } else {
        keys::law_base64_is_read_trimmed(before, text, after, key);
    }
}

/// Where a key is read, the text is white space, the key's hexadecimal or base64 text, and white
/// space; anything else is refused.
pub proof fn law_a_key_that_is_read_is_written(text: Seq<char>, key: Seq<u8>)
    requires
        key_bytes(text) == Some(key),
    ensures
        key.len() == 32,
        exists|before: Seq<char>, middle: Seq<char>, after: Seq<char>|
            {
                &&& text == #[trigger] (before + middle + after)
                &&& keys::all_white_space(before)
                &&& keys::all_white_space(after)
                &&& hex_text::hex_bytes(middle) == Some(key) || base64_text::base64_stands_for(
                    middle,
                    key,
                )
            },
{
    let (before, after) = keys::law_only_white_space_is_trimmed(text);
    let middle = keys::trimmed(text);
    keys::law_what_is_read_is_written(middle, 32, key);
    assert(text == before + middle + after);
}

/// The object that is printed has two fields: the address in lower-case hexadecimal, from which it
/// can be read back, and the bytes in padded base64, from which they can.
pub proof fn law_account_told(address: Seq<u8>, boc: Seq<u8>)
    ensures
        ({
            let fields = account_fields(address, boc);
            &&& fields.dom() == set!["address"@, "boc"@]
            &&& fields["address"@] matches json::Field::Text(text) && hex_text::hex_bytes(text)
                == Some(address) && forall|i: int|
                0 <= i < text.len() ==> '0' <= (#[trigger] text[i]) <= '9' || 'a' <= text[i] <= 'f'
            &&& fields["boc"@] matches json::Field::Text(text) && base64_text::base64_text_cut(
                text,
                boc,
                0,
            ) && base64_text::base64_bytes(text) == Some(boc)
        }),
{
    reveal_strlit("address");
    reveal_strlit("boc");
    assert("address"@.len() == 7 && "boc"@.len() == 3);
    hex_text::law_hex_round_trip(address);
    hex_text::law_hex_is_lower_case(address);
    publication::lemma_base64_read_back(boc);
    assert(account_fields(address, boc).dom() =~= set!["address"@, "boc"@]);
}

/// Different accounts are never told alike.
pub proof fn law_accounts_are_told_apart(
    address: Seq<u8>,
    boc: Seq<u8>,
    other_address: Seq<u8>,
    other_boc: Seq<u8>,
)
    requires
        account_fields(address, boc) == account_fields(other_address, other_boc),
    ensures
        address == other_address,
        boc == other_boc,
{
    law_account_told(address, boc);
    law_account_told(other_address, other_boc);
}

/// Bytes can be told exactly if their base64 text can be held in memory.
pub proof fn law_what_is_encodable(bytes: Seq<u8>)
    ensures
        encodable(bytes.len()) <==> base64_text::base64_text(bytes).len() <= isize::MAX,
{
    base64_text::lemma_base64_text_len(bytes);
}

/// A command that starts has nothing to print. What is printed is the very text that the outside
/// made, or what tells of the address that was built and the bytes that were packed.
pub proof fn law_what_is_printed(state: RunState, event: RunEvent)
    requires
        run_fits(run_action(state), event),
    ensures
        quiet(state.phase).text.len() == 0,
        quiet(state.phase).phase == state.phase,
        event matches RunEvent::Text(text) ==> (run_next(state, event) matches Ok(next) && run_action(
            next,
        ) is Print && next.text == text@),
        event matches RunEvent::Packed { boc } ==> (state.phase matches RunPhase::Pack { address }
            && (run_next(state, event) matches Ok(next) && run_action(next) is Print && next.text
            == json::pretty_text(account_fields(address@, boc@)))),
        event matches RunEvent::Built { address } ==> (run_next(state, event) matches Ok(next)
            && next.phase == RunPhase::Serialize { address }),
        run_next(state, event) matches Ok(next) ==> (run_action(next) is Print <==> event is Text
            || event is Packed),
{
}

/// Every outcome belongs to the work that it can be an outcome of, and to no other.
pub proof fn law_run_outcomes(action: RunAction)
    ensures
        run_fits(action, RunEvent::Done) <==> (action is ReadConfig || action is SerializeAccount
            || action is Print),
        forall|text: String|
            #[trigger] run_fits(action, RunEvent::Text(text)) <==> (action is GenerateDhtConfig
                || action is PrepareZerostates),
        run_fits(action, RunEvent::Directory) <==> action is CheckOutput,
        run_fits(action, RunEvent::NoDirectory) <==> action is CheckOutput,
        run_fits(action, RunEvent::KeyAccepted) <==> action is CheckPublicKey,
        run_fits(action, RunEvent::KeyRejected) <==> action is CheckPublicKey,
        forall|address: [u8; 32]|
            #[trigger] run_fits(action, RunEvent::Built { address }) <==> action is BuildAccount,
        forall|boc: Vec<u8>|
            #[trigger] run_fits(action, RunEvent::Packed { boc }) <==> action is PackAccount
                && base64_text::base64_text(boc@).len() <= isize::MAX,
        run_fits(action, RunEvent::Failed) <==> (action is ReadConfig || action is PrepareZerostates
            || action is BuildAccount || action is SerializeAccount || action is PackAccount),
        run_fits(action, RunEvent::Failed) <==> run_contexts(RunFailure::At(action)).len() > 0,
{
    assert forall|boc: Vec<u8>|
        #[trigger] run_fits(action, RunEvent::Packed { boc }) <==> action is PackAccount
            && base64_text::base64_text(boc@).len() <= isize::MAX by {
        law_what_is_encodable(boc@);
    }
}

/// Work that did not succeed ends the command and is named, as do an output that is no directory and
/// a key that is no key; nothing else does.
pub proof fn law_run_failures(state: RunState, event: RunEvent)
    requires
        run_fits(run_action(state), event),
    ensures
        event is Failed ==> run_next(state, event) == Err::<RunState, RunFailure>(
            RunFailure::At(run_action(state)),
        ),
        event is NoDirectory ==> run_next(state, event) == Err::<RunState, RunFailure>(
            RunFailure::NoDirectory,
        ),
        event is KeyRejected ==> run_next(state, event) == Err::<RunState, RunFailure>(
            RunFailure::InvalidPublicKey,
        ),
        run_next(state, event) is Err ==> event is Failed || event is NoDirectory || event
            is KeyRejected,
{
}

} // verus!
