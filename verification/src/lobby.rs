//! The character lobby: the stage of a session between login and entering
//! the world.
//!
//! The lobby never touches the connection or the character service. Each
//! function takes the lobby as it stands together with what just happened
//! (a packet arrived, the service answered) and returns a `Step`: the lobby
//! as it stands afterwards and the one thing the caller has to do next.

use crate::bytes::{bytes_equal, copy_bytes};
use crate::protocol::{decode, Class, Client, ClientModel, DecodeError, Packet};
use vstd::prelude::*;

verus! {

/// Milliseconds to wait between the character list and the welcome notice.
pub const LIST_DELAY_MS: u64 = 250;

/// The account that owns a session.
#[derive(Clone, Debug, PartialEq, Eq)]
pub struct Account {
    pub id: u64,
    pub username: Vec<u8>,
    pub security_code: Vec<u8>,
}

/// An account, with its byte strings as sequences.
pub struct AccountModel {
    pub id: u64,
    pub username: Seq<u8>,
    pub security_code: Seq<u8>,
}

impl View for Account {
    type V = AccountModel;

    open spec fn view(&self) -> AccountModel {
        AccountModel { id: self.id, username: self.username@, security_code: self.security_code@ }
    }
}

/// A character of an account.
#[derive(Clone, Debug, PartialEq, Eq)]
pub struct Character {
    pub id: u64,
    pub name: Vec<u8>,
    pub class: Class,
    pub account_id: u64,
}

/// A character, with its name as a sequence.
pub struct CharacterModel {
    pub id: u64,
    pub name: Seq<u8>,
    pub class: Class,
    pub account_id: u64,
}

impl View for Character {
    type V = CharacterModel;

    open spec fn view(&self) -> CharacterModel {
        CharacterModel {
            id: self.id,
            name: self.name@,
            class: self.class,
            account_id: self.account_id,
        }
    }
}

impl Character {
    /// A second copy of this character.
    pub fn duplicate(&self) -> (copy: Character)
        ensures
            copy@ == self@,
    {
        Character {
            id: self.id,
            name: copy_bytes(&self.name),
            class: self.class,
            account_id: self.account_id,
        }
    }
}

/// The models of a list of characters, in list order.
pub open spec fn models(characters: Seq<Character>) -> Seq<CharacterModel> {
    characters.map_values(|c: Character| c@)
}

/// Why the character service refused to create a character.
#[derive(Clone, Copy, Debug, PartialEq, Eq, Structural)]
pub enum CharacterCreateError {
    LimitReached,
    InvalidName,
    OccupiedName,
}

/// Why the character service refused to delete a character.
#[derive(Clone, Copy, Debug, PartialEq, Eq, Structural)]
pub enum CharacterDeleteError {
    GuildCharacter,
    Blocked,
}

/// The result code of a creation, as sent to the client.
#[derive(Clone, Copy, Debug, PartialEq, Eq, Structural)]
pub enum CharacterCreateResult {
    Success,
    LimitReached,
    InvalidName,
}

/// The result code of a deletion, as sent to the client.
#[derive(Clone, Copy, Debug, PartialEq, Eq, Structural)]
pub enum CharacterDeleteResult {
    Success,
    InvalidSecurityCode,
    GuildCharacter,
    Blocked,
}

/// The result code that reports a creation error.
pub open spec fn create_error_code(error: CharacterCreateError) -> CharacterCreateResult {
    match error {
        CharacterCreateError::LimitReached => CharacterCreateResult::LimitReached,
        CharacterCreateError::InvalidName => CharacterCreateResult::InvalidName,
        CharacterCreateError::OccupiedName => CharacterCreateResult::InvalidName,
    }
}

/// The result code that reports a deletion error.
pub open spec fn delete_error_code(error: CharacterDeleteError) -> CharacterDeleteResult {
    match error {
        CharacterDeleteError::GuildCharacter => CharacterDeleteResult::GuildCharacter,
        CharacterDeleteError::Blocked => CharacterDeleteResult::Blocked,
    }
}

/// Converts a character creation error to a packet result.
pub fn map_character_create_error(error: CharacterCreateError) -> (code: CharacterCreateResult)
    ensures
        code == create_error_code(error),
        code != CharacterCreateResult::Success,
{
    match error {
        CharacterCreateError::LimitReached => CharacterCreateResult::LimitReached,
        CharacterCreateError::InvalidName | CharacterCreateError::OccupiedName => {
            CharacterCreateResult::InvalidName
        },
    }
}

/// Converts a character deletion error to a packet result.
pub fn map_character_delete_error(error: CharacterDeleteError) -> (code: CharacterDeleteResult)
    ensures
        code == delete_error_code(error),
        code != CharacterDeleteResult::Success,
        code != CharacterDeleteResult::InvalidSecurityCode,
{
    match error {
        CharacterDeleteError::GuildCharacter => CharacterDeleteResult::GuildCharacter,
        CharacterDeleteError::Blocked => CharacterDeleteResult::Blocked,
    }
}

/// Why a session is aborted in the lobby.
#[derive(Clone, Copy, Debug, PartialEq, Eq, Structural)]
pub enum LobbyError {
    /// A known packet carried a payload that its layout rejects.
    Decode(DecodeError),
    /// The client asked to delete a character that is not in its list.
    UnknownCharacterForDeletion,
    /// The client asked to join with a character that is not in its list.
    UnknownCharacterForSelection,
    /// The packet is not a lobby request.
    UnexpectedPacket,
}

/// The stages of a session, in the order in which they are passed.
#[derive(Clone, Copy, Debug, PartialEq, Eq, Structural)]
pub enum Stage {
    Login,
    Lobby,
    Joined,
}

impl Stage {
    /// The place of a stage in the order of stages.
    pub open spec fn rank(self) -> nat {
        match self {
            Stage::Login => 0,
            Stage::Lobby => 1,
            Stage::Joined => 2,
        }
    }
}

/// The state of a session in the lobby: the account and its cached characters.
#[derive(Clone, Debug, PartialEq, Eq)]
pub struct Lobby {
    pub account: Account,
    pub characters: Vec<Character>,
}

/// The state of a session in the lobby, as plain mathematics.
pub struct LobbyModel {
    pub account: AccountModel,
    pub characters: Seq<CharacterModel>,
}

impl View for Lobby {
    type V = LobbyModel;

    open spec fn view(&self) -> LobbyModel {
        LobbyModel { account: self.account@, characters: models(self.characters@) }
    }
}

/// A packet for the client.
#[derive(Clone, Debug, PartialEq, Eq)]
pub enum ServerMessage {
    /// The account's characters, in list order, and the highest class on offer.
    CharacterList { max_class: Class, characters: Vec<Character> },
    /// A notice shown to the player.
    Notice(String),
    /// The result of a creation; on success with the new character.
    CharacterCreateResult(CharacterCreateResult, Option<Character>),
    /// The result of a deletion.
    CharacterDeleteResult(CharacterDeleteResult),
    /// The acknowledgement that the client enters the world with this character.
    CharacterJoin(Character),
}

/// A packet for the client, as plain mathematics.
pub enum ServerMessageModel {
    CharacterList { max_class: Class, characters: Seq<CharacterModel> },
    Notice(Seq<char>),
    CharacterCreateResult(CharacterCreateResult, Option<CharacterModel>),
    CharacterDeleteResult(CharacterDeleteResult),
    CharacterJoin(CharacterModel),
}

impl View for ServerMessage {
    type V = ServerMessageModel;

    open spec fn view(&self) -> ServerMessageModel {
        match *self {
            ServerMessage::CharacterList { max_class, characters } => {
                ServerMessageModel::CharacterList { max_class, characters: models(characters@) }
            },
            ServerMessage::Notice(text) => ServerMessageModel::Notice(text@),
            ServerMessage::CharacterCreateResult(result, character) => {
                ServerMessageModel::CharacterCreateResult(
                    result,
                    match character {
                        Some(c) => Some(c@),
                        None => None,
                    },
                )
            },
            ServerMessage::CharacterDeleteResult(result) => {
                ServerMessageModel::CharacterDeleteResult(result)
            },
            ServerMessage::CharacterJoin(character) => ServerMessageModel::CharacterJoin(
                character@,
            ),
        }
    }
}

/// One thing done on the connection.
#[derive(Clone, Debug, PartialEq, Eq)]
pub enum Effect {
    /// Send this packet and wait until it is flushed.
    Send(ServerMessage),
    /// Let at least this many milliseconds pass.
    Pause(u64),
}

/// One thing done on the connection, as plain mathematics.
pub enum EffectModel {
    Send(ServerMessageModel),
    Pause(u64),
}

impl View for Effect {
    type V = EffectModel;

    open spec fn view(&self) -> EffectModel {
        match *self {
            Effect::Send(message) => EffectModel::Send(message@),
            Effect::Pause(millis) => EffectModel::Pause(millis),
        }
    }
}

/// The models of a list of effects, in list order.
pub open spec fn effect_models(effects: Seq<Effect>) -> Seq<EffectModel> {
    effects.map_values(|e: Effect| e@)
}

/// What the caller has to do before it receives the next packet.
#[derive(Clone, Debug, PartialEq, Eq)]
pub enum Action {
    /// Perform these effects on the connection, first to last.
    Reply(Vec<Effect>),
    /// Ask the character service to create a character and report its
    /// answer with `Lobby::created`.
    CreateCharacter { name: Vec<u8>, class: Class, account_id: u64 },
    /// Ask the character service to delete this character and report its
    /// answer with `Lobby::deleted`.
    DeleteCharacter(Character),
}

/// An action, as plain mathematics.
pub enum ActionModel {
    Reply(Seq<EffectModel>),
    CreateCharacter { name: Seq<u8>, class: Class, account_id: u64 },
    DeleteCharacter(CharacterModel),
}

impl View for Action {
    type V = ActionModel;

    open spec fn view(&self) -> ActionModel {
        match *self {
            Action::Reply(effects) => ActionModel::Reply(effect_models(effects@)),
            Action::CreateCharacter { name, class, account_id } => ActionModel::CreateCharacter {
                name: name@,
                class,
                account_id,
            },
            Action::DeleteCharacter(character) => ActionModel::DeleteCharacter(character@),
        }
    }
}

impl ActionModel {
    /// The reply that sends one packet and nothing else.
    pub open spec fn send(message: ServerMessageModel) -> ActionModel {
        ActionModel::Reply(seq![EffectModel::Send(message)])
    }
}

/// The outcome of one event in the lobby.
#[derive(Clone, Debug, PartialEq, Eq)]
pub enum Step {
    /// The session stays in the lobby: perform the action, then receive again.
    Continue { lobby: Lobby, action: Action },
    /// The client chose this character: send the acknowledgement and leave
    /// the lobby with the character.
    Joined { character: Character, acknowledgement: ServerMessage },
    /// The session is over: drop the connection, send nothing.
    Fatal { error: LobbyError },
}

/// A step, as plain mathematics.
pub enum StepModel {
    Continue { lobby: LobbyModel, action: ActionModel },
    Joined { character: CharacterModel, acknowledgement: ServerMessageModel },
    Fatal { error: LobbyError },
}

impl View for Step {
    type V = StepModel;

    open spec fn view(&self) -> StepModel {
        match *self {
            Step::Continue { lobby, action } => StepModel::Continue {
                lobby: lobby@,
                action: action@,
            },
            Step::Joined { character, acknowledgement } => StepModel::Joined {
                character: character@,
                acknowledgement: acknowledgement@,
            },
            Step::Fatal { error } => StepModel::Fatal { error },
        }
    }
}

impl StepModel {
    /// The stage a session is in after this step, while it lives.
    pub open spec fn stage(self) -> Option<Stage> {
        match self {
            StepModel::Continue { .. } => Some(Stage::Lobby),
            StepModel::Joined { .. } => Some(Stage::Joined),
            StepModel::Fatal { .. } => None,
        }
    }

    /// Whether this step asks the character service for anything.
    pub open spec fn calls_service(self) -> bool {
        match self {
            StepModel::Continue { action: ActionModel::CreateCharacter { .. }, .. } => true,
            StepModel::Continue { action: ActionModel::DeleteCharacter(..), .. } => true,
            _ => false,
        }
    }

    /// Whether this step sends anything to the client.
    pub open spec fn sends_packet(self) -> bool {
        match self {
            StepModel::Continue { action: ActionModel::Reply(effects), .. } => exists|i: int|
                0 <= i < effects.len() && (#[trigger] effects[i]) is Send,
            StepModel::Joined { .. } => true,
            _ => false,
        }
    }
}

impl Step {
    /// The stage the session is in after this step; `None` once it is aborted.
    pub fn stage(&self) -> (stage: Option<Stage>)
        ensures
            stage == self@.stage(),
    {
        match self {
            Step::Continue { .. } => Some(Stage::Lobby),
            Step::Joined { .. } => Some(Stage::Joined),
            Step::Fatal { .. } => None,
        }
    }
}

/// Whether some character of the list has this name.
pub open spec fn has_name(characters: Seq<CharacterModel>, name: Seq<u8>) -> bool {
    exists|i: int| 0 <= i < characters.len() && (#[trigger] characters[i]).name == name
}

/// Whether `i` is the first place in the list that holds this name.
pub open spec fn first_named(characters: Seq<CharacterModel>, name: Seq<u8>, i: int) -> bool {
    &&& 0 <= i < characters.len()
    &&& characters[i].name == name
    &&& forall|j: int| 0 <= j < i ==> (#[trigger] characters[j]).name != name
}

/// The first place in the list that holds this name, where there is one.
pub open spec fn position_of(characters: Seq<CharacterModel>, name: Seq<u8>) -> int {
    choose|i: int| first_named(characters, name, i)
}

/// Whether no two characters of the list share a name.
pub open spec fn names_unique(characters: Seq<CharacterModel>) -> bool {
    forall|i: int, j: int|
        0 <= i < j < characters.len() ==> (#[trigger] characters[i]).name != (
        #[trigger] characters[j]).name
}

/// The highest class offered to an account in its character list.
pub open spec fn max_class_for(account: AccountModel) -> Class {
    Class::FairyElf
}

/// The notice that follows the character list.
pub open spec fn welcome_notice() -> Seq<char> {
    "Welcome to Mu Online in Rust!"@
}

/// What the lobby does with a decoded client message.
pub open spec fn dispatch(lobby: LobbyModel, message: ClientModel) -> StepModel {
    match message {
        ClientModel::CharacterListRequest => StepModel::Continue {
            lobby,
            action: ActionModel::Reply(
                seq![
                    EffectModel::Send(
                        ServerMessageModel::CharacterList {
                            max_class: max_class_for(lobby.account),
                            characters: lobby.characters,
                        },
                    ),
                    EffectModel::Pause(LIST_DELAY_MS),
                    EffectModel::Send(ServerMessageModel::Notice(welcome_notice())),
                ],
            ),
        },
        ClientModel::CharacterCreate { name, class } => StepModel::Continue {
            lobby,
            action: ActionModel::CreateCharacter { name, class, account_id: lobby.account.id },
        },
        ClientModel::CharacterDelete { name, security_code } => {
            if !has_name(lobby.characters, name) {
                StepModel::Fatal { error: LobbyError::UnknownCharacterForDeletion }
            } else if security_code != lobby.account.security_code {
                StepModel::Continue {
                    lobby,
                    action: ActionModel::send(
                        ServerMessageModel::CharacterDeleteResult(
                            CharacterDeleteResult::InvalidSecurityCode,
                        ),
                    ),
                }
            } else {
                let i = position_of(lobby.characters, name);
                StepModel::Continue {
                    lobby: LobbyModel {
                        account: lobby.account,
                        characters: lobby.characters.remove(i),
                    },
                    action: ActionModel::DeleteCharacter(lobby.characters[i]),
                }
            }
        },
        ClientModel::CharacterJoinRequest { name } => {
            if !has_name(lobby.characters, name) {
                StepModel::Fatal { error: LobbyError::UnknownCharacterForSelection }
            } else {
                let character = lobby.characters[position_of(lobby.characters, name)];
                StepModel::Joined {
                    character,
                    acknowledgement: ServerMessageModel::CharacterJoin(character),
                }
            }
        },
        _ => StepModel::Fatal { error: LobbyError::UnexpectedPacket },
    }
}

/// What the lobby does with a raw packet: a payload that does not decode
/// aborts the session, every other packet is dispatched.
pub open spec fn receive(lobby: LobbyModel, code: u8, data: Seq<u8>) -> StepModel {
    match decode(code, data) {
        Ok(message) => dispatch(lobby, message),
        Err(error) => StepModel::Fatal { error: LobbyError::Decode(error) },
    }
}

/// What the lobby does with the character service's answer to a creation.
pub open spec fn after_create(
    lobby: LobbyModel,
    answer: Result<CharacterModel, CharacterCreateError>,
) -> StepModel {
    match answer {
        Ok(character) => StepModel::Continue {
            lobby: LobbyModel { account: lobby.account, characters: lobby.characters.push(character) },
            action: ActionModel::send(
                ServerMessageModel::CharacterCreateResult(
                    CharacterCreateResult::Success,
                    Some(character),
                ),
            ),
        },
        Err(error) => StepModel::Continue {
            lobby,
            action: ActionModel::send(
                ServerMessageModel::CharacterCreateResult(create_error_code(error), None),
            ),
        },
    }
}

/// What the lobby does with the character service's answer to a deletion.
/// A refused deletion hands the character back, and it returns to the end
/// of the list.
pub open spec fn after_delete(
    lobby: LobbyModel,
    answer: Result<(), (CharacterModel, CharacterDeleteError)>,
) -> StepModel {
    match answer {
        Ok(_) => StepModel::Continue {
            lobby,
            action: ActionModel::send(
                ServerMessageModel::CharacterDeleteResult(CharacterDeleteResult::Success),
            ),
        },
        Err((character, error)) => StepModel::Continue {
            lobby: LobbyModel { account: lobby.account, characters: lobby.characters.push(character) },
            action: ActionModel::send(
                ServerMessageModel::CharacterDeleteResult(delete_error_code(error)),
            ),
        },
    }
}

/// The highest class offered to an account in its character list.
pub fn max_class_policy(account: &Account) -> (class: Class)
    ensures
        class == max_class_for(account@),
{
    Class::FairyElf
}

/// Finds the first character with the given name.
pub fn find_by_name(characters: &Vec<Character>, name: &Vec<u8>) -> (found: Option<usize>)
    ensures
        match found {
            Some(i) => first_named(models(characters@), name@, i as int) && position_of(
                models(characters@),
                name@,
            ) == i,
            None => !has_name(models(characters@), name@),
        },
{
    let ghost list = models(characters@);
    let mut i: usize = 0;
    while i < characters.len()
        invariant
            i <= characters.len(),
            list == models(characters@),
            forall|j: int| 0 <= j < i ==> (#[trigger] list[j]).name != name@,
        decreases characters.len() - i,
    {
        if bytes_equal(&characters[i].name, name) {
            proof {
                assert(list[i as int] == characters@[i as int]@);
                assert(first_named(list, name@, i as int));
                let k = position_of(list, name@);
                assert(first_named(list, name@, k));
            }
            return Some(i);
        }
        proof {
            assert(list[i as int] == characters@[i as int]@);
        }
        i += 1;
    }
    None
}

/// Takes the first character with the given name out of the list. Without
/// such a character the list stays as it is.
pub fn remove_item_by(characters: &mut Vec<Character>, name: &Vec<u8>) -> (removed: Option<
    Character,
>)
    ensures
        match removed {
            Some(character) => {
                let before = models(old(characters)@);
                &&& has_name(before, name@)
                &&& character@ == before[position_of(before, name@)]
                &&& models(final(characters)@) == before.remove(position_of(before, name@))
            },
            None => !has_name(models(old(characters)@), name@) && final(characters)@ == old(
                characters,
            )@,
        },
{
    let ghost before = models(characters@);
    match find_by_name(characters, name) {
        None => None,
        Some(index) => {
            let character = characters.remove(index);
            proof {
                assert(before[index as int] == character@);
                assert(models(characters@) =~= before.remove(index as int));
            }
            Some(character)
        },
    }
}

/// Copies a list of characters, keeping their order.
pub fn copy_characters(characters: &Vec<Character>) -> (out: Vec<Character>)
    ensures
        models(out@) == models(characters@),
{
    let mut out: Vec<Character> = Vec::new();
    let mut i: usize = 0;
    while i < characters.len()
        invariant
            i <= characters.len(),
            models(out@) == models(characters@).take(i as int),
        decreases characters.len() - i,
    {
        let ghost prev = out@;
        let copy = characters[i].duplicate();
        out.push(copy);
        proof {
            assert(out@ == prev.push(copy));
            assert(models(characters@)[i as int] == characters@[i as int]@);
            assert(models(prev.push(copy)) =~= models(prev).push(copy@));
            assert(models(characters@).take(i + 1) =~= models(characters@).take(i as int).push(
                copy@,
            ));
        }
        i += 1;
    }
    assert(models(characters@).take(characters.len() as int) =~= models(characters@));
    out
}

/// The reply that sends one packet and nothing else.
pub fn reply_with(message: ServerMessage) -> (action: Action)
    ensures
        action@ == ActionModel::send(message@),
{
    let mut effects: Vec<Effect> = Vec::new();
    effects.push(Effect::Send(message));
    assert(effect_models(effects@) =~= seq![EffectModel::Send(message@)]);
    Action::Reply(effects)
}

/// Enters the lobby with the characters that were fetched for the account.
/// The list is not fetched again while the session lasts.
pub fn serve(account: Account, characters: Vec<Character>) -> (lobby: Lobby)
    ensures
        lobby@ == (LobbyModel { account: account@, characters: models(characters@) }),
{
    Lobby { account, characters }
}

/// Processes one incoming packet: decodes it and dispatches the message.
pub fn serve_impl(lobby: Lobby, packet: &Packet) -> (step: Step)
    ensures
        step@ == receive(lobby@, packet.code, packet.data@),
{
    match Client::from_packet(packet) {
        Ok(message) => lobby.dispatch(message),
        Err(error) => Step::Fatal { error: LobbyError::Decode(error) },
    }
}

impl Lobby {
    /// Decides what a decoded client message leads to.
    pub fn dispatch(self, message: Client) -> (step: Step)
        ensures
            step@ == dispatch(self@, message@),
    {
        let ghost before = self@;
        let mut lobby = self;
        match message {
            Client::CharacterListRequest => {
                let max_class = max_class_policy(&lobby.account);
                let characters = copy_characters(&lobby.characters);
                let notice = "Welcome to Mu Online in Rust!".to_owned();
                let list = ServerMessage::CharacterList { max_class, characters };
                let motd = ServerMessage::Notice(notice);
                let mut effects: Vec<Effect> = Vec::new();
                effects.push(Effect::Send(list));
                effects.push(Effect::Pause(LIST_DELAY_MS));
                effects.push(Effect::Send(motd));
                proof {
                    assert(effect_models(effects@) =~= seq![
                        EffectModel::Send(list@),
                        EffectModel::Pause(LIST_DELAY_MS),
                        EffectModel::Send(motd@),
                    ]);
                }
                Step::Continue { lobby, action: Action::Reply(effects) }
            },
            Client::CharacterCreate(request) => {
                let account_id: u64 = lobby.account.id;
                Step::Continue {
                    lobby,
                    action: Action::CreateCharacter {
                        name: request.name,
                        class: request.class,
                        account_id,
                    },
                }
            },
            Client::CharacterDelete(request) => {
                match find_by_name(&lobby.characters, &request.name) {
                    None => Step::Fatal { error: LobbyError::UnknownCharacterForDeletion },
                    Some(index) => {
                        if !bytes_equal(&request.security_code, &lobby.account.security_code) {
                            let action = reply_with(
                                ServerMessage::CharacterDeleteResult(
                                    CharacterDeleteResult::InvalidSecurityCode,
                                ),
                            );
                            Step::Continue { lobby, action }
                        } else {
                            let character = lobby.characters.remove(index);
                            proof {
                                assert(before.characters[index as int] == character@);
                                assert(models(lobby.characters@) =~= before.characters.remove(
                                    index as int,
                                ));
                            }
                            Step::Continue { lobby, action: Action::DeleteCharacter(character) }
                        }
                    },
                }
            },
            Client::CharacterJoinRequest(request) => {
                match remove_item_by(&mut lobby.characters, &request.name) {
                    None => Step::Fatal { error: LobbyError::UnknownCharacterForSelection },
                    Some(character) => {
                        let acknowledgement = ServerMessage::CharacterJoin(character.duplicate());
                        Step::Joined { character, acknowledgement }
                    },
                }
            },
            _ => Step::Fatal { error: LobbyError::UnexpectedPacket },
        }
    }

    /// Takes the character service's answer to a creation: a new character
    /// joins the end of the list, a refusal leaves the list as it is.
    pub fn created(self, answer: Result<Character, CharacterCreateError>) -> (step: Step)
        ensures
            step@ == after_create(
                self@,
                match answer {
                    Ok(character) => Ok(character@),
                    Err(error) => Err(error),
                },
            ),
    {
        let ghost before = self@;
        let mut lobby = self;
        match answer {
            Ok(character) => {
                let copy = character.duplicate();
                lobby.characters.push(character);
                proof {
                    assert(models(lobby.characters@) =~= before.characters.push(character@));
                }
                let action = reply_with(
                    ServerMessage::CharacterCreateResult(CharacterCreateResult::Success, Some(copy)),
                );
                Step::Continue { lobby, action }
            },
            Err(error) => {
                let result = map_character_create_error(error);
                let action = reply_with(ServerMessage::CharacterCreateResult(result, None));
                Step::Continue { lobby, action }
            },
        }
    }

    /// Takes the character service's answer to a deletion: a refusal puts
    /// the character back at the end of the list.
    pub fn deleted(self, answer: Result<(), (Character, CharacterDeleteError)>) -> (step: Step)
        ensures
            step@ == after_delete(
                self@,
                match answer {
                    Ok(_) => Ok(()),
                    Err((character, error)) => Err((character@, error)),
                },
            ),
    {
        let ghost before = self@;
        let mut lobby = self;
        match answer {
            Ok(_) => {
                let action = reply_with(
                    ServerMessage::CharacterDeleteResult(CharacterDeleteResult::Success),
                );
                Step::Continue { lobby, action }
            },
            Err((character, error)) => {
                let result = map_character_delete_error(error);
                lobby.characters.push(character);
                proof {
                    assert(models(lobby.characters@) =~= before.characters.push(character@));
                }
                let action = reply_with(ServerMessage::CharacterDeleteResult(result));
                Step::Continue { lobby, action }
            },
        }
    }
}

/// A deletion request whose security code is not the account's never takes
/// a character from the list and never asks the character service for
/// anything: for a listed name the lobby answers `InvalidSecurityCode` and
/// stays as it was.
pub proof fn lemma_wrong_code_keeps_character(
    lobby: LobbyModel,
    name: Seq<u8>,
    security_code: Seq<u8>,
)
    requires
        security_code != lobby.account.security_code,
    ensures
        !dispatch(lobby, ClientModel::CharacterDelete { name, security_code }).calls_service(),
        dispatch(lobby, ClientModel::CharacterDelete { name, security_code }) matches StepModel::Continue {
            lobby: after,
            ..
        } ==> after == lobby,
        has_name(lobby.characters, name) ==> dispatch(
            lobby,
            ClientModel::CharacterDelete { name, security_code },
        ) == (StepModel::Continue {
            lobby,
            action: ActionModel::send(
                ServerMessageModel::CharacterDeleteResult(
                    CharacterDeleteResult::InvalidSecurityCode,
                ),
            ),
        }),
{
}

/// A refused creation leaves the lobby, and so its list, exactly as it was,
/// and is reported to the client with the code of the refusal.
pub proof fn lemma_refused_create_keeps_list(lobby: LobbyModel, error: CharacterCreateError)
    ensures
        after_create(lobby, Err(error)) == (StepModel::Continue {
            lobby,
            action: ActionModel::send(
                ServerMessageModel::CharacterCreateResult(create_error_code(error), None),
            ),
        }),
        create_error_code(error) != CharacterCreateResult::Success,
        !after_create(lobby, Err(error)).calls_service(),
{
}

/// A join request for a name that is not in the list ends the session:
/// nothing is sent and the character service is not asked for anything.
pub proof fn lemma_join_unknown_name_is_fatal(lobby: LobbyModel, name: Seq<u8>)
    requires
        !has_name(lobby.characters, name),
    ensures
        dispatch(lobby, ClientModel::CharacterJoinRequest { name }) == (StepModel::Fatal {
            error: LobbyError::UnknownCharacterForSelection,
        }),
        !dispatch(lobby, ClientModel::CharacterJoinRequest { name }).sends_packet(),
        !dispatch(lobby, ClientModel::CharacterJoinRequest { name }).calls_service(),
{
}

/// A join request for a listed name hands out the first character of that
/// name and never keeps the session in the lobby.
pub proof fn lemma_join_known_name_leaves_lobby(lobby: LobbyModel, name: Seq<u8>)
    requires
        has_name(lobby.characters, name),
    ensures
        dispatch(lobby, ClientModel::CharacterJoinRequest { name }) matches StepModel::Joined {
            character,
            acknowledgement,
        } && character.name == name && acknowledgement == ServerMessageModel::CharacterJoin(
            character,
        ),
        dispatch(lobby, ClientModel::CharacterJoinRequest { name }).stage() == Some(Stage::Joined),
{
    let i = choose|i: int| 0 <= i < lobby.characters.len() && (#[trigger] lobby.characters[i]).name == name;
    lemma_first_named_exists(lobby.characters, name, i);
}

/// Below any place that holds a name there is a first place that holds it.
pub proof fn lemma_first_named_exists(characters: Seq<CharacterModel>, name: Seq<u8>, i: int)
    requires
        0 <= i < characters.len(),
        characters[i].name == name,
    ensures
        first_named(characters, name, position_of(characters, name)),
        position_of(characters, name) <= i,
    decreases i,
{
    if exists|j: int| 0 <= j < i && (#[trigger] characters[j]).name == name {
        let j = choose|j: int| 0 <= j < i && (#[trigger] characters[j]).name == name;
        lemma_first_named_exists(characters, name, j);
    } else {
        assert(first_named(characters, name, i));
        let k = position_of(characters, name);
        assert(first_named(characters, name, k));
    }
}

/// No event moves a session backwards: from the lobby it stays in the
/// lobby, moves on to `Joined`, or ends.
pub proof fn lemma_stage_moves_forward(
    lobby: LobbyModel,
    code: u8,
    data: Seq<u8>,
    created: Result<CharacterModel, CharacterCreateError>,
    deleted: Result<(), (CharacterModel, CharacterDeleteError)>,
)
    ensures
        receive(lobby, code, data).stage() matches Some(stage) ==> stage.rank()
            >= Stage::Lobby.rank(),
        after_create(lobby, created).stage() == Some(Stage::Lobby),
        after_delete(lobby, deleted).stage() == Some(Stage::Lobby),
{
}

/// A client message never breaks the uniqueness of names: a list without
/// repeated names has none after the message either.
pub proof fn lemma_dispatch_keeps_names_unique(lobby: LobbyModel, message: ClientModel)
    requires
        names_unique(lobby.characters),
    ensures
        dispatch(lobby, message) matches StepModel::Continue { lobby: after, .. } ==> names_unique(
            after.characters,
        ),
{
    if let ClientModel::CharacterDelete { name, security_code } = message {
        if has_name(lobby.characters, name) && security_code == lobby.account.security_code {
            let i = choose|i: int| 0 <= i < lobby.characters.len() && (#[trigger] lobby.characters[i]).name == name;
            lemma_first_named_exists(lobby.characters, name, i);
            let k = position_of(lobby.characters, name);
            let rest = lobby.characters.remove(k);
            assert forall|a: int, b: int| 0 <= a < b < rest.len() implies (#[trigger] rest[a]).name != (
            #[trigger] rest[b]).name by {
                let a0 = if a < k { a } else { a + 1 };
                let b0 = if b < k { b } else { b + 1 };
                assert(rest[a] == lobby.characters[a0]);
                assert(rest[b] == lobby.characters[b0]);
            }
        }
    }
}

/// A character whose name is new to the list keeps the names unique when
/// it joins the list, after a creation or after a refused deletion.
pub proof fn lemma_fresh_name_keeps_names_unique(
    lobby: LobbyModel,
    character: CharacterModel,
    error: CharacterDeleteError,
)
    requires
        names_unique(lobby.characters),
        !has_name(lobby.characters, character.name),
    ensures
        after_create(lobby, Ok(character)) matches StepModel::Continue { lobby: after, .. }
            && names_unique(after.characters) && after.characters == lobby.characters.push(character),
        after_delete(lobby, Err((character, error))) matches StepModel::Continue { lobby: after, .. }
            && names_unique(after.characters) && after.characters == lobby.characters.push(character),
{
    let grown = lobby.characters.push(character);
    assert forall|a: int, b: int| 0 <= a < b < grown.len() implies (#[trigger] grown[a]).name != (
    #[trigger] grown[b]).name by {
        assert(grown[a] == lobby.characters[a]);
        if b < lobby.characters.len() {
            assert(grown[b] == lobby.characters[b]);
        }
    }
}

} // verus!
