//! Outbound intents and their frames.

use crate::json::{
    member_from, field_integer, field_of, field_text, integer_of, lemma_object_view, nested_number, number_of,
    parse_json, parsed_json, render_json, rendered_json, text_eq, text_of, Json, JsonView, Member,
    Number, NumberView,
};
use vstd::prelude::*;

verus! {

/// An action that the client asks the server to apply. Coordinates are JSON
/// numbers; the values are copies taken when the intent is made.
#[derive(Debug, PartialEq, Eq)]
pub enum OutboundIntent {
    Move { x: Number, y: Number },
    Shoot { dx: Number, dy: Number },
    Ping { client_ts: i64 },
    InfoRequest,
    GameStateRequest,
    JoinGame { game_id: String, team: String },
}

pub enum IntentView {
    Move { x: NumberView, y: NumberView },
    Shoot { dx: NumberView, dy: NumberView },
    Ping { client_ts: i64 },
    InfoRequest,
    GameStateRequest,
    JoinGame { game_id: Seq<char>, team: Seq<char> },
}

impl View for OutboundIntent {
    type V = IntentView;

    open spec fn view(&self) -> IntentView {
        match self {
            OutboundIntent::Move { x, y } => IntentView::Move { x: x@, y: y@ },
            OutboundIntent::Shoot { dx, dy } => IntentView::Shoot { dx: dx@, dy: dy@ },
            OutboundIntent::Ping { client_ts } => IntentView::Ping { client_ts: *client_ts },
            OutboundIntent::InfoRequest => IntentView::InfoRequest,
            OutboundIntent::GameStateRequest => IntentView::GameStateRequest,
            OutboundIntent::JoinGame { game_id, team } => IntentView::JoinGame {
                game_id: game_id@,
                team: team@,
            },
        }
    }
}

impl Clone for OutboundIntent {
    fn clone(&self) -> (copy: Self)
        ensures
            copy@ == self@,
    {
        match self {
            OutboundIntent::Move { x, y } => OutboundIntent::Move { x: x.clone(), y: y.clone() },
            OutboundIntent::Shoot { dx, dy } => OutboundIntent::Shoot {
                dx: dx.clone(),
                dy: dy.clone(),
            },
            OutboundIntent::Ping { client_ts } => OutboundIntent::Ping { client_ts: *client_ts },
            OutboundIntent::InfoRequest => OutboundIntent::InfoRequest,
            OutboundIntent::GameStateRequest => OutboundIntent::GameStateRequest,
            OutboundIntent::JoinGame { game_id, team } => OutboundIntent::JoinGame {
                game_id: game_id.clone(),
                team: team.clone(),
            },
        }
    }
}

/// An intent as the server reads it off a frame, with the player identity
/// where the frame carries one.
#[derive(Debug, PartialEq, Eq)]
pub struct ClientMessage {
    pub intent: OutboundIntent,
    pub player_id: Option<String>,
}

pub struct ClientMessageView {
    pub intent: IntentView,
    pub player_id: Option<Seq<char>>,
}

impl View for ClientMessage {
    type V = ClientMessageView;

    open spec fn view(&self) -> ClientMessageView {
        ClientMessageView {
            intent: self.intent@,
            player_id: match self.player_id {
                Some(id) => Some(id@),
                None => None,
            },
        }
    }
}

/// An object with the two members `x` and `y`.
pub open spec fn pair_document(x: NumberView, y: NumberView) -> JsonView {
    JsonView::Object(seq![("x"@, JsonView::Number(x)), ("y"@, JsonView::Number(y))])
}

/// The document that an intent is sent as: an object whose first member is
/// the discriminator `type`, followed by the fields of that type.
pub open spec fn intent_document(intent: IntentView, player_id: Seq<char>) -> JsonView {
    match intent {
        IntentView::Move { x, y } => JsonView::Object(
            seq![("type"@, JsonView::Text("player_move"@)), ("position"@, pair_document(x, y))],
        ),
        IntentView::Shoot { dx, dy } => JsonView::Object(
            seq![("type"@, JsonView::Text("player_shoot"@)), ("direction"@, pair_document(dx, dy))],
        ),
        IntentView::Ping { client_ts } => JsonView::Object(
            seq![
                ("type"@, JsonView::Text("ping"@)),
                ("timestamp"@, JsonView::Number(NumberView::Int(client_ts))),
            ],
        ),
        IntentView::InfoRequest => JsonView::Object(
            seq![
                ("type"@, JsonView::Text("get_player_info"@)),
                ("player_id"@, JsonView::Text(player_id)),
            ],
        ),
        IntentView::GameStateRequest => JsonView::Object(
            seq![("type"@, JsonView::Text("get_game_state"@))],
        ),
        IntentView::JoinGame { game_id, team } => JsonView::Object(
            seq![
                ("type"@, JsonView::Text("join_game"@)),
                ("game_id"@, JsonView::Text(game_id)),
                ("player_id"@, JsonView::Text(player_id)),
                ("team"@, JsonView::Text(team)),
            ],
        ),
    }
}

/// Whether an intent's frame carries the player identity.
pub open spec fn carries_identity(intent: IntentView) -> bool {
    intent is InfoRequest || intent is JoinGame
}

/// The intent that a document stands for on the server's side of the
/// schema; `None` where its type is none that a client sends or a field of
/// the type is missing.
pub open spec fn intent_of(doc: JsonView) -> Option<ClientMessageView> {
    match text_of(doc.field("type"@)) {
        None => None,
        Some(kind) => if kind == "player_move"@ {
            match (
                number_of(field_of(doc.field("position"@), "x"@)),
                number_of(field_of(doc.field("position"@), "y"@)),
            ) {
                (Some(x), Some(y)) => Some(
                    ClientMessageView { intent: IntentView::Move { x, y }, player_id: None },
                ),
                _ => None,
            }
        } else if kind == "player_shoot"@ {
            match (
                number_of(field_of(doc.field("direction"@), "x"@)),
                number_of(field_of(doc.field("direction"@), "y"@)),
            ) {
                (Some(dx), Some(dy)) => Some(
                    ClientMessageView { intent: IntentView::Shoot { dx, dy }, player_id: None },
                ),
                _ => None,
            }
        } else if kind == "ping"@ {
            match integer_of(doc.field("timestamp"@)) {
                Some(client_ts) => Some(
                    ClientMessageView { intent: IntentView::Ping { client_ts }, player_id: None },
                ),
                None => None,
            }
        } else if kind == "get_player_info"@ {
            match text_of(doc.field("player_id"@)) {
                Some(id) => Some(
                    ClientMessageView { intent: IntentView::InfoRequest, player_id: Some(id) },
                ),
                None => None,
            }
        } else if kind == "get_game_state"@ {
            Some(ClientMessageView { intent: IntentView::GameStateRequest, player_id: None })
        } else if kind == "join_game"@ {
            match (
                text_of(doc.field("game_id"@)),
                text_of(doc.field("player_id"@)),
                text_of(doc.field("team"@)),
            ) {
                (Some(game_id), Some(id), Some(team)) => Some(
                    ClientMessageView {
                        intent: IntentView::JoinGame { game_id, team },
                        player_id: Some(id),
                    },
                ),
                _ => None,
            }
        } else {
            None
        },
    }
}

fn text_member(key: &str, value: &str) -> (m: Member)
    ensures
        m.key@ == key@,
        m.value@ == JsonView::Text(value@),
{
    Member { key: String::from_str(key), value: Json::Text(String::from_str(value)) }
}

fn number_member(key: &str, value: &Number) -> (m: Member)
    ensures
        m.key@ == key@,
        m.value@ == JsonView::Number(value@),
{
    Member { key: String::from_str(key), value: Json::Number(value.clone()) }
}

fn pair_member(key: &str, x: &Number, y: &Number) -> (m: Member)
    ensures
        m.key@ == key@,
        m.value@ == pair_document(x@, y@),
{
    let mut members: Vec<Member> = Vec::new();
    members.push(number_member("x", x));
    members.push(number_member("y", y));
    proof {
        lemma_object_view(members);
        assert(Json::Object(members)@->Object_0 =~= pair_document(x@, y@)->Object_0);
    }
    Member { key: String::from_str(key), value: Json::Object(members) }
}

/// Builds the document that an intent is sent as.
pub fn intent_json(intent: &OutboundIntent, player_id: &str) -> (doc: Json)
    ensures
        doc@ == intent_document(intent@, player_id@),
{
    let mut members: Vec<Member> = Vec::new();
    match intent {
        OutboundIntent::Move { x, y } => {
            members.push(text_member("type", "player_move"));
            members.push(pair_member("position", x, y));
        },
        OutboundIntent::Shoot { dx, dy } => {
            members.push(text_member("type", "player_shoot"));
            members.push(pair_member("direction", dx, dy));
        },
        OutboundIntent::Ping { client_ts } => {
            members.push(text_member("type", "ping"));
            members.push(number_member("timestamp", &Number::Int(*client_ts)));
        },
        OutboundIntent::InfoRequest => {
            members.push(text_member("type", "get_player_info"));
            members.push(text_member("player_id", player_id));
        },
        OutboundIntent::GameStateRequest => {
            members.push(text_member("type", "get_game_state"));
        },
        OutboundIntent::JoinGame { game_id, team } => {
            members.push(text_member("type", "join_game"));
            members.push(text_member("game_id", game_id.as_str()));
            members.push(text_member("player_id", player_id));
            members.push(text_member("team", team.as_str()));
        },
    }
    proof {
        lemma_object_view(members);
        assert(Json::Object(members)@->Object_0 =~= intent_document(
            intent@,
            player_id@,
        )->Object_0);
    }
    Json::Object(members)
}

/// Encodes an intent as one text frame: the text that `serde_json` writes
/// for the intent's document.
pub fn encode(intent: &OutboundIntent, player_id: &str) -> (frame: String)
    ensures
        frame@ == rendered_json(intent_document(intent@, player_id@)),
{
    let doc = intent_json(intent, player_id);
    render_json(&doc)
}

/// The view of an optional message.
pub open spec fn message_view(message: Option<ClientMessage>) -> Option<ClientMessageView> {
    match message {
        Some(m) => Some(m@),
        None => None,
    }
}

/// What the server reads off a frame, given what the frame reads as.
pub open spec fn intent_read(doc: Option<JsonView>) -> Option<ClientMessageView> {
    match doc {
        Some(d) => intent_of(d),
        None => None,
    }
}

/// Reads an intent off a document, as the server's side of the schema does.
pub fn decode_intent_document(doc: &Json) -> (message: Option<ClientMessage>)
    ensures
        message_view(message) == intent_of(doc@),
{
    let kind = match field_text(doc, "type") {
        Some(k) => k,
        None => {
            return None;
        },
    };
    if text_eq(kind, "player_move") {
        match (nested_number(doc, "position", "x"), nested_number(doc, "position", "y")) {
            (Some(x), Some(y)) => Some(
                ClientMessage { intent: OutboundIntent::Move { x, y }, player_id: None },
            ),
            _ => None,
        }
    } else if text_eq(kind, "player_shoot") {
        match (nested_number(doc, "direction", "x"), nested_number(doc, "direction", "y")) {
            (Some(dx), Some(dy)) => Some(
                ClientMessage { intent: OutboundIntent::Shoot { dx, dy }, player_id: None },
            ),
            _ => None,
        }
    } else if text_eq(kind, "ping") {
        match field_integer(doc, "timestamp") {
            Some(client_ts) => Some(
                ClientMessage { intent: OutboundIntent::Ping { client_ts }, player_id: None },
            ),
            None => None,
        }
    } else if text_eq(kind, "get_player_info") {
        match field_text(doc, "player_id") {
            Some(id) => Some(
                ClientMessage {
                    intent: OutboundIntent::InfoRequest,
                    player_id: Some(String::from_str(id)),
                },
            ),
            None => None,
        }
    } else if text_eq(kind, "get_game_state") {
        Some(ClientMessage { intent: OutboundIntent::GameStateRequest, player_id: None })
    } else if text_eq(kind, "join_game") {
        match (field_text(doc, "game_id"), field_text(doc, "player_id"), field_text(doc, "team")) {
            (Some(game_id), Some(id), Some(team)) => Some(
                ClientMessage {
                    intent: OutboundIntent::JoinGame {
                        game_id: String::from_str(game_id),
                        team: String::from_str(team),
                    },
                    player_id: Some(String::from_str(id)),
                },
            ),
            _ => None,
        }
    } else {
        None
    }
}

/// Reads an intent off a text frame, as the server's side of the schema
/// does: `None` for a frame that is no JSON or no intent.
pub fn decode_intent(frame: &str) -> (message: Option<ClientMessage>)
    ensures
        message_view(message) == intent_read(parsed_json(frame@)),
{
    match parse_json(frame) {
        Some(doc) => decode_intent_document(&doc),
        None => None,
    }
}

/// The first member with a given name is the one that a lookup finds.
pub proof fn lemma_member_found(members: Seq<(Seq<char>, JsonView)>, key: Seq<char>, from: int, at: int)
    requires
        0 <= from <= at < members.len(),
        members[at].0 == key,
        forall|j: int| from <= j < at ==> (#[trigger] members[j]).0 != key,
    ensures
        member_from(members, key, from) == Some(members[at].1),
    decreases at - from,
{
    if from < at {
        lemma_member_found(members, key, from + 1, at);
    }
}

proof fn lemma_pair_round_trip(x: NumberView, y: NumberView)
    ensures
        number_of(pair_document(x, y).field("x"@)) == Some(x),
        number_of(pair_document(x, y).field("y"@)) == Some(y),
{
    reveal_strlit("x");
    reveal_strlit("y");
    assert("x"@[0] != "y"@[0]);
    let pair = pair_document(x, y)->Object_0;
    lemma_member_found(pair, "x"@, 0, 0);
    lemma_member_found(pair, "y"@, 0, 1);
}

proof fn lemma_kinds_differ()
    ensures
        "player_move"@.len() == 11,
        "player_shoot"@.len() == 12,
        "ping"@.len() == 4,
        "get_player_info"@.len() == 15,
        "get_game_state"@.len() == 14,
        "join_game"@.len() == 9,
{
    reveal_strlit("player_move");
    reveal_strlit("player_shoot");
    reveal_strlit("ping");
    reveal_strlit("get_player_info");
    reveal_strlit("get_game_state");
    reveal_strlit("join_game");
}

proof fn lemma_names_differ()
    ensures
        "type"@ != "team"@,
        "type"@.len() == 4,
        "team"@.len() == 4,
        "position"@.len() == 8,
        "direction"@.len() == 9,
        "timestamp"@.len() == 9,
        "player_id"@.len() == 9,
        "game_id"@.len() == 7,
{
    reveal_strlit("type");
    reveal_strlit("team");
    reveal_strlit("position");
    reveal_strlit("direction");
    reveal_strlit("timestamp");
    reveal_strlit("player_id");
    reveal_strlit("game_id");
    assert("type"@[1] != "team"@[1]);
}

/// Round trip of the codec on documents: reading the document of an intent
/// on the server's side of the schema gives the intent back, together with
/// the player identity where the frame of that type carries it.
pub proof fn lemma_intent_round_trip(intent: IntentView, player_id: Seq<char>)
    ensures
        intent_of(intent_document(intent, player_id)) == Some(
            ClientMessageView {
                intent,
                player_id: if carries_identity(intent) {
                    Some(player_id)
                } else {
                    None
                },
            },
        ),
{
    lemma_kinds_differ();
    lemma_names_differ();
    let doc = intent_document(intent, player_id);
    let members = doc->Object_0;
    lemma_member_found(members, "type"@, 0, 0);
    match intent {
        IntentView::Move { x, y } => {
            lemma_pair_round_trip(x, y);
            lemma_member_found(members, "position"@, 0, 1);
        },
        IntentView::Shoot { dx, dy } => {
            lemma_pair_round_trip(dx, dy);
            lemma_member_found(members, "direction"@, 0, 1);
        },
        IntentView::Ping { client_ts } => {
            lemma_member_found(members, "timestamp"@, 0, 1);
        },
        IntentView::InfoRequest => {
            lemma_member_found(members, "player_id"@, 0, 1);
        },
        IntentView::GameStateRequest => {},
        IntentView::JoinGame { game_id, team } => {
            lemma_member_found(members, "game_id"@, 0, 1);
            lemma_member_found(members, "player_id"@, 0, 2);
            lemma_member_found(members, "team"@, 0, 3);
        },
    }
}

} // verus!
