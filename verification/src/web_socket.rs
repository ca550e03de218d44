use crate::json::{json_text, json_text_at, text_view};
use crate::song::{AcquisitionError, SongRequest};
use crate::song_queue::{Notice, QueueJob, QueueState};
use vstd::prelude::*;
use vstd::string::*;

verus! {

/// How long a client may stay silent before it is taken for gone, in
/// milliseconds.
pub const CLIENT_TIMEOUT: u64 = 10_000;

/// How often a client is pinged, in milliseconds.
pub const HEARTBEAT_INTERVAL: u64 = 5_000;

/// What every message to a client is wrapped in.
#[derive(Debug, PartialEq, Eq)]
pub struct UserMessage<T> {
    pub success: bool,
    pub action: String,
    pub value: T,
}

/// The value of a message that carries none.
#[derive(Clone, Copy, Debug, PartialEq, Eq, Structural)]
pub struct EmptyValue {}

/// What a client is told in answer to its own message.
#[derive(Clone, Copy, Debug, PartialEq, Eq, Structural)]
pub enum Reply {
    StartSongDownload,
    IncompleteData,
    UnknownAction,
}

/// The action under which `reply` goes out.
pub open spec fn reply_action(reply: Reply) -> Seq<char> {
    match reply {
        Reply::StartSongDownload => "start_song_download"@,
        Reply::IncompleteData => "incomplete_data"@,
        Reply::UnknownAction => "unknown_action"@,
    }
}

/// The action under which `notice` goes out.
pub open spec fn notice_action(notice: Notice) -> Seq<char> {
    match notice {
        Notice::NextSong { .. } => "next_song"@,
        Notice::SongDownloadFinished { .. } => "song_download_finished"@,
        Notice::NoSongsAvailable => "no_songs_available"@,
        Notice::DeleteSongFromQueue { .. } => "delete_song_from_queue"@,
    }
}

impl Reply {
    /// The message that carries this reply. Only an unknown action is
    /// reported as a failure.
    pub fn message(self) -> (m: UserMessage<EmptyValue>)
        ensures
            m.success == !(self is UnknownAction),
            m.action@ == reply_action(self),
    {
        let action = match self {
            Reply::StartSongDownload => "start_song_download",
            Reply::IncompleteData => "incomplete_data",
            Reply::UnknownAction => "unknown_action",
        };
        let success = match self {
            Reply::UnknownAction => false,
            _ => true,
        };
        UserMessage { success, action: String::from_str(action), value: EmptyValue {  } }
    }
}

/// The message that announces `notice` to the clients. Only the lack of
/// songs is reported as a failure.
pub fn notice_message(notice: Notice) -> (m: UserMessage<Notice>)
    ensures
        m.success == !(notice is NoSongsAvailable),
        m.action@ == notice_action(notice),
        m.value == notice,
{
    let action = match &notice {
        Notice::NextSong { .. } => "next_song",
        Notice::SongDownloadFinished { .. } => "song_download_finished",
        Notice::NoSongsAvailable => "no_songs_available",
        Notice::DeleteSongFromQueue { .. } => "delete_song_from_queue",
    };
    let success = match &notice {
        Notice::NoSongsAvailable => false,
        _ => true,
    };
    UserMessage { success, action: String::from_str(action), value: notice }
}

/// The message that shows the queue to a client that has just connected.
pub fn queue_state_message(state: QueueState) -> (m: UserMessage<QueueState>)
    ensures
        m.success,
        m.action@ == "queue_state"@,
        m.value == state,
{
    UserMessage { success: true, action: String::from_str("queue_state"), value: state }
}

/// What the requester is told when the acquisition of the song failed,
/// whatever the reason: the request could not be met. Nobody else is
/// told.
pub fn failure_reply(error: AcquisitionError) -> (reply: Reply)
    ensures
        reply == Reply::IncompleteData,
{
    Reply::IncompleteData
}

/// What a client's text asks for: a job for the queue, a reply to the
/// client, or both.
#[derive(Debug, PartialEq, Eq)]
pub struct Routed {
    pub job: Option<QueueJob>,
    pub reply: Option<Reply>,
}

/// The request made of these parts.
pub open spec fn is_request(
    r: SongRequest,
    name: Seq<char>,
    artists: Seq<char>,
    thumbnail_url: Option<Seq<char>>,
    requested_at: i64,
    requester: u64,
) -> bool {
    &&& r.name@ == name
    &&& r.artists@ == artists
    &&& r.requested_at == requested_at
    &&& r.requester == requester
    &&& match thumbnail_url {
        Some(url) => r.thumbnail_url is Some && r.thumbnail_url->0@ == url,
        None => r.thumbnail_url is None,
    }
}

/// Whether `r` is what a text with these parts asks for.
///
/// A request for a song needs a name and artists; it goes to the queue
/// with the moment `requested_at` and the channel `requester`, and the
/// client is told that the download starts. A skip goes to the queue without a reply. A deletion
/// needs an identifier. What lacks its parts is answered as incomplete,
/// any other action as unknown.
pub open spec fn routed(
    action: Seq<char>,
    name: Option<Seq<char>>,
    artists: Option<Seq<char>>,
    thumbnail_url: Option<Seq<char>>,
    uuid: Option<u128>,
    requested_at: i64,
    requester: u64,
    r: Routed,
) -> bool {
    if action == "request_song"@ {
        if name is Some && artists is Some {
            &&& r.reply == Some(Reply::StartSongDownload)
            &&& match r.job {
                Some(QueueJob::DownloadSong { requested_song }) => is_request(
                    requested_song,
                    name->0,
                    artists->0,
                    thumbnail_url,
                    requested_at,
                    requester,
                ),
                _ => false,
            }
        } else {
            r.job is None && r.reply == Some(Reply::IncompleteData)
        }
    } else if action == "skip_song"@ {
        r.job == Some(QueueJob::SkipSong) && r.reply is None
    } else if action == "delete_song_from_queue"@ {
        match uuid {
            Some(uuid) => r.job == Some(QueueJob::DeleteSongFromQueue { uuid }) && r.reply is None,
            None => r.job is None && r.reply == Some(Reply::IncompleteData),
        }
    } else {
        r.job is None && r.reply == Some(Reply::UnknownAction)
    }
}

fn text_is(s: &str, literal: &str) -> (r: bool)
    ensures
        r == (s@ == literal@),
{
    String::from_str(s) == String::from_str(literal)
}

/// Decides what a client's text asks for, from the parts read out of it,
/// the moment at which it was taken and the channel it came on.
pub fn route_text(
    action: &str,
    name: Option<String>,
    artists: Option<String>,
    thumbnail_url: Option<String>,
    uuid: Option<u128>,
    requested_at: i64,
    requester: u64,
) -> (r: Routed)
    ensures
        routed(
            action@,
            text_view(name),
            text_view(artists),
            text_view(thumbnail_url),
            uuid,
            requested_at,
            requester,
            r,
        ),
{
    if text_is(action, "request_song") {
        match (name, artists) {
            (Some(name), Some(artists)) => Routed {
                job: Some(
                    QueueJob::DownloadSong {
                        requested_song: SongRequest { artists, name, requested_at, thumbnail_url, requester },
                    },
                ),
                reply: Some(Reply::StartSongDownload),
            },
            _ => Routed { job: None, reply: Some(Reply::IncompleteData) },
        }
    } else if text_is(action, "skip_song") {
        Routed { job: Some(QueueJob::SkipSong), reply: None }
    } else if text_is(action, "delete_song_from_queue") {
        match uuid {
            Some(uuid) => Routed { job: Some(QueueJob::DeleteSongFromQueue { uuid }), reply: None },
            None => Routed { job: None, reply: Some(Reply::IncompleteData) },
        }
    } else {
        Routed { job: None, reply: Some(Reply::UnknownAction) }
    }
}

/// The identifier that `text` spells as a UUID, read as one number, first
/// byte highest, if it spells one.
pub uninterp spec fn uuid_of_text(text: Seq<char>) -> Option<u128>;

/// Reads `text` with `uuid::Uuid::parse_str`. The result is the sixteen
/// bytes of the UUID as one number, first byte highest; there is none
/// where the text spells no UUID. The contract only names that result.
#[verifier::external_body]
fn parse_uuid(text: &str) -> (r: Option<u128>)
    ensures
        r == uuid_of_text(text@),
{
    match uuid::Uuid::parse_str(text) {
        Ok(uuid) => Some(u128::from_be_bytes(*uuid.as_bytes())),
        Err(_) => None,
    }
}

/// The moment of the call from `chrono::Utc::now`, in microseconds since
/// the Unix epoch. Nothing is claimed of the number. `chrono::Utc::now`
/// gives up where the system's clock stands before that epoch.
#[verifier::external_body]
fn now_micros() -> (r: i64) {
    chrono::Utc::now().timestamp_micros()
}

/// A message that arrives on a client's connection.
#[derive(Debug, PartialEq, Eq)]
pub enum Message {
    Text(String),
    Binary(Vec<u8>),
    Ping(String),
    Pong(String),
    Close,
}

/// What a connection does in answer to a message or to the heartbeat, in
/// the order given.
#[derive(Debug, PartialEq, Eq)]
pub enum SocketEffect {
    /// Answer a ping with its text.
    Pong(String),
    /// Ping the client.
    Ping,
    /// Send the text to the client.
    Text(String),
    /// Send the bytes to the client.
    Binary(Vec<u8>),
    /// Send the reply to the client.
    Reply(Reply),
    /// Hand the job to the queue.
    Queue(QueueJob),
    /// Close the connection.
    Stop,
}

/// The identifier in a request to delete a pending song.
pub open spec fn payload_uuid(text: Seq<char>) -> Option<u128> {
    match json_text_at(text, "/payload/uuid"@) {
        Some(uuid) => uuid_of_text(uuid),
        None => None,
    }
}

/// What a text that asks for `r` leads to: the job goes to the queue,
/// then the reply to the client, and at last the text is sent back.
pub open spec fn text_effects(r: Routed, text: String) -> Seq<SocketEffect> {
    let job = match r.job {
        Some(job) => seq![SocketEffect::Queue(job)],
        None => Seq::empty(),
    };
    let reply = match r.reply {
        Some(reply) => seq![SocketEffect::Reply(reply)],
        None => Seq::empty(),
    };
    job + reply + seq![SocketEffect::Text(text)]
}

/// Whether `fx` is what the text `text`, taken at `requested_at` on the
/// channel `requester`, leads to. Its action is read at `/action`, the
/// parts of a request below `/payload`.
pub open spec fn text_handled(text: String, requested_at: i64, requester: u64, fx: Seq<SocketEffect>) -> bool {
    exists|r: Routed|
        {
            &&& #[trigger] routed(
                json_text_at(text@, "/action"@)->0,
                json_text_at(text@, "/payload/name"@),
                json_text_at(text@, "/payload/artists"@),
                json_text_at(text@, "/payload/thumbnail_url"@),
                payload_uuid(text@),
                requested_at,
                requester,
                r,
            )
            &&& fx == text_effects(r, text)
        }
}

/// One client's connection. `addr` is the channel on which the client is
/// reached, `hb` the moment at which the client was last heard of, in
/// milliseconds of a clock that never runs backwards.
#[derive(Debug)]
pub struct MyWebSocket {
    pub addr: u64,
    pub hb: u64,
}

impl MyWebSocket {
    /// The connection on the channel `addr`, heard of at `now`.
    pub fn new(addr: u64, now: u64) -> (ws: MyWebSocket)
        ensures
            ws.addr == addr,
            ws.hb == now,
    {
        MyWebSocket { addr, hb: now }
    }

    /// The heartbeat at `now`: a client that has been silent for longer
    /// than `CLIENT_TIMEOUT` is disconnected, any other is pinged.
    pub fn hb(&self, now: u64) -> (effect: SocketEffect)
        ensures
            effect == if now - self.hb > CLIENT_TIMEOUT {
                SocketEffect::Stop
            } else {
                SocketEffect::Ping
            },
    {
        if now > self.hb && now - self.hb > CLIENT_TIMEOUT {
            SocketEffect::Stop
        } else {
            SocketEffect::Ping
        }
    }

    /// What the text `text` of a client leads to; `None` where no action
    /// can be read out of it.
    pub fn handle_text(&self, text: String) -> (r: Option<Vec<SocketEffect>>)
        ensures
            r is None <==> json_text_at(text@, "/action"@) is None,
            r is Some ==> exists|requested_at: i64| #[trigger] text_handled(text, requested_at, self.addr, r->0@),
    {
        match json_text(text.as_str(), "/action") {
            None => None,
            Some(action) => {
                let name = json_text(text.as_str(), "/payload/name");
                let artists = json_text(text.as_str(), "/payload/artists");
                let thumbnail_url = json_text(text.as_str(), "/payload/thumbnail_url");
                let uuid = match json_text(text.as_str(), "/payload/uuid") {
                    Some(uuid) => parse_uuid(uuid.as_str()),
                    None => None,
                };
                let requested_at = now_micros();
                let decision = route_text(
                    action.as_str(),
                    name,
                    artists,
                    thumbnail_url,
                    uuid,
                    requested_at,
                    self.addr,
                );
                let ghost r = decision;
                let mut effects: Vec<SocketEffect> = Vec::new();
                let Routed { job, reply } = decision;
                if let Some(job) = job {
                    effects.push(SocketEffect::Queue(job));
                }
                if let Some(reply) = reply {
                    effects.push(SocketEffect::Reply(reply));
                }
                effects.push(SocketEffect::Text(text));
                proof {
                    assert(effects@ =~= text_effects(r, text));
                    assert(uuid == payload_uuid(text@));
                    assert(routed(
                        json_text_at(text@, "/action"@)->0,
                        json_text_at(text@, "/payload/name"@),
                        json_text_at(text@, "/payload/artists"@),
                        json_text_at(text@, "/payload/thumbnail_url"@),
                        payload_uuid(text@),
                        requested_at,
                        self.addr,
                        r,
                    ));
                    assert(text_handled(text, requested_at, self.addr, effects@));
                }
                let handled = Some(effects);
                proof {
                    assert(text_handled(text, requested_at, self.addr, handled->0@));
                }
                handled
            },
        }
    }

    /// Takes a message from the client at `now`. A ping or a pong shows
    /// that the client is there; a ping is answered. Bytes are sent back
    /// as they came. A close ends the connection. The result is `None`
    /// for a text out of which no action can be read.
    pub fn handle(&mut self, msg: Message, now: u64) -> (r: Option<Vec<SocketEffect>>)
        ensures
            final(self).addr == old(self).addr,
            match msg {
                Message::Ping(m) => final(self).hb == now && r is Some && r->0@ == seq![SocketEffect::Pong(m)],
                Message::Pong(_) => final(self).hb == now && r is Some && r->0@ == Seq::<SocketEffect>::empty(),
                Message::Binary(bin) => final(self).hb == old(self).hb && r is Some && r->0@ == seq![
                    SocketEffect::Binary(bin),
                ],
                Message::Close => final(self).hb == old(self).hb && r is Some && r->0@ == seq![SocketEffect::Stop],
                Message::Text(text) => {
                    &&& final(self).hb == old(self).hb
                    &&& r is None <==> json_text_at(text@, "/action"@) is None
                    &&& r is Some ==> exists|requested_at: i64| #[trigger]
                        text_handled(text, requested_at, old(self).addr, r->0@)
                },
            },
    {
        let mut effects: Vec<SocketEffect> = Vec::new();
        match msg {
            Message::Ping(m) => {
                self.hb = now;
                effects.push(SocketEffect::Pong(m));
                proof {
                    assert(effects@ =~= seq![SocketEffect::Pong(m)]);
                }
                Some(effects)
            },
            Message::Pong(_) => {
                self.hb = now;
                Some(effects)
            },
            Message::Text(text) => self.handle_text(text),
            Message::Close => {
                effects.push(SocketEffect::Stop);
                proof {
                    assert(effects@ =~= seq![SocketEffect::Stop]);
                }
                Some(effects)
            },
            Message::Binary(bin) => {
                effects.push(SocketEffect::Binary(bin));
                proof {
                    assert(effects@ =~= seq![SocketEffect::Binary(bin)]);
                }
                Some(effects)
            },
        }
    }
}

} // verus!
