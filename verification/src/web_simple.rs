//! What the gateway answers to the messages of its clients, and the
//! directory of streams that it announces to them. Framing, sockets and
//! files are somebody else's business: here a message has been read already,
//! and a reply is still to be written.

use vstd::prelude::*;
use crate::string_map::{view_values, StringMap};
use crate::text::{decimal, decimal_string, signed_decimal, signed_decimal_string};
use crate::time::{current_time, Timestamp};

verus! {

/// The port on which the streamer's gateway listens.
pub const STREAMER_PORT: u16 = 8080;

/// The port on which the viewer's gateway listens.
pub const VIEWER_PORT: u16 = 8082;

/// How long the viewer's gateway waits for the streamer's list, in seconds.
pub const STREAMER_QUERY_TIMEOUT_SECONDS: u64 = 5;

/// The part that a node plays, told by the port of its gateway.
#[derive(Debug, Clone, Copy, PartialEq, Eq, Structural)]
pub enum NodeRole {
    Streamer,
    Viewer,
    Unknown,
}

/// The part played by the node whose gateway listens on `port`.
pub open spec fn role_of(port: u16) -> NodeRole {
    if port == STREAMER_PORT {
        NodeRole::Streamer
    } else if port == VIEWER_PORT {
        NodeRole::Viewer
    } else {
        NodeRole::Unknown
    }
}

/// How a role is named to clients.
pub open spec fn role_name(role: NodeRole) -> Seq<char> {
    match role {
        NodeRole::Streamer => "streamer"@,
        NodeRole::Viewer => "viewer"@,
        NodeRole::Unknown => "unknown"@,
    }
}

/// The id under which a node of a role presents itself.
pub open spec fn role_node_id(role: NodeRole) -> Seq<char> {
    match role {
        NodeRole::Streamer => "sutantra-streamer-node"@,
        NodeRole::Viewer => "sutantra-viewer-node"@,
        NodeRole::Unknown => "sutantra-node"@,
    }
}

/// The greeting that a node of a role sends with its handshake.
pub open spec fn greeting(role: NodeRole) -> Seq<char> {
    "Connected to Sutantra "@ + role_name(role) + " node"@
}

/// The name under which the node at `port` creates streams.
pub open spec fn creator_name(port: u16) -> Seq<char> {
    if port == STREAMER_PORT {
        "sutantra-streamer-node"@
    } else {
        "node-"@ + decimal(port as nat)
    }
}

/// The id of a client that connected at `now`.
pub open spec fn client_id_for(now: int) -> Seq<char> {
    "client_"@ + signed_decimal(now)
}

/// The id of a stream that was created at `now`.
pub open spec fn stream_id_for(now: int) -> Seq<char> {
    "stream_"@ + signed_decimal(now)
}

/// The part played by the node whose gateway listens on `port`.
pub fn node_role(port: u16) -> (role: NodeRole)
    ensures
        role == role_of(port),
{
    if port == STREAMER_PORT {
        NodeRole::Streamer
    } else if port == VIEWER_PORT {
        NodeRole::Viewer
    } else {
        NodeRole::Unknown
    }
}

/// How the node at `port` names its role to clients.
pub fn node_type_name(port: u16) -> (name: String)
    ensures
        name@ == role_name(role_of(port)),
{
    match node_role(port) {
        NodeRole::Streamer => String::from_str("streamer"),
        NodeRole::Viewer => String::from_str("viewer"),
        NodeRole::Unknown => String::from_str("unknown"),
    }
}

/// The id under which the node at `port` presents itself.
pub fn node_id_name(port: u16) -> (name: String)
    ensures
        name@ == role_node_id(role_of(port)),
{
    match node_role(port) {
        NodeRole::Streamer => String::from_str("sutantra-streamer-node"),
        NodeRole::Viewer => String::from_str("sutantra-viewer-node"),
        NodeRole::Unknown => String::from_str("sutantra-node"),
    }
}

/// The name under which the node at `port` creates streams.
pub fn stream_creator(port: u16) -> (name: String)
    ensures
        name@ == creator_name(port),
{
    if port == STREAMER_PORT {
        String::from_str("sutantra-streamer-node")
    } else {
        String::from_str("node-").concat(decimal_string(port as u64).as_str())
    }
}

/// The id of a client that connected at `now`.
pub fn client_id_at(now: Timestamp) -> (id: String)
    ensures
        id@ == client_id_for(now@),
{
    String::from_str("client_").concat(signed_decimal_string(now.millis).as_str())
}

/// The id of a client that connects at the instant the clock shows.
pub fn new_client_id() -> (id: String)
    ensures
        exists|now: int| id@ == client_id_for(now),
{
    let now = current_time();
    let id = client_id_at(now);
    id
}

/// What the gateway announces about a stream.
#[derive(Debug, Clone, PartialEq, Eq)]
pub struct StreamInfo {
    pub stream_id: String,
    pub title: String,
    pub creator: String,
    pub creator_port: u16,
    pub viewers: u32,
    pub quality: String,
    pub status: String,
    pub created_at: Timestamp,
}

/// The mathematical content of a [`StreamInfo`].
pub struct StreamInfoView {
    pub stream_id: Seq<char>,
    pub title: Seq<char>,
    pub creator: Seq<char>,
    pub creator_port: u16,
    pub viewers: u32,
    pub quality: Seq<char>,
    pub status: Seq<char>,
    pub created_at: int,
}

impl View for StreamInfo {
    type V = StreamInfoView;

    open spec fn view(&self) -> StreamInfoView {
        StreamInfoView {
            stream_id: self.stream_id@,
            title: self.title@,
            creator: self.creator@,
            creator_port: self.creator_port,
            viewers: self.viewers,
            quality: self.quality@,
            status: self.status@,
            created_at: self.created_at@,
        }
    }
}

impl StreamInfo {
    /// A copy of this entry.
    pub fn duplicate(&self) -> (copy: StreamInfo)
        ensures
            copy@ == self@,
    {
        StreamInfo {
            stream_id: self.stream_id.clone(),
            title: self.title.clone(),
            creator: self.creator.clone(),
            creator_port: self.creator_port,
            viewers: self.viewers,
            quality: self.quality.clone(),
            status: self.status.clone(),
            created_at: self.created_at,
        }
    }
}

/// The views of `entries`, in order.
pub open spec fn info_views(entries: Seq<StreamInfo>) -> Seq<StreamInfoView> {
    entries.map_values(|entry: StreamInfo| entry@)
}

/// The title of a stream whose creator gave none.
pub open spec fn default_title() -> Seq<char> {
    "Live Stream"@
}

/// The entry of a stream that the node at `port` creates at `now` under
/// `title`: named after the instant, active, without viewers.
pub open spec fn new_entry(title: Seq<char>, port: u16, now: int) -> StreamInfoView {
    StreamInfoView {
        stream_id: stream_id_for(now),
        title,
        creator: creator_name(port),
        creator_port: port,
        viewers: 0,
        quality: "720p"@,
        status: "active"@,
        created_at: now,
    }
}

/// The streams that a gateway announces, by id.
#[derive(Debug, Clone, PartialEq, Eq)]
pub struct StreamDirectory {
    pub streams: StringMap<StreamInfo>,
}

impl View for StreamDirectory {
    type V = Map<Seq<char>, StreamInfoView>;

    open spec fn view(&self) -> Map<Seq<char>, StreamInfoView> {
        view_values(self.streams@)
    }
}

impl StreamDirectory {
    /// The entries are a well-formed map.
    pub open spec fn wf(&self) -> bool {
        self.streams.wf()
    }

    /// The entries, in the order in which their ids were first entered.
    pub open spec fn entries(&self) -> Seq<StreamInfoView> {
        info_views(self.streams.value_seq())
    }

    /// The ids under which the entries are filed, in the order in which
    /// they were first entered.
    pub open spec fn ids(&self) -> Seq<Seq<char>> {
        self.streams.key_seq()
    }

    /// An empty directory.
    pub fn new() -> (directory: StreamDirectory)
        ensures
            directory.wf(),
            directory@ == Map::<Seq<char>, StreamInfoView>::empty(),
            directory.ids() == Seq::<Seq<char>>::empty(),
    {
        let directory = StreamDirectory { streams: StringMap::new() };
        directory
    }

    /// Enters a stream under its id. An entry of the same id is replaced.
    pub fn add_stream(&mut self, info: StreamInfo)
        requires
            old(self).wf(),
        ensures
            final(self).wf(),
            final(self)@ == old(self)@.insert(info.stream_id@, info@),
            final(self).ids() == if old(self)@.contains_key(info.stream_id@) {
                old(self).ids()
            } else {
                old(self).ids().push(info.stream_id@)
            },
    {
        let key = info.stream_id.clone();
        self.streams.insert(key, info);
    }

    /// Strikes the stream filed under `stream_id`, if there is one.
    pub fn remove_stream(&mut self, stream_id: &String)
        requires
            old(self).wf(),
        ensures
            final(self).wf(),
            final(self)@ == old(self)@.remove(stream_id@),
            final(self).ids() == if old(self)@.contains_key(stream_id@) {
                old(self).ids().remove(old(self).ids().index_of(stream_id@))
            } else {
                old(self).ids()
            },
    {
        self.streams.remove(stream_id);
    }

    /// Copies of the entries, in the order in which their ids were first
    /// entered.
    pub fn get_active_streams(&self) -> (entries: Vec<StreamInfo>)
        requires
            self.wf(),
        ensures
            info_views(entries@) == self.entries(),
    {
        let mut entries: Vec<StreamInfo> = Vec::new();
        let mut i: usize = 0;
        while i < self.streams.len()
            invariant
                self.wf(),
                i <= self.streams.key_seq().len(),
                entries@.len() == i,
                forall|j: int| 0 <= j < i ==> entries@[j]@ == self.streams.value_seq()[j]@,
            decreases self.streams.key_seq().len() - i,
        {
            entries.push(self.streams.value_at(i).duplicate());
            i += 1;
        }
        entries
    }
}

/// A message of a client, as far as the gateway's answer depends on it.
#[derive(Debug, Clone, PartialEq, Eq)]
pub enum GatewayRequest {
    Handshake,
    /// Create a stream, under this title if there is one.
    CreateStream { title: Option<String> },
    RequestStreamList,
    JoinStream { stream_id: Option<String> },
    LeaveStream,
    /// Stop the stream of this id.
    StopStream { stream_id: Option<String> },
    WebrtcOffer { stream_id: Option<String> },
    WebrtcAnswer { stream_id: Option<String> },
    IceCandidate { stream_id: Option<String> },
    /// A message of a type that the gateway does not know.
    Unknown,
}

/// What a plain acknowledgement acknowledges.
#[derive(Debug, Clone, Copy, PartialEq, Eq, Structural)]
pub enum Acknowledged {
    JoinStream,
    LeaveStream,
    StopStream,
    WebrtcOffer,
    WebrtcAnswer,
    IceCandidate,
}

/// The gateway's reply to a message, before it is written out.
#[derive(Debug, Clone, PartialEq, Eq)]
pub enum GatewayReply {
    /// The answer to a handshake.
    Handshake { client_id: String, node_type: String, node_id: String, web_port: u16, message: String },
    /// A stream was created.
    StreamCreated { stream_id: String, title: String, message: String },
    /// The list of streams, which the sender fills in.
    StreamList,
    /// A plain acknowledgement, or a refusal if `success` is false.
    Plain { of: Acknowledged, success: bool, stream_id: Option<String>, message: String },
}

/// What the gateway does about a message.
#[derive(Debug, Clone, PartialEq, Eq)]
pub struct GatewayOutcome {
    /// The reply to the client, if there is one.
    pub reply: Option<GatewayReply>,
    /// Whether the list of streams is to be sent to every client.
    pub broadcast_stream_list: bool,
    /// Whether the streamer's node is to be asked for its streams, which
    /// are then added to the list in the reply.
    pub ask_streamer_node: bool,
}

/// The id that a message names, or `unknown` if it names none.
pub open spec fn named_stream(stream_id: Option<String>) -> Seq<char> {
    match stream_id {
        Some(id) => id@,
        None => "unknown"@,
    }
}

/// Whether `reply` acknowledges `of` for the stream `stream_id` with the
/// text `message`.
pub open spec fn acknowledges(
    reply: Option<GatewayReply>,
    of: Acknowledged,
    stream_id: Option<Seq<char>>,
    message: Seq<char>,
) -> bool {
    &&& reply matches Some(GatewayReply::Plain { of: o, success, stream_id: s, message: m })
    &&& o == of
    &&& success
    &&& m@ == message
    &&& match stream_id {
        Some(id) => s matches Some(named) && named@ == id,
        None => s is None,
    }
}

/// Whether `after` and `outcome` are what the gateway at `port` makes of
/// `request`, sent by `client_id` and handled at `now`, when its directory
/// is `before`.
pub open spec fn answered(
    before: Map<Seq<char>, StreamInfoView>,
    request: GatewayRequest,
    client_id: Seq<char>,
    port: u16,
    now: int,
    after: Map<Seq<char>, StreamInfoView>,
    outcome: GatewayOutcome,
) -> bool {
    match request {
        GatewayRequest::Handshake => {
            &&& after == before
            &&& !outcome.broadcast_stream_list
            &&& !outcome.ask_streamer_node
            &&& outcome.reply matches Some(
                GatewayReply::Handshake { client_id: c, node_type, node_id, web_port, message },
            )
            &&& c@ == client_id
            &&& node_type@ == role_name(role_of(port))
            &&& node_id@ == role_node_id(role_of(port))
            &&& web_port == port
            &&& message@ == greeting(role_of(port))
        },
        GatewayRequest::CreateStream { title } => {
            let chosen = match title {
                Some(t) => t@,
                None => default_title(),
            };
            &&& after == before.insert(stream_id_for(now), new_entry(chosen, port, now))
            &&& outcome.broadcast_stream_list
            &&& !outcome.ask_streamer_node
            &&& outcome.reply matches Some(
                GatewayReply::StreamCreated { stream_id, title: t, message },
            )
            &&& stream_id@ == stream_id_for(now)
            &&& t@ == chosen
            &&& message@ == "Stream created successfully"@
        },
        GatewayRequest::RequestStreamList => {
            &&& after == before
            &&& !outcome.broadcast_stream_list
            &&& outcome.ask_streamer_node == (port == VIEWER_PORT)
            &&& outcome.reply == Some(GatewayReply::StreamList)
        },
        GatewayRequest::JoinStream { stream_id } => {
            &&& after == before
            &&& !outcome.broadcast_stream_list
            &&& !outcome.ask_streamer_node
            &&& acknowledges(
                outcome.reply,
                Acknowledged::JoinStream,
                Some(named_stream(stream_id)),
                "Successfully joined stream - WebRTC handshake initiated"@,
            )
        },
        GatewayRequest::LeaveStream => {
            &&& after == before
            &&& !outcome.broadcast_stream_list
            &&& !outcome.ask_streamer_node
            &&& acknowledges(
                outcome.reply,
                Acknowledged::LeaveStream,
                None,
                "Successfully left stream"@,
            )
        },
        GatewayRequest::StopStream { stream_id } => match stream_id {
            Some(id) => {
                &&& after == before.remove(id@)
                &&& outcome.broadcast_stream_list
                &&& !outcome.ask_streamer_node
                &&& acknowledges(
                    outcome.reply,
                    Acknowledged::StopStream,
                    Some(id@),
                    "Stream stopped successfully"@,
                )
            },
            None => {
                &&& after == before
                &&& !outcome.broadcast_stream_list
                &&& !outcome.ask_streamer_node
                &&& outcome.reply matches Some(
                    GatewayReply::Plain { of, success, stream_id: s, message },
                )
                &&& of == Acknowledged::StopStream
                &&& !success
                &&& s is None
                &&& message@ == "Missing stream_id"@
            },
        },
        GatewayRequest::WebrtcOffer { stream_id } => {
            &&& after == before
            &&& !outcome.broadcast_stream_list
            &&& !outcome.ask_streamer_node
            &&& acknowledges(
                outcome.reply,
                Acknowledged::WebrtcOffer,
                Some(named_stream(stream_id)),
                "Offer received"@,
            )
        },
        GatewayRequest::WebrtcAnswer { stream_id } => {
            &&& after == before
            &&& !outcome.broadcast_stream_list
            &&& !outcome.ask_streamer_node
            &&& acknowledges(
                outcome.reply,
                Acknowledged::WebrtcAnswer,
                Some(named_stream(stream_id)),
                "Answer received"@,
            )
        },
        GatewayRequest::IceCandidate { stream_id } => {
            &&& after == before
            &&& !outcome.broadcast_stream_list
            &&& !outcome.ask_streamer_node
            &&& acknowledges(
                outcome.reply,
                Acknowledged::IceCandidate,
                Some(named_stream(stream_id)),
                "ICE candidate received"@,
            )
        },
        GatewayRequest::Unknown => {
            &&& after == before
            &&& !outcome.broadcast_stream_list
            &&& !outcome.ask_streamer_node
            &&& outcome.reply is None
        },
    }
}

/// The stream id that a message names, or `unknown`.
fn named_or_unknown(stream_id: Option<String>) -> (name: String)
    ensures
        name@ == named_stream(stream_id),
{
    match stream_id {
        Some(id) => id,
        None => String::from_str("unknown"),
    }
}

/// The outcome that consists of one acknowledgement.
fn acknowledge(of: Acknowledged, stream_id: Option<String>, message: String) -> (outcome:
    GatewayOutcome)
    ensures
        outcome.reply == Some(GatewayReply::Plain { of, success: true, stream_id, message }),
        !outcome.broadcast_stream_list,
        !outcome.ask_streamer_node,
{
    GatewayOutcome {
        reply: Some(GatewayReply::Plain { of, success: true, stream_id, message }),
        broadcast_stream_list: false,
        ask_streamer_node: false,
    }
}

/// What the gateway at `port` makes of `request`, sent by `client_id`, at
/// the instant `now`: the reply, what else is to be done, and the change to
/// the directory.
pub fn handle_message_at(
    directory: &mut StreamDirectory,
    request: GatewayRequest,
    client_id: &String,
    port: u16,
    now: Timestamp,
) -> (outcome: GatewayOutcome)
    requires
        old(directory).wf(),
    ensures
        final(directory).wf(),
        answered(old(directory)@, request, client_id@, port, now@, final(directory)@, outcome),
{
    match request {
        GatewayRequest::Handshake => {
            let role = node_type_name(port);
            let message = String::from_str("Connected to Sutantra ").concat(role.as_str()).concat(
                " node",
            );
            GatewayOutcome {
                reply: Some(
                    GatewayReply::Handshake {
                        client_id: client_id.clone(),
                        node_type: role,
                        node_id: node_id_name(port),
                        web_port: port,
                        message,
                    },
                ),
                broadcast_stream_list: false,
                ask_streamer_node: false,
            }
        },
        GatewayRequest::CreateStream { title } => {
            let stream_id = String::from_str("stream_").concat(
                signed_decimal_string(now.millis).as_str(),
            );
            let title = match title {
                Some(t) => t,
                None => String::from_str("Live Stream"),
            };
            let info = StreamInfo {
                stream_id: stream_id.clone(),
                title: title.clone(),
                creator: stream_creator(port),
                creator_port: port,
                viewers: 0,
                quality: String::from_str("720p"),
                status: String::from_str("active"),
                created_at: now,
            };
            directory.add_stream(info);
            GatewayOutcome {
                reply: Some(
                    GatewayReply::StreamCreated {
                        stream_id,
                        title,
                        message: String::from_str("Stream created successfully"),
                    },
                ),
                broadcast_stream_list: true,
                ask_streamer_node: false,
            }
        },
        GatewayRequest::RequestStreamList => GatewayOutcome {
            reply: Some(GatewayReply::StreamList),
            broadcast_stream_list: false,
            ask_streamer_node: port == VIEWER_PORT,
        },
        GatewayRequest::JoinStream { stream_id } => acknowledge(
            Acknowledged::JoinStream,
            Some(named_or_unknown(stream_id)),
            String::from_str("Successfully joined stream - WebRTC handshake initiated"),
        ),
        GatewayRequest::LeaveStream => acknowledge(
            Acknowledged::LeaveStream,
            None,
            String::from_str("Successfully left stream"),
        ),
        GatewayRequest::StopStream { stream_id } => match stream_id {
            Some(id) => {
                directory.remove_stream(&id);
                GatewayOutcome {
                    reply: Some(
                        GatewayReply::Plain {
                            of: Acknowledged::StopStream,
                            success: true,
                            stream_id: Some(id),
                            message: String::from_str("Stream stopped successfully"),
                        },
                    ),
                    broadcast_stream_list: true,
                    ask_streamer_node: false,
                }
            },
            None => GatewayOutcome {
                reply: Some(
                    GatewayReply::Plain {
                        of: Acknowledged::StopStream,
                        success: false,
                        stream_id: None,
                        message: String::from_str("Missing stream_id"),
                    },
                ),
                broadcast_stream_list: false,
                ask_streamer_node: false,
            },
        },
        GatewayRequest::WebrtcOffer { stream_id } => acknowledge(
            Acknowledged::WebrtcOffer,
            Some(named_or_unknown(stream_id)),
            String::from_str("Offer received"),
        ),
        GatewayRequest::WebrtcAnswer { stream_id } => acknowledge(
            Acknowledged::WebrtcAnswer,
            Some(named_or_unknown(stream_id)),
            String::from_str("Answer received"),
        ),
        GatewayRequest::IceCandidate { stream_id } => acknowledge(
            Acknowledged::IceCandidate,
            Some(named_or_unknown(stream_id)),
            String::from_str("ICE candidate received"),
        ),
        GatewayRequest::Unknown => GatewayOutcome {
            reply: None,
            broadcast_stream_list: false,
            ask_streamer_node: false,
        },
    }
}

/// What the gateway at `port` makes of `request`, sent by `client_id`, at
/// the instant the clock shows.
pub fn handle_message(
    directory: &mut StreamDirectory,
    request: GatewayRequest,
    client_id: &String,
    port: u16,
) -> (outcome: GatewayOutcome)
    requires
        old(directory).wf(),
    ensures
        final(directory).wf(),
        exists|now: int|
            answered(old(directory)@, request, client_id@, port, now, final(directory)@, outcome),
{
    let now = current_time();
    let outcome = handle_message_at(directory, request, client_id, port, now);
    outcome
}

} // verus!
