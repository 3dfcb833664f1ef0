//! Dispatch of room traffic.
//!
//! `RoomState` owns the name directory and the matchmaking slot. Incoming
//! payloads go through `handle_payload`: decode, then route the body to its
//! handler. Typed lines go through `handle_line`: parse the command and
//! decide what to broadcast. Both return plain outcomes — notices to print,
//! bytes to send, a session to spawn — and never perform I/O themselves;
//! the surrounding loops do the sending and printing.

use vstd::prelude::*;
use vstd::slice::slice_to_vec;
use crate::codec::{MessageBody, BodyView, CodecError, decode_spec, encode};
use crate::commands::{LineAction, LineActionView, parse_line, parse_line_spec};
use crate::directory::{NameDirectory, display_spec};
use crate::identity::PeerId;
use crate::matchmaking::{MatchSlot, MinDecision};
use crate::text::{trim_trailing, trim_trailing_spec};

verus! {

/// A line of local output the caller should print.
pub enum Notice {
    /// A peer renamed itself: its previous display name and the new one.
    Renamed { old_name: Vec<u8>, new_name: Vec<u8> },
    /// A line of chat, attributed to a display name.
    ChatLine { name: Vec<u8>, text: Vec<u8> },
    /// A peer entered the matchmaking queue.
    QueueJoined { name: Vec<u8> },
    /// A game started between an accepter and the original requester.
    GameStarted { accepter_name: Vec<u8>, requester_name: Vec<u8> },
    /// This node changed its own nickname.
    NickChanged { new_name: Vec<u8> },
    /// This node accepted a waiting challenger and starts a game.
    AcceptingGame,
    /// This node queued itself for a game.
    JoinedQueue,
    /// The typed line was an unrecognized command; nothing was broadcast.
    UnknownCommand { line: Vec<u8> },
}

/// The mathematical value of a notice.
pub enum NoticeView {
    Renamed { old_name: Seq<u8>, new_name: Seq<u8> },
    ChatLine { name: Seq<u8>, text: Seq<u8> },
    QueueJoined { name: Seq<u8> },
    GameStarted { accepter_name: Seq<u8>, requester_name: Seq<u8> },
    NickChanged { new_name: Seq<u8> },
    AcceptingGame,
    JoinedQueue,
    UnknownCommand { line: Seq<u8> },
}

impl View for Notice {
    type V = NoticeView;

    open spec fn view(&self) -> NoticeView {
        match self {
            Notice::Renamed { old_name, new_name } => NoticeView::Renamed {
                old_name: old_name@,
                new_name: new_name@,
            },
            Notice::ChatLine { name, text } => NoticeView::ChatLine { name: name@, text: text@ },
            Notice::QueueJoined { name } => NoticeView::QueueJoined { name: name@ },
            Notice::GameStarted { accepter_name, requester_name } => NoticeView::GameStarted {
                accepter_name: accepter_name@,
                requester_name: requester_name@,
            },
            Notice::NickChanged { new_name } => NoticeView::NickChanged { new_name: new_name@ },
            Notice::AcceptingGame => NoticeView::AcceptingGame,
            Notice::JoinedQueue => NoticeView::JoinedQueue,
            Notice::UnknownCommand { line } => NoticeView::UnknownCommand { line: line@ },
        }
    }
}

/// A game session the caller should spawn.
pub struct SessionStart {
    /// The numeric session id; the session topic derives from it.
    pub game_id: u64,
    /// The one peer to bootstrap from, or none when this node anchors the
    /// session itself.
    pub bootstrap: Option<PeerId>,
}

/// The mathematical value of a session start.
pub struct StartView {
    pub game_id: u64,
    pub bootstrap: Option<Seq<u8>>,
}

impl View for SessionStart {
    type V = StartView;

    open spec fn view(&self) -> StartView {
        StartView {
            game_id: self.game_id,
            bootstrap: match self.bootstrap {
                Some(p) => Some(p@),
                None => None,
            },
        }
    }
}

/// What handling one incoming payload produced.
pub struct DispatchOutcome {
    /// Lines to print, in order.
    pub notices: Vec<Notice>,
    /// A session to spawn, when this node's invite was just accepted.
    pub start: Option<SessionStart>,
}

impl DispatchOutcome {
    /// The notices as mathematical values.
    pub open spec fn notices_view(&self) -> Seq<NoticeView> {
        self.notices@.map_values(|n: Notice| n@)
    }

    /// The session start as a mathematical value.
    pub open spec fn start_view(&self) -> Option<StartView> {
        match self.start {
            Some(s) => Some(s@),
            None => None,
        }
    }
}

/// The new directory after one body, keyed by views.
pub open spec fn names_after(
    names: Map<Seq<u8>, Seq<u8>>,
    b: BodyView,
) -> Map<Seq<u8>, Seq<u8>> {
    match b {
        BodyView::AboutMe { from, name } => names.insert(from, name),
        _ => names,
    }
}

/// The new slot after one body: a request seats its sender, a start clears
/// the slot unconditionally, everything else leaves it alone.
pub open spec fn slot_after_body(s: Option<Seq<u8>>, b: BodyView) -> Option<Seq<u8>> {
    match b {
        BodyView::GameRequest { from } => Some(from),
        BodyView::GameStart { .. } => None,
        _ => s,
    }
}

/// The notices one body produces, given the directory it was received under.
pub open spec fn notices_of_body(names: Map<Seq<u8>, Seq<u8>>, b: BodyView) -> Seq<NoticeView> {
    match b {
        BodyView::AboutMe { from, name } => seq![
            NoticeView::Renamed { old_name: display_spec(names, from), new_name: name },
        ],
        BodyView::Chat { from, text } => seq![
            NoticeView::ChatLine {
                name: display_spec(names, from),
                text: trim_trailing_spec(text),
            },
        ],
        BodyView::GameRequest { from } => seq![
            NoticeView::QueueJoined { name: display_spec(names, from) },
        ],
        BodyView::GameStart { from, orig_sender, .. } => seq![
            NoticeView::GameStarted {
                accepter_name: display_spec(names, from),
                requester_name: display_spec(names, orig_sender),
            },
        ],
        BodyView::GameAborted => Seq::empty(),
    }
}

/// The session one body spawns: a start whose original requester is this
/// node means our invite was accepted, and we join the accepter's session.
pub open spec fn start_of_body(our_id: Seq<u8>, b: BodyView) -> Option<StartView> {
    match b {
        BodyView::GameStart { from, orig_sender, game_id } => if orig_sender == our_id {
            Some(StartView { game_id, bootstrap: Some(from) })
        } else {
            None
        },
        _ => None,
    }
}

/// What handling one typed line produced.
pub struct LineOutcome {
    /// An encoded envelope to broadcast, if the line calls for one. The send
    /// happens outside the slot's critical section.
    pub broadcast: Option<Vec<u8>>,
    /// Lines to print, in order.
    pub notices: Vec<Notice>,
    /// Whether the user asked to leave the room.
    pub quit: bool,
    /// A session to spawn, when a waiting challenger was just accepted.
    pub start: Option<SessionStart>,
}

impl LineOutcome {
    /// The notices as mathematical values.
    pub open spec fn notices_view(&self) -> Seq<NoticeView> {
        self.notices@.map_values(|n: Notice| n@)
    }

    /// The session start as a mathematical value.
    pub open spec fn start_view(&self) -> Option<StartView> {
        match self.start {
            Some(s) => Some(s@),
            None => None,
        }
    }
}

/// The body a typed line broadcasts, or none for `/quit` and unknown
/// commands. Accepting a waiting challenger broadcasts the start naming
/// them; queueing broadcasts a request.
pub open spec fn line_broadcast(
    our: Seq<u8>,
    slot: Option<Seq<u8>>,
    line: Seq<u8>,
    game_id: u64,
) -> Option<BodyView> {
    match parse_line_spec(line) {
        LineActionView::Chat => Some(BodyView::Chat { from: our, text: line }),
        LineActionView::Nick { name } => Some(BodyView::AboutMe { from: our, name }),
        LineActionView::Quit => None,
        LineActionView::Min => match slot {
            Some(other) => Some(
                BodyView::GameStart { from: our, orig_sender: other, game_id },
            ),
            None => Some(BodyView::GameRequest { from: our }),
        },
        LineActionView::Unknown => None,
    }
}

/// The slot after a typed line: `/min` either empties it by accepting or
/// seats this node; everything else leaves it alone.
pub open spec fn slot_after_line(
    our: Seq<u8>,
    slot: Option<Seq<u8>>,
    line: Seq<u8>,
) -> Option<Seq<u8>> {
    match parse_line_spec(line) {
        LineActionView::Min => match slot {
            Some(_) => None,
            None => Some(our),
        },
        _ => slot,
    }
}

/// The notices a typed line produces.
pub open spec fn notices_of_line(slot: Option<Seq<u8>>, line: Seq<u8>) -> Seq<NoticeView> {
    match parse_line_spec(line) {
        LineActionView::Chat => Seq::empty(),
        LineActionView::Nick { name } => seq![NoticeView::NickChanged { new_name: name }],
        LineActionView::Quit => Seq::empty(),
        LineActionView::Min => match slot {
            Some(_) => seq![NoticeView::AcceptingGame],
            None => seq![NoticeView::JoinedQueue],
        },
        LineActionView::Unknown => seq![
            NoticeView::UnknownCommand { line: trim_trailing_spec(line) },
        ],
    }
}

/// The session a typed line spawns: only an accepting `/min`, and this node
/// anchors the session itself (empty bootstrap).
pub open spec fn start_of_line(slot: Option<Seq<u8>>, line: Seq<u8>, game_id: u64) -> Option<
    StartView,
> {
    match parse_line_spec(line) {
        LineActionView::Min => match slot {
            Some(_) => Some(StartView { game_id, bootstrap: None }),
            None => None,
        },
        _ => None,
    }
}

/// The state one room session keeps: who is called what, who waits for a
/// game, and this node's own identity.
pub struct RoomState {
    /// Display names, fed by `AboutMe` messages.
    pub names: NameDirectory,
    /// The single-challenger matchmaking slot.
    pub slot: MatchSlot,
    /// This node's identity.
    pub our_id: PeerId,
}

impl RoomState {
    /// The state's internal invariant.
    pub open spec fn wf(&self) -> bool {
        self.names.wf()
    }

    /// A fresh room state for this node.
    pub fn new(our_id: PeerId) -> (r: RoomState)
        ensures
            r.wf(),
            r.names@ == Map::<Seq<u8>, Seq<u8>>::empty(),
            r.slot@ is None,
            r.our_id@ == our_id@,
    {
        RoomState { names: NameDirectory::new(), slot: MatchSlot::empty(), our_id }
    }

    /// Route one decoded body: update the directory or the slot and report
    /// what to print and whether to spawn a session.
    pub fn handle_body(&mut self, body: MessageBody) -> (r: DispatchOutcome)
        requires
            old(self).wf(),
        ensures
            final(self).wf(),
            final(self).our_id@ == old(self).our_id@,
            final(self).names@ == names_after(old(self).names@, body@),
            final(self).slot@ == slot_after_body(old(self).slot@, body@),
            r.notices_view() == notices_of_body(old(self).names@, body@),
            r.start_view() == start_of_body(old(self).our_id@, body@),
    {
        match body {
            MessageBody::AboutMe { from, name } => {
                let old_name = self.names.display_name(&from);
                let shown = slice_to_vec(name.as_slice());
                self.names.set_name(&from, name);
                let mut notices: Vec<Notice> = Vec::new();
                notices.push(Notice::Renamed { old_name, new_name: shown });
                let r = DispatchOutcome { notices, start: None };
                proof {
                    assert(r.notices_view() =~= notices_of_body(old(self).names@, body@));
                }
                r
            }
            MessageBody::Chat { from, text } => {
                let name = self.names.display_name(&from);
                let trimmed = trim_trailing(text.as_slice());
                let mut notices: Vec<Notice> = Vec::new();
                notices.push(Notice::ChatLine { name, text: trimmed });
                let r = DispatchOutcome { notices, start: None };
                proof {
                    assert(r.notices_view() =~= notices_of_body(old(self).names@, body@));
                }
                r
            }
            MessageBody::GameRequest { from } => {
                self.slot.on_game_request(&from);
                let name = self.names.display_name(&from);
                let mut notices: Vec<Notice> = Vec::new();
                notices.push(Notice::QueueJoined { name });
                let r = DispatchOutcome { notices, start: None };
                proof {
                    assert(r.notices_view() =~= notices_of_body(old(self).names@, body@));
                }
                r
            }
            MessageBody::GameStart { from, orig_sender, game_id } => {
                self.slot.on_game_start();
                let accepter_name = self.names.display_name(&from);
                let requester_name = self.names.display_name(&orig_sender);
                let mut notices: Vec<Notice> = Vec::new();
                notices.push(Notice::GameStarted { accepter_name, requester_name });
                let start = if orig_sender.eq_id(&self.our_id) {
                    Some(SessionStart { game_id, bootstrap: Some(from) })
                } else {
                    None
                };
                let r = DispatchOutcome { notices, start };
                proof {
                    assert(r.notices_view() =~= notices_of_body(old(self).names@, body@));
                }
                r
            }
            MessageBody::GameAborted => {
                let r = DispatchOutcome { notices: Vec::new(), start: None };
                proof {
                    assert(r.notices_view() =~= notices_of_body(old(self).names@, body@));
                }
                r
            }
        }
    }

    /// Decode one incoming payload and route its body. Malformed bytes are
    /// rejected with the state untouched; the caller decides whether that
    /// ends its loop.
    pub fn handle_payload(&mut self, bytes: &[u8]) -> (r: Result<
        DispatchOutcome,
        CodecError,
    >)
        requires
            old(self).wf(),
        ensures
            final(self).wf(),
            final(self).our_id@ == old(self).our_id@,
            match decode_spec(bytes@) {
                Some(b) => match r {
                    Ok(out) => {
                        &&& final(self).names@ == names_after(old(self).names@, b)
                        &&& final(self).slot@ == slot_after_body(old(self).slot@, b)
                        &&& out.notices_view() == notices_of_body(old(self).names@, b)
                        &&& out.start_view() == start_of_body(old(self).our_id@, b)
                    },
                    Err(_) => false,
                },
                None => {
                    &&& r == Err::<DispatchOutcome, CodecError>(CodecError::MalformedMessage)
                    &&& final(self).names@ == old(self).names@
                    &&& final(self).slot@ == old(self).slot@
                },
            },
    {
        match crate::codec::MinimalMessage::from_bytes(bytes) {
            Ok(body) => Ok(self.handle_body(body)),
            Err(e) => Err(e),
        }
    }

    /// Handle one typed line: parse the command, update the slot under the
    /// caller's critical section, and report what to broadcast (after the
    /// section ends), what to print, whether to quit, and what session to
    /// spawn. The session id is drawn by the caller and is used only when a
    /// waiting challenger is accepted.
    pub fn handle_line(&mut self, line: &[u8], game_id: u64) -> (r: LineOutcome)
        requires
            old(self).wf(),
        ensures
            final(self).wf(),
            final(self).our_id@ == old(self).our_id@,
            final(self).names@ == old(self).names@,
            final(self).slot@ == slot_after_line(old(self).our_id@, old(self).slot@, line@),
            r.quit == (parse_line_spec(line@) is Quit),
            r.notices_view() == notices_of_line(old(self).slot@, line@),
            r.start_view() == start_of_line(old(self).slot@, line@, game_id),
            match line_broadcast(old(self).our_id@, old(self).slot@, line@, game_id) {
                Some(b) => r.broadcast matches Some(p) && decode_spec(p@) == Some(b),
                None => r.broadcast is None,
            },
    {
        let action = parse_line(line);
        match action {
            LineAction::Chat => {
                let text = slice_to_vec(line);
                let payload = encode(MessageBody::Chat { from: self.our_id, text });
                let r = LineOutcome {
                    broadcast: Some(payload),
                    notices: Vec::new(),
                    quit: false,
                    start: None,
                };
                proof {
                    assert(r.notices_view() =~= notices_of_line(old(self).slot@, line@));
                }
                r
            }
            LineAction::Nick { name } => {
                let shown = slice_to_vec(name.as_slice());
                let payload = encode(MessageBody::AboutMe { from: self.our_id, name });
                let mut notices: Vec<Notice> = Vec::new();
                notices.push(Notice::NickChanged { new_name: shown });
                let r = LineOutcome { broadcast: Some(payload), notices, quit: false, start: None };
                proof {
                    assert(r.notices_view() =~= notices_of_line(old(self).slot@, line@));
                }
                r
            }
            LineAction::Quit => {
                let r = LineOutcome {
                    broadcast: None,
                    notices: Vec::new(),
                    quit: true,
                    start: None,
                };
                proof {
                    assert(r.notices_view() =~= notices_of_line(old(self).slot@, line@));
                }
                r
            }
            LineAction::Min => {
                match self.slot.local_min(&self.our_id, game_id) {
                    MinDecision::Accept { orig_sender, game_id: g } => {
                        let payload = encode(
                            MessageBody::GameStart { from: self.our_id, orig_sender, game_id: g },
                        );
                        let mut notices: Vec<Notice> = Vec::new();
                        notices.push(Notice::AcceptingGame);
                        let r = LineOutcome {
                            broadcast: Some(payload),
                            notices,
                            quit: false,
                            start: Some(SessionStart { game_id: g, bootstrap: None }),
                        };
                        proof {
                            assert(r.notices_view() =~= notices_of_line(old(self).slot@, line@));
                        }
                        r
                    }
                    MinDecision::Queued => {
                        let payload = encode(MessageBody::GameRequest { from: self.our_id });
                        let mut notices: Vec<Notice> = Vec::new();
                        notices.push(Notice::JoinedQueue);
                        let r = LineOutcome {
                            broadcast: Some(payload),
                            notices,
                            quit: false,
                            start: None,
                        };
                        proof {
                            assert(r.notices_view() =~= notices_of_line(old(self).slot@, line@));
                        }
                        r
                    }
                }
            }
            LineAction::Unknown => {
                let trimmed = trim_trailing(line);
                let mut notices: Vec<Notice> = Vec::new();
                notices.push(Notice::UnknownCommand { line: trimmed });
                let r = LineOutcome { broadcast: None, notices, quit: false, start: None };
                proof {
                    assert(r.notices_view() =~= notices_of_line(old(self).slot@, line@));
                }
                r
            }
        }
    }
}

} // verus!
