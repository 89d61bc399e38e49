//! The turn machine of one duel. It is fed the messages that arrive and
//! answers with the messages to send; it reads no socket and writes none.
//!
//! A duel starts `Idle`. Once started it is `AwaitingTurn` until the
//! opponent is caught with a wrong answer (`Won`), the opponent declares us
//! beaten (`Lost`), or something happens that the protocol has no place for
//! (`Aborted`: the duel ends without a winner).

use crate::frame::{frame_bytes, frame_parse, read_frame, write_frame, FrameError};
use crate::message::message_bytes;
use crate::registry::{Registry, SolverKind};
use crate::solvers::proof_of_work::{input_parse, PoWInput};
use crate::{
    Challenge, ChallengeView, MessageView, P2PMessage, Solution, Solver, SolverError,
    SolverErrorView,
};
use vstd::pervasive::unreached;
use vstd::prelude::*;
use vstd::string::*;

verus! {

/// The difficulty of the challenge that opens a duel.
pub const INITIAL_DIFFICULTY: u32 = 4;

/// The side a peer plays on one connection.
#[derive(Debug, Clone, Copy, PartialEq, Eq, Structural)]
pub enum Role {
    /// Sends the first challenge.
    Initiator,
    /// Waits for the first challenge.
    Responder,
}

/// Where a duel stands.
#[derive(Debug, Clone, Copy, PartialEq, Eq, Structural)]
pub enum Phase {
    Idle,
    AwaitingTurn,
    Won,
    Lost,
    Aborted,
}

/// A message or a call that the machine cannot place.
#[derive(Debug, Clone, Copy, PartialEq, Eq, Structural)]
pub enum Violation {
    /// A challenge names a solver that is not registered.
    SolverNotFound,
    /// A reply arrived although no challenge of ours is outstanding.
    ReplyWithoutChallenge,
    /// A message was handed to a duel that is not awaiting one.
    NotAwaitingTurn,
    /// The duel was started twice.
    AlreadyStarted,
}

/// Why a step of the duel failed.
#[derive(Debug, Clone, PartialEq, Eq)]
pub enum DuelError {
    ProtocolViolation(Violation),
    TransportFailure(FrameError),
    Solver(SolverError),
}

/// The name under which the opening challenge's solver is registered.
pub open spec fn opening_solver() -> Seq<char> {
    "pow"@
}

/// The mathematical content of a [`Duel`].
pub struct DuelView {
    pub role: Role,
    pub registry: Map<Seq<char>, SolverKind>,
    pub phase: Phase,
    /// The last challenge sent: the one the opponent's next reply answers.
    pub outstanding: Option<ChallengeView>,
}

/// One duel over one connection.
#[derive(Debug, Clone)]
pub struct Duel {
    role: Role,
    registry: Registry,
    phase: Phase,
    outstanding: Option<Challenge>,
}

impl View for Duel {
    type V = DuelView;

    closed spec fn view(&self) -> DuelView {
        DuelView {
            role: self.role,
            registry: self.registry@,
            phase: self.phase,
            outstanding: match self.outstanding {
                Some(c) => Some(c@),
                None => None,
            },
        }
    }
}

/// The messages of a sequence, each by its content.
pub open spec fn contents(messages: Seq<P2PMessage>) -> Seq<MessageView> {
    messages.map_values(|m: P2PMessage| m@)
}

/// The solver can answer the challenge and raise the stakes: the payload is
/// readable to it, a solution lies within the budget, and the payload holds
/// a difficulty that can still grow.
pub open spec fn can_answer(kind: SolverKind, payload: Seq<u8>) -> bool {
    &&& kind.reads_challenge(payload)
    &&& kind.solvable(payload)
    &&& input_parse(payload) is Ok
    &&& input_parse(payload)->Ok_0.difficulty < u32::MAX
}

/// The challenge that follows an answered one: one harder than the
/// difficulty read out of the answered payload.
pub open spec fn next_challenge(kind: SolverKind, payload: Seq<u8>) -> ChallengeView {
    kind.posed((input_parse(payload)->Ok_0.difficulty + 1) as u32)
}

/// The verdict of the solver on a reply to a challenge.
pub open spec fn reply_holds(kind: SolverKind, challenge: Seq<u8>, solution: Seq<u8>) -> bool {
    &&& kind.reads_challenge(challenge)
    &&& kind.reads_solution(solution)
    &&& kind.accepts(challenge, solution)
}

/// The reason sent to an opponent whose reply failed review with `e`.
pub open spec fn victory_reason(e: SolverErrorView) -> Seq<char> {
    "Solución inválida: "@ + e.text()
}

/// The inputs on which a step succeeds.
pub open spec fn step_succeeds(pre: DuelView, m: MessageView) -> bool {
    pre.phase == Phase::AwaitingTurn && match m {
        MessageView::Challenge(c) => pre.registry.contains_key(c.name) && can_answer(
            pre.registry[c.name],
            c.payload,
        ),
        MessageView::Reply(_) => pre.outstanding is Some && pre.registry.contains_key(
            pre.outstanding->Some_0.name,
        ),
        MessageView::YouWin(_) => true,
    }
}

/// A successful step: from `pre`, on message `m`, to `post`, sending `out`
/// in that order.
pub open spec fn step_ok(pre: DuelView, m: MessageView, post: DuelView, out: Seq<MessageView>) -> bool {
    &&& step_succeeds(pre, m)
    &&& post.role == pre.role
    &&& post.registry == pre.registry
    &&& match m {
        MessageView::Challenge(c) => {
            let kind = pre.registry[c.name];
            let next = next_challenge(kind, c.payload);
            &&& out.len() == 2
            &&& out[0] matches MessageView::Reply(s)
            &&& kind.answers(c.payload, s)
            &&& reply_holds(kind, c.payload, s)
            &&& out[1] == MessageView::Challenge(next)
            &&& post.phase == Phase::AwaitingTurn
            &&& post.outstanding == Some(next)
        },
        MessageView::Reply(s) => {
            let last = pre.outstanding->Some_0;
            let kind = pre.registry[last.name];
            &&& post.outstanding == pre.outstanding
            &&& match kind.verdict(last.payload, s) {
                Ok(_) => out.len() == 0 && post.phase == Phase::AwaitingTurn,
                Err(failure) => {
                    &&& out.len() == 1
                    &&& out[0] == MessageView::YouWin(victory_reason(failure))
                    &&& post.phase == Phase::Won
                },
            }
        },
        MessageView::YouWin(_) => {
            &&& out.len() == 0
            &&& post.phase == Phase::Lost
            &&& post.outstanding == pre.outstanding
        },
    }
}

/// A failed step: from `pre`, on message `m`, to `post`, with error `e`.
/// Nothing is sent. A duel that was awaiting its turn is aborted.
pub open spec fn step_err(pre: DuelView, m: MessageView, post: DuelView, e: DuelError) -> bool {
    &&& !step_succeeds(pre, m)
    &&& post.role == pre.role
    &&& post.registry == pre.registry
    &&& post.outstanding == pre.outstanding
    &&& if pre.phase != Phase::AwaitingTurn {
        e == DuelError::ProtocolViolation(Violation::NotAwaitingTurn) && post.phase == pre.phase
    } else {
        post.phase == Phase::Aborted && match m {
            MessageView::Challenge(c) => if !pre.registry.contains_key(c.name) {
                e == DuelError::ProtocolViolation(Violation::SolverNotFound)
            } else {
                let kind = pre.registry[c.name];
                &&& e matches DuelError::Solver(failure)
                &&& failure is ComputationFailed <==> kind.reads_challenge(c.payload)
                    && !kind.solvable(c.payload)
            },
            MessageView::Reply(_) => if pre.outstanding is None {
                e == DuelError::ProtocolViolation(Violation::ReplyWithoutChallenge)
            } else {
                e == DuelError::ProtocolViolation(Violation::SolverNotFound)
            },
            MessageView::YouWin(_) => false,
        }
    }
}

/// Each message of the sequence is short enough for a frame to announce.
pub open spec fn all_fit(out: Seq<MessageView>) -> bool {
    forall|i: int| 0 <= i < out.len() ==> (#[trigger] message_bytes(out[i])).len() <= u32::MAX
}

/// The messages that a sequence of frames carries, frame by frame.
pub open spec fn carried(frames: Seq<Vec<u8>>) -> Seq<MessageView> {
    Seq::new(frames.len(), |i: int| frame_parse(frames[i]@)->Ok_0.0)
}

/// A challenge that names no registered solver aborts the duel: the step
/// cannot succeed, it fails as a protocol violation, and nothing is sent,
/// the declaration of a winner included.
pub proof fn lemma_unknown_solver_aborts(pre: DuelView, c: ChallengeView)
    requires
        pre.phase == Phase::AwaitingTurn,
        !pre.registry.contains_key(c.name),
    ensures
        forall|post: DuelView, out: Seq<MessageView>|
            !step_ok(pre, MessageView::Challenge(c), post, out),
        forall|post: DuelView, e: DuelError| #[trigger]
            step_err(pre, MessageView::Challenge(c), post, e) ==> e
                == DuelError::ProtocolViolation(Violation::SolverNotFound) && post.phase
                == Phase::Aborted,
{
}

/// A reply that arrives when no challenge is outstanding aborts the duel.
pub proof fn lemma_stray_reply_aborts(pre: DuelView, s: Seq<u8>)
    requires
        pre.phase == Phase::AwaitingTurn,
        pre.outstanding is None,
    ensures
        forall|post: DuelView, out: Seq<MessageView>|
            !step_ok(pre, MessageView::Reply(s), post, out),
        forall|post: DuelView, e: DuelError| #[trigger]
            step_err(pre, MessageView::Reply(s), post, e) ==> e == DuelError::ProtocolViolation(
                Violation::ReplyWithoutChallenge,
            ) && post.phase == Phase::Aborted,
{
}

/// The message that tells the opponent its reply failed review.
pub fn declare_victory(failure: &SolverError) -> (r: P2PMessage)
    ensures
        r@ == MessageView::YouWin(victory_reason(failure@)),
{
    P2PMessage::YouWin(String::from_str("Solución inválida: ").concat(failure.to_text().as_str()))
}

impl Duel {
    /// A duel that has not started.
    pub fn new(role: Role, registry: Registry) -> (r: Duel)
        ensures
            r@ == (DuelView {
                role,
                registry: registry@,
                phase: Phase::Idle,
                outstanding: None,
            }),
    {
        Duel { role, registry, phase: Phase::Idle, outstanding: None }
    }

    /// Where the duel stands.
    pub fn phase(&self) -> (r: Phase)
        ensures
            r == self@.phase,
    {
        self.phase
    }

    /// The side this peer plays.
    pub fn role(&self) -> (r: Role)
        ensures
            r == self@.role,
    {
        self.role
    }

    /// The last challenge sent, if any.
    pub fn outstanding(&self) -> (r: Option<&Challenge>)
        ensures
            match r {
                Some(c) => self@.outstanding == Some(c@),
                None => self@.outstanding is None,
            },
    {
        self.outstanding.as_ref()
    }

    /// Whether the duel has ended, with or without a winner.
    pub fn is_over(&self) -> (r: bool)
        ensures
            r == (self@.phase == Phase::Won || self@.phase == Phase::Lost || self@.phase
                == Phase::Aborted),
    {
        match self.phase {
            Phase::Won | Phase::Lost | Phase::Aborted => true,
            Phase::Idle | Phase::AwaitingTurn => false,
        }
    }

    /// Starts the duel and returns what to send first: the initiator sends
    /// the opening challenge and keeps it as outstanding, the responder
    /// sends nothing. Either side needs the opening solver registered;
    /// without it the duel is aborted. A duel starts only once.
    pub fn start(&mut self) -> (r: Result<Vec<P2PMessage>, DuelError>)
        ensures
            final(self)@.role == old(self)@.role,
            final(self)@.registry == old(self)@.registry,
            match r {
                Ok(out) => {
                    &&& old(self)@.phase == Phase::Idle
                    &&& old(self)@.registry.contains_key(opening_solver())
                    &&& final(self)@.phase == Phase::AwaitingTurn
                    &&& match old(self)@.role {
                        Role::Initiator => {
                            let opening = old(self)@.registry[opening_solver()].posed(
                                INITIAL_DIFFICULTY,
                            );
                            &&& out@.len() == 1
                            &&& out@[0]@ == MessageView::Challenge(opening)
                            &&& final(self)@.outstanding == Some(opening)
                        },
                        Role::Responder => {
                            &&& out@.len() == 0
                            &&& final(self)@.outstanding == old(self)@.outstanding
                        },
                    }
                },
                Err(e) => {
                    &&& final(self)@.outstanding == old(self)@.outstanding
                    &&& if old(self)@.phase != Phase::Idle {
                        &&& e == DuelError::ProtocolViolation(Violation::AlreadyStarted)
                        &&& final(self)@.phase == old(self)@.phase
                    } else {
                        &&& !old(self)@.registry.contains_key(opening_solver())
                        &&& e == DuelError::ProtocolViolation(Violation::SolverNotFound)
                        &&& final(self)@.phase == Phase::Aborted
                    }
                },
            },
    {
        match self.phase {
            Phase::Idle => {},
            _ => {
                return Err(DuelError::ProtocolViolation(Violation::AlreadyStarted));
            },
        }
        let kind = match self.registry.lookup("pow") {
            Some(kind) => kind,
            None => {
                self.phase = Phase::Aborted;
                return Err(DuelError::ProtocolViolation(Violation::SolverNotFound));
            },
        };
        self.phase = Phase::AwaitingTurn;
        let mut out: Vec<P2PMessage> = Vec::new();
        match self.role {
            Role::Responder => {},
            Role::Initiator => {
                let (kept, sent) = pose_twice(kind, INITIAL_DIFFICULTY);
                self.outstanding = Some(kept);
                out.push(P2PMessage::Challenge(sent));
            },
        }
        Ok(out)
    }

    /// Takes one message from the opponent and returns the messages to send
    /// in answer, in order.
    ///
    /// A challenge is solved by the solver its name selects; the answer is
    /// the reply followed by a new challenge, one harder than the
    /// difficulty read out of the solved payload, which becomes the
    /// outstanding one. A reply is judged against the outstanding challenge
    /// by the solver that challenge names: a good one is answered with
    /// nothing, a bad one with the declaration of victory, and the duel is
    /// won. A declaration of victory by the opponent ends the duel as lost.
    /// Whatever else happens aborts the duel and sends nothing.
    pub fn on_message(&mut self, message: P2PMessage) -> (r: Result<Vec<P2PMessage>, DuelError>)
        ensures
            match r {
                Ok(out) => step_ok(old(self)@, message@, final(self)@, contents(out@)),
                Err(e) => step_err(old(self)@, message@, final(self)@, e),
            },
    {
        match self.phase {
            Phase::AwaitingTurn => {},
            _ => {
                return Err(DuelError::ProtocolViolation(Violation::NotAwaitingTurn));
            },
        }
        let mut out: Vec<P2PMessage> = Vec::new();
        match message {
            P2PMessage::Challenge(challenge) => {
                let kind = match self.registry.lookup(challenge.name.as_str()) {
                    Some(kind) => kind,
                    None => {
                        self.phase = Phase::Aborted;
                        return Err(DuelError::ProtocolViolation(Violation::SolverNotFound));
                    },
                };
                let (solution, kept, sent) = match answer(kind, challenge.payload.as_slice()) {
                    Ok(answered) => answered,
                    Err(e) => {
                        self.phase = Phase::Aborted;
                        return Err(DuelError::Solver(e));
                    },
                };
                self.outstanding = Some(kept);
                out.push(P2PMessage::Reply(solution));
                out.push(P2PMessage::Challenge(sent));
                Ok(out)
            },
            P2PMessage::Reply(solution) => {
                let verdict = match &self.outstanding {
                    None => {
                        self.phase = Phase::Aborted;
                        return Err(
                            DuelError::ProtocolViolation(Violation::ReplyWithoutChallenge),
                        );
                    },
                    Some(last) => match self.registry.lookup(last.name.as_str()) {
                        None => {
                            self.phase = Phase::Aborted;
                            return Err(DuelError::ProtocolViolation(Violation::SolverNotFound));
                        },
                        Some(kind) => kind.review_solution(last.payload.as_slice(), &solution),
                    },
                };
                match verdict {
                    Ok(()) => {},
                    Err(failure) => {
                        out.push(declare_victory(&failure));
                        self.phase = Phase::Won;
                    },
                }
                Ok(out)
            },
            P2PMessage::YouWin(_) => {
                self.phase = Phase::Lost;
                Ok(out)
            },
        }
    }

    /// Takes one frame from the opponent and returns the frames to send in
    /// answer, in order: `on_message` between unframing and framing.
    ///
    /// A frame that cannot be read is a transport failure and aborts the
    /// duel. Where the step succeeds and every message of the answer fits a
    /// frame, the frames are returned. Where one does not fit, and only
    /// then, the step is taken as it would have been, the duel is aborted
    /// with `Oversized`, and nothing is sent.
    #[verifier::loop_isolation(false)]
    pub fn on_frame(&mut self, frame: &[u8]) -> (r: Result<Vec<Vec<u8>>, DuelError>)
        ensures
            final(self)@.role == old(self)@.role,
            final(self)@.registry == old(self)@.registry,
            old(self)@.phase != Phase::AwaitingTurn ==> final(self)@ == old(self)@ && r == Err::<
                Vec<Vec<u8>>,
                DuelError,
            >(DuelError::ProtocolViolation(Violation::NotAwaitingTurn)),
            old(self)@.phase == Phase::AwaitingTurn ==> match frame_parse(frame@) {
                Err(cause) => {
                    &&& r == Err::<Vec<Vec<u8>>, DuelError>(DuelError::TransportFailure(cause))
                    &&& final(self)@.phase == Phase::Aborted
                    &&& final(self)@.outstanding == old(self)@.outstanding
                },
                Ok((m, _)) => match r {
                    Ok(frames) => {
                        &&& step_ok(old(self)@, m, final(self)@, carried(frames@))
                        &&& all_fit(carried(frames@))
                        &&& forall|i: int|
                            0 <= i < frames@.len() ==> #[trigger] frames@[i]@ == frame_bytes(
                                carried(frames@)[i],
                            )
                    },
                    Err(e) => {
                        ||| step_err(old(self)@, m, final(self)@, e)
                        ||| {
                            &&& e == DuelError::TransportFailure(FrameError::Oversized)
                            &&& exists|post: DuelView, out: Seq<MessageView>|
                                {
                                    &&& #[trigger] step_ok(old(self)@, m, post, out)
                                    &&& !all_fit(out)
                                    &&& final(self)@ == (DuelView {
                                        phase: Phase::Aborted,
                                        ..post
                                    })
                                }
                        }
                    },
                },
            },
    {
        match self.phase {
            Phase::AwaitingTurn => {},
            _ => {
                return Err(DuelError::ProtocolViolation(Violation::NotAwaitingTurn));
            },
        }
        let message = match read_frame(frame) {
            Ok((message, _)) => message,
            Err(cause) => {
                self.phase = Phase::Aborted;
                return Err(DuelError::TransportFailure(cause));
            },
        };
        let ghost received = message@;
        let out = match self.on_message(message) {
            Ok(out) => out,
            Err(e) => { return Err(e); },
        };
        let ghost taken = self@;
        let mut frames: Vec<Vec<u8>> = Vec::new();
        let mut i: usize = 0;
        while i < out.len()
            invariant
                self@ == taken,
                i <= out@.len(),
                frames@.len() == i,
                forall|j: int|
                    0 <= j < i ==> frame_parse(#[trigger] frames@[j]@) == Ok::<
                        (MessageView, nat),
                        FrameError,
                    >((out@[j]@, frames@[j]@.len())) && frames@[j]@ == frame_bytes(out@[j]@)
                        && message_bytes(out@[j]@).len() <= u32::MAX,
            decreases out@.len() - i,
        {
            match write_frame(&out[i]) {
                Ok(framed) => frames.push(framed),
                Err(cause) => {
                    self.phase = Phase::Aborted;
                    proof {
                        let sent = contents(out@);
                        assert(message_bytes(sent[i as int]).len() > u32::MAX);
                        assert(step_ok(old(self)@, received, taken, sent));
                        assert(self@ == (DuelView { phase: Phase::Aborted, ..taken }));
                    }
                    return Err(DuelError::TransportFailure(cause));
                },
            }
            i += 1;
        }
        assert(carried(frames@) =~= contents(out@));
        Ok(frames)
    }
}

/// Poses the challenge of a difficulty twice over: one copy to keep, one to
/// send.
fn pose_twice(kind: SolverKind, difficulty: u32) -> (r: (Challenge, Challenge))
    ensures
        r.0@ == kind.posed(difficulty),
        r.1@ == r.0@,
{
    let kept = match kind.create_challenge(difficulty) {
        Ok(challenge) => challenge,
        Err(_) => unreached(),
    };
    let sent = Challenge { name: kept.name.clone(), payload: kept.payload.clone() };
    (kept, sent)
}

/// Answers a challenge: solves it, reads its difficulty and poses the next
/// one, one harder. Returns the solution and the next challenge, once to
/// keep and once to send.
pub fn answer(kind: SolverKind, payload: &[u8]) -> (r: Result<
    (Solution, Challenge, Challenge),
    SolverError,
>)
    ensures
        match r {
            Ok((solution, kept, sent)) => {
                &&& can_answer(kind, payload@)
                &&& kind.answers(payload@, solution@)
                &&& reply_holds(kind, payload@, solution@)
                &&& kept@ == next_challenge(kind, payload@)
                &&& sent@ == kept@
            },
            Err(e) => {
                &&& !can_answer(kind, payload@)
                &&& e is ComputationFailed <==> kind.reads_challenge(payload@) && !kind.solvable(
                    payload@,
                )
            },
        },
{
    let solution = match kind.solve(payload) {
        Ok(solution) => solution,
        Err(e) => { return Err(e); },
    };
    let difficulty = match PoWInput::decode(payload) {
        Ok(input) => input.difficulty,
        Err(e) => {
            return Err(SolverError::InvalidInput(String::from_str(e.reason())));
        },
    };
    if difficulty == u32::MAX {
        return Err(
            SolverError::InvalidInput(String::from_str("La dificultad ya no puede aumentar.")),
        );
    }
    let (kept, sent) = pose_twice(kind, difficulty + 1);
    Ok((solution, kept, sent))
}

} // verus!
