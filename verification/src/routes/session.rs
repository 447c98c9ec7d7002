//! The state that the server keeps of one session, and the rule by which each
//! request changes it.
//!
//! A session is created by the first key-generation request and then walks
//! through the stages of [`KeygenStage`] in order. Once its master key is
//! ready it can open signing rounds and rotation rounds; each round is
//! consumed by the request that completes it.

use vstd::prelude::*;
use crate::routes::ecdsa::EcdsaStruct;
use crate::storage::db::MPCStruct;

verus! {

/// How far key generation has come.
#[derive(Debug, Clone, Copy, PartialEq, Eq, Structural)]
pub enum KeygenStage {
    /// Nothing is stored yet.
    Init,
    /// The server has committed to its share.
    P1Committed,
    /// The client's share is in and the server has opened its commitment.
    P2Responded,
    /// The server has committed to its chain-code contribution.
    ChainStarted,
    /// The chain code is agreed.
    ChainDone,
    /// The master key is stored; the session is sealed.
    MasterReady,
}

impl KeygenStage {
    /// Position of the stage in the order of the protocol.
    pub open spec fn rank(self) -> nat {
        match self {
            KeygenStage::Init => 0,
            KeygenStage::P1Committed => 1,
            KeygenStage::P2Responded => 2,
            KeygenStage::ChainStarted => 3,
            KeygenStage::ChainDone => 4,
            KeygenStage::MasterReady => 5,
        }
    }

    /// Position of the stage in the order of the protocol.
    pub fn position(self) -> (r: u8)
        ensures
            r == self.rank(),
    {
        match self {
            KeygenStage::Init => 0,
            KeygenStage::P1Committed => 1,
            KeygenStage::P2Responded => 2,
            KeygenStage::ChainStarted => 3,
            KeygenStage::ChainDone => 4,
            KeygenStage::MasterReady => 5,
        }
    }
}

/// Why a request was not served.
#[derive(Debug, Clone, Copy, PartialEq, Eq, Structural)]
pub enum ProtocolError {
    /// A proof, a commitment opening or the order of the messages was wrong.
    ProtocolReject,
    /// The session was left unfinished for longer than allowed.
    SessionExpired,
    /// The session does not hold what the request builds on.
    SessionMissing,
    /// The caller did not identify itself.
    Unauthorized,
    /// The store failed.
    StorageError,
    /// The server found itself in a state that it should never reach.
    InvariantViolation,
}

impl ProtocolError {
    /// The short text shown to the caller.
    pub open spec fn spec_message(self) -> Seq<char> {
        match self {
            ProtocolError::ProtocolReject => "protocol reject"@,
            ProtocolError::SessionExpired => "session expired"@,
            ProtocolError::SessionMissing => "session missing"@,
            ProtocolError::Unauthorized => "unauthorized"@,
            ProtocolError::StorageError => "storage error"@,
            ProtocolError::InvariantViolation => "invariant violation"@,
        }
    }

    /// The short text shown to the caller.
    pub fn message(&self) -> (text: &'static str)
        ensures
            text@ == self.spec_message(),
    {
        match self {
            ProtocolError::ProtocolReject => "protocol reject",
            ProtocolError::SessionExpired => "session expired",
            ProtocolError::SessionMissing => "session missing",
            ProtocolError::Unauthorized => "unauthorized",
            ProtocolError::StorageError => "storage error",
            ProtocolError::InvariantViolation => "invariant violation",
        }
    }
}

/// How long unfinished work is kept, in seconds.
#[derive(Debug, Clone, Copy, PartialEq, Eq, Structural)]
pub struct Timeouts {
    /// For a key generation or a rotation that has not reached its end.
    pub session: u64,
    /// For a signing round between its two requests.
    pub signing: u64,
}

/// The recommended time to keep an unfinished key generation: ten minutes.
pub const RECOMMENDED_SESSION_TTL: u64 = 600;

/// What the server remembers of one session besides the artifacts themselves.
#[derive(Debug, Clone, Copy, PartialEq, Eq, Structural)]
pub struct Session {
    /// How far key generation has come.
    pub stage: KeygenStage,
    /// The highest child index that the server has derived a key for.
    pub pos: u32,
    /// When key generation last moved forward.
    pub touched: u64,
    /// Whether a signing round is open.
    pub signing: bool,
    /// When the open signing round began.
    pub sign_opened: u64,
    /// Whether a rotation round is open.
    pub rotating: bool,
    /// When the open rotation round began.
    pub rotate_opened: u64,
}

/// The kind of artifact under which the session itself is stored.
#[derive(Debug, Clone, Copy, PartialEq, Eq, Structural)]
pub struct SessionRecord;

impl MPCStruct for SessionRecord {
    open spec fn tag(&self) -> Seq<char> {
        "Session"@
    }

    fn to_string(&self) -> (s: String) {
        String::from_str("Session")
    }
}

/// The requests that act on a session.
#[derive(Debug, Clone, Copy, PartialEq, Eq, Structural)]
pub enum Endpoint {
    /// The first key-generation request: the server commits to its share.
    KeygenFirst,
    /// The second key-generation request: the client's share arrives.
    KeygenSecond,
    /// The first chain-code request: the server commits to its contribution.
    ChainCodeFirst,
    /// The second chain-code request: the client's contribution arrives; the
    /// chain code is computed and the master key assembled.
    ChainCodeSecond,
    /// The computation of the chain code, taken by itself.
    ChainCodeCompute,
    /// The assembly of the master key, taken by itself.
    MasterKey,
    /// The first signing request: a signing round opens.
    SignFirst,
    /// The second signing request, for the child with the given index.
    SignSecond(u32),
    /// A look at the master key.
    GetMk,
    /// The first rotation request: a rotation round opens.
    RotateFirst,
    /// The second rotation request: the master key is replaced.
    RotateSecond,
    /// The request for the last child index issued.
    Recover,
}

/// What a served request does to the store and to the session, as values.
pub struct StepView {
    /// The artifacts loaded, in order.
    pub reads: Seq<EcdsaStruct>,
    /// The artifacts stored, in order.
    pub writes: Seq<EcdsaStruct>,
    /// The artifacts deleted once the request is done, whatever its outcome.
    pub removes: Seq<EcdsaStruct>,
    /// The session afterwards.
    pub next: Session,
}

/// What a served request does to the store and to the session.
#[derive(Debug)]
pub struct Step {
    /// The artifacts to load, in order, before the cryptographic round.
    pub reads: Vec<EcdsaStruct>,
    /// The artifacts to store, in order, when the round has succeeded.
    pub writes: Vec<EcdsaStruct>,
    /// The artifacts to delete once the request is done, whatever its outcome.
    pub removes: Vec<EcdsaStruct>,
    /// The session to store in place of the present one.
    pub next: Session,
}

impl View for Step {
    type V = StepView;

    open spec fn view(&self) -> StepView {
        StepView {
            reads: self.reads@,
            writes: self.writes@,
            removes: self.removes@,
            next: self.next,
        }
    }
}

/// Whether `since` lies more than `ttl` seconds before `now`.
pub open spec fn overdue(since: u64, now: u64, ttl: u64) -> bool {
    now - since > ttl
}

impl Session {
    /// The session of which nothing is stored.
    pub open spec fn spec_new() -> Session {
        Session {
            stage: KeygenStage::Init,
            pos: 0,
            touched: 0,
            signing: false,
            sign_opened: 0,
            rotating: false,
            rotate_opened: 0,
        }
    }

    /// The session of which nothing is stored.
    pub fn new() -> (s: Session)
        ensures
            s == Session::spec_new(),
    {
        Session {
            stage: KeygenStage::Init,
            pos: 0,
            touched: 0,
            signing: false,
            sign_opened: 0,
            rotating: false,
            rotate_opened: 0,
        }
    }

    /// Key generation was begun, not finished, and left for too long.
    pub open spec fn keygen_expired(self, now: u64, ttl: Timeouts) -> bool {
        &&& self.stage != KeygenStage::Init
        &&& self.stage != KeygenStage::MasterReady
        &&& overdue(self.touched, now, ttl.session)
    }

    /// A signing round is open and was left for too long.
    pub open spec fn signing_expired(self, now: u64, ttl: Timeouts) -> bool {
        self.signing && overdue(self.sign_opened, now, ttl.signing)
    }

    /// A rotation round is open and was left for too long.
    pub open spec fn rotation_expired(self, now: u64, ttl: Timeouts) -> bool {
        self.rotating && overdue(self.rotate_opened, now, ttl.session)
    }

    /// The artifacts that the store holds for a session in this state and that
    /// later requests may build on.
    pub open spec fn held(self) -> Set<EcdsaStruct> {
        Set::new(
            |a: EcdsaStruct|
                match a {
                    EcdsaStruct::POS
                    | EcdsaStruct::KeyGenFirstMsg
                    | EcdsaStruct::CommWitness
                    | EcdsaStruct::EcKeyPair => self.stage.rank() >= 1,
                    EcdsaStruct::Party2Public
                    | EcdsaStruct::PaillierKeyPair
                    | EcdsaStruct::Party1Private => self.stage.rank() >= 2,
                    EcdsaStruct::CCKeyGenFirstMsg
                    | EcdsaStruct::CCCommWitness
                    | EcdsaStruct::CCEcKeyPair => self.stage.rank() >= 3,
                    EcdsaStruct::CC => self.stage.rank() >= 4,
                    EcdsaStruct::Party1MasterKey => self.stage.rank() >= 5,
                    EcdsaStruct::EphKeyGenFirstMsg | EcdsaStruct::EphEcKeyPair => self.signing,
                    EcdsaStruct::RotateCommitMessage1M
                    | EcdsaStruct::RotateCommitMessage1R => self.rotating,
                    _ => false,
                },
        )
    }
}

/// The artifacts that a request loads, in order.
pub open spec fn reads_of(e: Endpoint) -> Seq<EcdsaStruct> {
    match e {
        Endpoint::KeygenFirst => seq![],
        Endpoint::KeygenSecond => seq![EcdsaStruct::CommWitness, EcdsaStruct::EcKeyPair],
        Endpoint::ChainCodeFirst => seq![],
        Endpoint::ChainCodeSecond => seq![
            EcdsaStruct::CCCommWitness,
            EcdsaStruct::CCEcKeyPair,
            EcdsaStruct::Party2Public,
            EcdsaStruct::PaillierKeyPair,
            EcdsaStruct::CC,
            EcdsaStruct::Party1Private,
            EcdsaStruct::CommWitness,
        ],
        Endpoint::ChainCodeCompute => seq![EcdsaStruct::CCEcKeyPair],
        Endpoint::MasterKey => seq![
            EcdsaStruct::Party2Public,
            EcdsaStruct::PaillierKeyPair,
            EcdsaStruct::CC,
            EcdsaStruct::Party1Private,
            EcdsaStruct::CommWitness,
        ],
        Endpoint::SignFirst => seq![],
        Endpoint::SignSecond(_) => seq![
            EcdsaStruct::Party1MasterKey,
            EcdsaStruct::EphEcKeyPair,
            EcdsaStruct::EphKeyGenFirstMsg,
        ],
        Endpoint::GetMk => seq![EcdsaStruct::Party1MasterKey],
        Endpoint::RotateFirst => seq![],
        Endpoint::RotateSecond => seq![
            EcdsaStruct::Party1MasterKey,
            EcdsaStruct::RotateCommitMessage1M,
            EcdsaStruct::RotateCommitMessage1R,
        ],
        Endpoint::Recover => seq![EcdsaStruct::POS],
    }
}

/// The artifacts that a request stores when its round has succeeded, in order.
pub open spec fn writes_of(e: Endpoint) -> Seq<EcdsaStruct> {
    match e {
        Endpoint::KeygenFirst => seq![
            EcdsaStruct::POS,
            EcdsaStruct::KeyGenFirstMsg,
            EcdsaStruct::CommWitness,
            EcdsaStruct::EcKeyPair,
        ],
        Endpoint::KeygenSecond => seq![
            EcdsaStruct::Party2Public,
            EcdsaStruct::PaillierKeyPair,
            EcdsaStruct::Party1Private,
        ],
        Endpoint::ChainCodeFirst => seq![
            EcdsaStruct::CCKeyGenFirstMsg,
            EcdsaStruct::CCCommWitness,
            EcdsaStruct::CCEcKeyPair,
        ],
        Endpoint::ChainCodeSecond => seq![EcdsaStruct::CC, EcdsaStruct::Party1MasterKey],
        Endpoint::ChainCodeCompute => seq![EcdsaStruct::CC],
        Endpoint::MasterKey => seq![EcdsaStruct::Party1MasterKey],
        Endpoint::SignFirst => seq![EcdsaStruct::EphKeyGenFirstMsg, EcdsaStruct::EphEcKeyPair],
        Endpoint::SignSecond(_) => seq![EcdsaStruct::POS],
        Endpoint::GetMk => seq![],
        Endpoint::RotateFirst => seq![
            EcdsaStruct::RotateCommitMessage1M,
            EcdsaStruct::RotateCommitMessage1R,
        ],
        Endpoint::RotateSecond => seq![EcdsaStruct::RotateRandom1, EcdsaStruct::Party1MasterKey],
        Endpoint::Recover => seq![],
    }
}

/// The artifacts that a request uses up: they are deleted when it is done,
/// whether its round succeeded or not.
pub open spec fn removes_of(e: Endpoint) -> Seq<EcdsaStruct> {
    match e {
        Endpoint::SignSecond(_) => seq![EcdsaStruct::EphEcKeyPair, EcdsaStruct::EphKeyGenFirstMsg],
        Endpoint::RotateSecond => seq![
            EcdsaStruct::RotateCommitMessage1M,
            EcdsaStruct::RotateCommitMessage1R,
        ],
        _ => seq![],
    }
}

/// The stage at which key generation must stand for a request to be in order.
pub open spec fn stage_before(e: Endpoint) -> KeygenStage {
    match e {
        Endpoint::KeygenFirst => KeygenStage::Init,
        Endpoint::KeygenSecond => KeygenStage::P1Committed,
        Endpoint::ChainCodeFirst => KeygenStage::P2Responded,
        Endpoint::ChainCodeSecond => KeygenStage::ChainStarted,
        Endpoint::ChainCodeCompute => KeygenStage::ChainStarted,
        Endpoint::MasterKey => KeygenStage::ChainDone,
        _ => KeygenStage::MasterReady,
    }
}

/// The stage at which a request leaves key generation.
pub open spec fn stage_after(e: Endpoint) -> KeygenStage {
    match e {
        Endpoint::KeygenFirst => KeygenStage::P1Committed,
        Endpoint::KeygenSecond => KeygenStage::P2Responded,
        Endpoint::ChainCodeFirst => KeygenStage::ChainStarted,
        Endpoint::ChainCodeSecond => KeygenStage::MasterReady,
        Endpoint::ChainCodeCompute => KeygenStage::ChainDone,
        _ => KeygenStage::MasterReady,
    }
}

/// Whether a request belongs to key generation, that is, moves the stage.
pub open spec fn moves_stage(e: Endpoint) -> bool {
    stage_before(e) != KeygenStage::MasterReady
}

/// The error with which a request is turned away, if it is.
///
/// A request on a session that has expired is told so. One that comes before
/// the session holds what it builds on finds the session missing; one that
/// comes after its turn, or while the round it would open is still open, is
/// rejected.
pub open spec fn refusal(s: Session, e: Endpoint, now: u64, ttl: Timeouts) -> Option<
    ProtocolError,
> {
    if e == Endpoint::KeygenFirst {
        if s.stage == KeygenStage::Init {
            None
        } else {
            Some(ProtocolError::ProtocolReject)
        }
    } else if s.stage == KeygenStage::Init {
        Some(ProtocolError::SessionMissing)
    } else if s.keygen_expired(now, ttl) {
        Some(ProtocolError::SessionExpired)
    } else if e == Endpoint::Recover {
        None
    } else if s.stage.rank() < stage_before(e).rank() {
        Some(ProtocolError::SessionMissing)
    } else if s.stage.rank() > stage_before(e).rank() {
        Some(ProtocolError::ProtocolReject)
    } else {
        match e {
            Endpoint::SignFirst => if s.signing && !s.signing_expired(now, ttl) {
                Some(ProtocolError::ProtocolReject)
            } else {
                None
            },
            Endpoint::SignSecond(_) => if !s.signing {
                Some(ProtocolError::SessionMissing)
            } else if s.signing_expired(now, ttl) {
                Some(ProtocolError::SessionExpired)
            } else {
                None
            },
            Endpoint::RotateFirst => if s.rotating && !s.rotation_expired(now, ttl) {
                Some(ProtocolError::ProtocolReject)
            } else {
                None
            },
            Endpoint::RotateSecond => if !s.rotating {
                Some(ProtocolError::SessionMissing)
            } else if s.rotation_expired(now, ttl) {
                Some(ProtocolError::SessionExpired)
            } else {
                None
            },
            _ => None,
        }
    }
}

/// The session after a request that was served.
pub open spec fn successor(s: Session, e: Endpoint, now: u64) -> Session {
    match e {
        Endpoint::SignFirst => Session { signing: true, sign_opened: now, ..s },
        Endpoint::SignSecond(child) => Session {
            signing: false,
            pos: if child > s.pos {
                child
            } else {
                s.pos
            },
            ..s
        },
        Endpoint::RotateFirst => Session { rotating: true, rotate_opened: now, ..s },
        Endpoint::RotateSecond => Session { rotating: false, ..s },
        Endpoint::GetMk | Endpoint::Recover => s,
        _ => Session { stage: stage_after(e), touched: now, ..s },
    }
}

/// What becomes of request `e` on session `s` at time `now`.
pub open spec fn outcome(s: Session, e: Endpoint, now: u64, ttl: Timeouts) -> Result<
    StepView,
    ProtocolError,
> {
    match refusal(s, e, now, ttl) {
        Some(err) => Err(err),
        None => Ok(
            StepView {
                reads: reads_of(e),
                writes: writes_of(e),
                removes: removes_of(e),
                next: successor(s, e, now),
            },
        ),
    }
}

/// Whether the step that was returned is the one that `expected` names.
pub open spec fn agrees(got: Result<Step, ProtocolError>, expected: Result<StepView, ProtocolError>) -> bool {
    match got {
        Ok(step) => expected == Ok::<StepView, ProtocolError>(step@),
        Err(e) => expected == Err::<StepView, ProtocolError>(e),
    }
}

impl Endpoint {
    /// The artifacts that the request loads, in order.
    pub fn reads(&self) -> (v: Vec<EcdsaStruct>)
        ensures
            v@ == reads_of(*self),
    {
        let v = match self {
            Endpoint::KeygenSecond => vec![EcdsaStruct::CommWitness, EcdsaStruct::EcKeyPair],
            Endpoint::ChainCodeSecond => vec![
                EcdsaStruct::CCCommWitness,
                EcdsaStruct::CCEcKeyPair,
                EcdsaStruct::Party2Public,
                EcdsaStruct::PaillierKeyPair,
                EcdsaStruct::CC,
                EcdsaStruct::Party1Private,
                EcdsaStruct::CommWitness,
            ],
            Endpoint::ChainCodeCompute => vec![EcdsaStruct::CCEcKeyPair],
            Endpoint::MasterKey => vec![
                EcdsaStruct::Party2Public,
                EcdsaStruct::PaillierKeyPair,
                EcdsaStruct::CC,
                EcdsaStruct::Party1Private,
                EcdsaStruct::CommWitness,
            ],
            Endpoint::SignSecond(_) => vec![
                EcdsaStruct::Party1MasterKey,
                EcdsaStruct::EphEcKeyPair,
                EcdsaStruct::EphKeyGenFirstMsg,
            ],
            Endpoint::GetMk => vec![EcdsaStruct::Party1MasterKey],
            Endpoint::RotateSecond => vec![
                EcdsaStruct::Party1MasterKey,
                EcdsaStruct::RotateCommitMessage1M,
                EcdsaStruct::RotateCommitMessage1R,
            ],
            Endpoint::Recover => vec![EcdsaStruct::POS],
            Endpoint::KeygenFirst
            | Endpoint::ChainCodeFirst
            | Endpoint::SignFirst
            | Endpoint::RotateFirst => Vec::new(),
        };
        v
    }

    /// The artifacts that the request stores when its round has succeeded, in
    /// order.
    pub fn writes(&self) -> (v: Vec<EcdsaStruct>)
        ensures
            v@ == writes_of(*self),
    {
        let v = match self {
            Endpoint::KeygenFirst => vec![
                EcdsaStruct::POS,
                EcdsaStruct::KeyGenFirstMsg,
                EcdsaStruct::CommWitness,
                EcdsaStruct::EcKeyPair,
            ],
            Endpoint::KeygenSecond => vec![
                EcdsaStruct::Party2Public,
                EcdsaStruct::PaillierKeyPair,
                EcdsaStruct::Party1Private,
            ],
            Endpoint::ChainCodeFirst => vec![
                EcdsaStruct::CCKeyGenFirstMsg,
                EcdsaStruct::CCCommWitness,
                EcdsaStruct::CCEcKeyPair,
            ],
            Endpoint::ChainCodeSecond => vec![EcdsaStruct::CC, EcdsaStruct::Party1MasterKey],
            Endpoint::ChainCodeCompute => vec![EcdsaStruct::CC],
            Endpoint::MasterKey => vec![EcdsaStruct::Party1MasterKey],
            Endpoint::SignFirst => vec![EcdsaStruct::EphKeyGenFirstMsg, EcdsaStruct::EphEcKeyPair],
            Endpoint::RotateFirst => vec![
                EcdsaStruct::RotateCommitMessage1M,
                EcdsaStruct::RotateCommitMessage1R,
            ],
            Endpoint::RotateSecond => vec![EcdsaStruct::RotateRandom1, EcdsaStruct::Party1MasterKey],
            Endpoint::SignSecond(_) => vec![EcdsaStruct::POS],
            Endpoint::GetMk | Endpoint::Recover => Vec::new(),
        };
        v
    }

    /// The artifacts that the request uses up.
    pub fn removes(&self) -> (v: Vec<EcdsaStruct>)
        ensures
            v@ == removes_of(*self),
    {
        let v = match self {
            Endpoint::SignSecond(_) => vec![EcdsaStruct::EphEcKeyPair, EcdsaStruct::EphKeyGenFirstMsg],
            Endpoint::RotateSecond => vec![
                EcdsaStruct::RotateCommitMessage1M,
                EcdsaStruct::RotateCommitMessage1R,
            ],
            _ => Vec::new(),
        };
        v
    }

    /// The stage at which key generation must stand for the request to be in
    /// order.
    pub fn before(&self) -> (stage: KeygenStage)
        ensures
            stage == stage_before(*self),
    {
        match self {
            Endpoint::KeygenFirst => KeygenStage::Init,
            Endpoint::KeygenSecond => KeygenStage::P1Committed,
            Endpoint::ChainCodeFirst => KeygenStage::P2Responded,
            Endpoint::ChainCodeSecond => KeygenStage::ChainStarted,
            Endpoint::ChainCodeCompute => KeygenStage::ChainStarted,
            Endpoint::MasterKey => KeygenStage::ChainDone,
            _ => KeygenStage::MasterReady,
        }
    }

    /// The stage at which the request leaves key generation.
    pub fn after(&self) -> (stage: KeygenStage)
        ensures
            stage == stage_after(*self),
    {
        match self {
            Endpoint::KeygenFirst => KeygenStage::P1Committed,
            Endpoint::KeygenSecond => KeygenStage::P2Responded,
            Endpoint::ChainCodeFirst => KeygenStage::ChainStarted,
            Endpoint::ChainCodeSecond => KeygenStage::MasterReady,
            Endpoint::ChainCodeCompute => KeygenStage::ChainDone,
            _ => KeygenStage::MasterReady,
        }
    }
}

/// Whether `since` lies more than `ttl` seconds before `now`.
pub fn is_overdue(since: u64, now: u64, ttl: u64) -> (late: bool)
    ensures
        late == overdue(since, now, ttl),
{
    now > since && now - since > ttl
}

impl Session {
    /// Whether key generation was begun, not finished, and left for too long.
    pub fn is_keygen_expired(&self, now: u64, ttl: Timeouts) -> (expired: bool)
        ensures
            expired == self.keygen_expired(now, ttl),
    {
        self.stage != KeygenStage::Init && self.stage != KeygenStage::MasterReady && is_overdue(
            self.touched,
            now,
            ttl.session,
        )
    }

    /// Whether a signing round is open and was left for too long.
    pub fn is_signing_expired(&self, now: u64, ttl: Timeouts) -> (expired: bool)
        ensures
            expired == self.signing_expired(now, ttl),
    {
        self.signing && is_overdue(self.sign_opened, now, ttl.signing)
    }

    /// Whether a rotation round is open and was left for too long.
    pub fn is_rotation_expired(&self, now: u64, ttl: Timeouts) -> (expired: bool)
        ensures
            expired == self.rotation_expired(now, ttl),
    {
        self.rotating && is_overdue(self.rotate_opened, now, ttl.session)
    }

    /// Decides whether request `e` at time `now` is in order, and with which
    /// error it is turned away if it is not.
    pub fn refuse(&self, e: Endpoint, now: u64, ttl: Timeouts) -> (r: Option<ProtocolError>)
        ensures
            r == refusal(*self, e, now, ttl),
    {
        if e == Endpoint::KeygenFirst {
            return if self.stage == KeygenStage::Init {
                None
            } else {
                Some(ProtocolError::ProtocolReject)
            };
        }
        if self.stage == KeygenStage::Init {
            return Some(ProtocolError::SessionMissing);
        }
        if self.is_keygen_expired(now, ttl) {
            return Some(ProtocolError::SessionExpired);
        }
        if e == Endpoint::Recover {
            return None;
        }
        let have = self.stage.position();
        let need = e.before().position();
        if have < need {
            return Some(ProtocolError::SessionMissing);
        }
        if have > need {
            return Some(ProtocolError::ProtocolReject);
        }
        match e {
            Endpoint::SignFirst => if self.signing && !self.is_signing_expired(now, ttl) {
                Some(ProtocolError::ProtocolReject)
            } else {
                None
            },
            Endpoint::SignSecond(_) => if !self.signing {
                Some(ProtocolError::SessionMissing)
            } else if self.is_signing_expired(now, ttl) {
                Some(ProtocolError::SessionExpired)
            } else {
                None
            },
            Endpoint::RotateFirst => if self.rotating && !self.is_rotation_expired(now, ttl) {
                Some(ProtocolError::ProtocolReject)
            } else {
                None
            },
            Endpoint::RotateSecond => if !self.rotating {
                Some(ProtocolError::SessionMissing)
            } else if self.is_rotation_expired(now, ttl) {
                Some(ProtocolError::SessionExpired)
            } else {
                None
            },
            _ => None,
        }
    }

    /// The session after request `e`, served at time `now`.
    pub fn succeed(&self, e: Endpoint, now: u64) -> (next: Session)
        ensures
            next == successor(*self, e, now),
    {
        let mut next = *self;
        match e {
            Endpoint::SignFirst => {
                next.signing = true;
                next.sign_opened = now;
            },
            Endpoint::SignSecond(child) => {
                next.signing = false;
                if child > next.pos {
                    next.pos = child;
                }
            },
            Endpoint::RotateFirst => {
                next.rotating = true;
                next.rotate_opened = now;
            },
            Endpoint::RotateSecond => {
                next.rotating = false;
            },
            Endpoint::GetMk | Endpoint::Recover => {},
            _ => {
                next.stage = e.after();
                next.touched = now;
            },
        }
        next
    }

    /// Serves request `e` at time `now`, or turns it away.
    ///
    /// The caller loads what the step reads, runs the cryptographic round,
    /// stores what the step writes if the round succeeded, deletes what the
    /// step removes, and keeps the step's session in place of this one. When
    /// the round fails, [`Session::abort`] says what is left.
    pub fn step(&self, e: Endpoint, now: u64, ttl: Timeouts) -> (r: Result<Step, ProtocolError>)
        ensures
            agrees(r, outcome(*self, e, now, ttl)),
    {
        match self.refuse(e, now, ttl) {
            Some(err) => Err(err),
            None => Ok(
                Step {
                    reads: e.reads(),
                    writes: e.writes(),
                    removes: e.removes(),
                    next: self.succeed(e, now),
                },
            ),
        }
    }
}

/// Everything that key generation stores.
pub open spec fn keygen_artifacts() -> Seq<EcdsaStruct> {
    seq![
        EcdsaStruct::POS,
        EcdsaStruct::KeyGenFirstMsg,
        EcdsaStruct::CommWitness,
        EcdsaStruct::EcKeyPair,
        EcdsaStruct::Party2Public,
        EcdsaStruct::PaillierKeyPair,
        EcdsaStruct::Party1Private,
        EcdsaStruct::CCKeyGenFirstMsg,
        EcdsaStruct::CCCommWitness,
        EcdsaStruct::CCEcKeyPair,
        EcdsaStruct::CC,
        EcdsaStruct::Party1MasterKey,
    ]
}

/// What a signing round stores between its two requests.
pub open spec fn signing_artifacts() -> Seq<EcdsaStruct> {
    seq![EcdsaStruct::EphEcKeyPair, EcdsaStruct::EphKeyGenFirstMsg]
}

/// What a rotation round stores between its two requests.
pub open spec fn rotation_artifacts() -> Seq<EcdsaStruct> {
    seq![EcdsaStruct::RotateCommitMessage1M, EcdsaStruct::RotateCommitMessage1R]
}

/// What is left when the cryptographic round of request `e` has failed on the
/// stored session `s`: a failed key generation destroys the session, a failed
/// signing or rotation round destroys the round. A sealed session is not
/// destroyed: no round of key generation runs on it.
pub open spec fn aborted(s: Session, e: Endpoint) -> StepView {
    match e {
        Endpoint::SignFirst | Endpoint::SignSecond(_) => StepView {
            reads: seq![],
            writes: seq![],
            removes: signing_artifacts(),
            next: Session { signing: false, ..s },
        },
        Endpoint::RotateFirst | Endpoint::RotateSecond => StepView {
            reads: seq![],
            writes: seq![],
            removes: rotation_artifacts(),
            next: Session { rotating: false, ..s },
        },
        Endpoint::GetMk | Endpoint::Recover => StepView {
            reads: seq![],
            writes: seq![],
            removes: seq![],
            next: s,
        },
        _ => if s.stage == KeygenStage::MasterReady {
            StepView { reads: seq![], writes: seq![], removes: seq![], next: s }
        } else {
            StepView {
                reads: seq![],
                writes: seq![],
                removes: keygen_artifacts() + signing_artifacts() + rotation_artifacts(),
                next: Session::spec_new(),
            }
        },
    }
}

/// What is left when everything that has expired by `now` is given up.
pub open spec fn reclaimed(s: Session, now: u64, ttl: Timeouts) -> StepView {
    if s.keygen_expired(now, ttl) {
        aborted(s, Endpoint::KeygenFirst)
    } else {
        StepView {
            reads: seq![],
            writes: seq![],
            removes: (if s.signing_expired(now, ttl) {
                signing_artifacts()
            } else {
                seq![]
            }) + (if s.rotation_expired(now, ttl) {
                rotation_artifacts()
            } else {
                seq![]
            }),
            next: Session {
                signing: s.signing && !s.signing_expired(now, ttl),
                rotating: s.rotating && !s.rotation_expired(now, ttl),
                ..s
            },
        }
    }
}

/// The artifacts of an open signing round.
pub fn signing_round() -> (v: Vec<EcdsaStruct>)
    ensures
        v@ == signing_artifacts(),
{
    vec![EcdsaStruct::EphEcKeyPair, EcdsaStruct::EphKeyGenFirstMsg]
}

/// The artifacts of an open rotation round.
pub fn rotation_round() -> (v: Vec<EcdsaStruct>)
    ensures
        v@ == rotation_artifacts(),
{
    vec![EcdsaStruct::RotateCommitMessage1M, EcdsaStruct::RotateCommitMessage1R]
}

/// Everything that a session may have stored.
pub fn whole_session() -> (v: Vec<EcdsaStruct>)
    ensures
        v@ == keygen_artifacts() + signing_artifacts() + rotation_artifacts(),
{
    let v = vec![
        EcdsaStruct::POS,
        EcdsaStruct::KeyGenFirstMsg,
        EcdsaStruct::CommWitness,
        EcdsaStruct::EcKeyPair,
        EcdsaStruct::Party2Public,
        EcdsaStruct::PaillierKeyPair,
        EcdsaStruct::Party1Private,
        EcdsaStruct::CCKeyGenFirstMsg,
        EcdsaStruct::CCCommWitness,
        EcdsaStruct::CCEcKeyPair,
        EcdsaStruct::CC,
        EcdsaStruct::Party1MasterKey,
        EcdsaStruct::EphEcKeyPair,
        EcdsaStruct::EphKeyGenFirstMsg,
        EcdsaStruct::RotateCommitMessage1M,
        EcdsaStruct::RotateCommitMessage1R,
    ];
    v
}

impl Session {
    /// Gives up what the failed round of request `e` was working on.
    ///
    /// `self` is the session as it is stored, that is, as it was before the
    /// request. The caller deletes what the step removes and keeps the step's
    /// session.
    pub fn abort(&self, e: Endpoint) -> (step: Step)
        ensures
            step@ == aborted(*self, e),
    {
        let mut next = *self;
        let removes = match e {
            Endpoint::SignFirst | Endpoint::SignSecond(_) => {
                next.signing = false;
                signing_round()
            },
            Endpoint::RotateFirst | Endpoint::RotateSecond => {
                next.rotating = false;
                rotation_round()
            },
            Endpoint::GetMk | Endpoint::Recover => Vec::new(),
            _ => if self.stage == KeygenStage::MasterReady {
                Vec::new()
            } else {
                next = Session::new();
                whole_session()
            },
        };
        let step = Step { reads: Vec::new(), writes: Vec::new(), removes, next };
        step
    }

    /// Gives up whatever has expired by `now`: the whole session if its key
    /// generation was left unfinished, else the rounds that were left open.
    pub fn reclaim(&self, now: u64, ttl: Timeouts) -> (step: Step)
        ensures
            step@ == reclaimed(*self, now, ttl),
    {
        if self.is_keygen_expired(now, ttl) {
            return self.abort(Endpoint::KeygenFirst);
        }
        let mut next = *self;
        let mut removes: Vec<EcdsaStruct> = Vec::new();
        if self.is_signing_expired(now, ttl) {
            next.signing = false;
            removes.push(EcdsaStruct::EphEcKeyPair);
            removes.push(EcdsaStruct::EphKeyGenFirstMsg);
        }
        if self.is_rotation_expired(now, ttl) {
            next.rotating = false;
            removes.push(EcdsaStruct::RotateCommitMessage1M);
            removes.push(EcdsaStruct::RotateCommitMessage1R);
        }
        let step = Step { reads: Vec::new(), writes: Vec::new(), removes, next };
        assert(step@.removes =~= reclaimed(*self, now, ttl).removes);
        step
    }
}

/// Stages only move forward, and the child index only grows: a served request
/// leaves the session at a stage no earlier, and at a child index no lower,
/// than it found it.
pub proof fn lemma_progress_is_monotone(s: Session, e: Endpoint, now: u64, ttl: Timeouts)
    ensures
        outcome(s, e, now, ttl) matches Ok(step) ==> {
            &&& step.next.stage.rank() >= s.stage.rank()
            &&& step.next.pos >= s.pos
        },
{
}

/// A sealed session stays sealed: once the master key is ready, no request,
/// no abort and no reclaiming changes the stage.
pub proof fn lemma_sealed_stays_sealed(s: Session, e: Endpoint, now: u64, ttl: Timeouts)
    requires
        s.stage == KeygenStage::MasterReady,
    ensures
        outcome(s, e, now, ttl) matches Ok(step) ==> step.next.stage == KeygenStage::MasterReady,
        reclaimed(s, now, ttl).next.stage == KeygenStage::MasterReady,
        aborted(s, e).next.stage == KeygenStage::MasterReady,
        outcome(s, e, now, ttl) matches Ok(step) ==> step.next.held().contains(
            EcdsaStruct::Party1MasterKey,
        ),
        reclaimed(s, now, ttl).next.held().contains(EcdsaStruct::Party1MasterKey),
        aborted(s, e).next.held().contains(EcdsaStruct::Party1MasterKey),
{
}

/// Rotation leaves the session where it was: when the second rotation request
/// has been served, the session is still sealed, the child index is what it
/// was, an open signing round is still open, and the master key is held.
pub proof fn lemma_rotation_keeps_the_session(s: Session, now: u64, ttl: Timeouts)
    requires
        outcome(s, Endpoint::RotateSecond, now, ttl) is Ok,
    ensures
        ({
            let rotated = outcome(s, Endpoint::RotateSecond, now, ttl)->Ok_0.next;
            &&& rotated.stage == KeygenStage::MasterReady
            &&& rotated.stage == s.stage
            &&& rotated.pos == s.pos
            &&& rotated.signing == s.signing
            &&& rotated.sign_opened == s.sign_opened
            &&& !rotated.rotating
            &&& rotated.held().contains(EcdsaStruct::Party1MasterKey)
            &&& refusal(rotated, Endpoint::SignFirst, now, ttl) == refusal(
                s,
                Endpoint::SignFirst,
                now,
                ttl,
            )
        }),
{
}

/// A failed key generation leaves no master key behind: after the abort of a
/// session that was not yet sealed, nothing is held, and every request but
/// the first finds the session missing.
pub proof fn lemma_failed_keygen_leaves_nothing(
    s: Session,
    failed: Endpoint,
    e: Endpoint,
    now: u64,
    ttl: Timeouts,
    a: EcdsaStruct,
)
    requires
        moves_stage(failed),
        s.stage != KeygenStage::MasterReady,
    ensures
        !aborted(s, failed).next.held().contains(a),
        aborted(s, failed).removes.contains(EcdsaStruct::Party1MasterKey),
        e != Endpoint::KeygenFirst ==> outcome(aborted(s, failed).next, e, now, ttl) == Err::<
            StepView,
            ProtocolError,
        >(ProtocolError::SessionMissing),
{
    let all = keygen_artifacts() + signing_artifacts() + rotation_artifacts();
    assert(all[11] == EcdsaStruct::Party1MasterKey);
}

/// No request advances a session twice. If request `e` was served at `now`
/// and is posted again at `later` while what it began is still in progress,
/// then the second posting either is turned away or is served without
/// changing the session, with the same reads and the same writes.
pub proof fn lemma_repost_never_advances(
    s: Session,
    e: Endpoint,
    now: u64,
    later: u64,
    ttl: Timeouts,
)
    requires
        outcome(s, e, now, ttl) is Ok,
        e == Endpoint::SignFirst ==> !overdue(now, later, ttl.signing),
        e == Endpoint::RotateFirst ==> !overdue(now, later, ttl.session),
    ensures
        ({
            let first = outcome(s, e, now, ttl)->Ok_0;
            match outcome(first.next, e, later, ttl) {
                Ok(second) => {
                    &&& second.next == first.next
                    &&& second.reads == first.reads
                    &&& second.writes == first.writes
                    &&& (e == Endpoint::GetMk || e == Endpoint::Recover)
                },
                Err(err) => {
                    ||| err == ProtocolError::ProtocolReject
                    ||| err == ProtocolError::SessionMissing
                    ||| err == ProtocolError::SessionExpired
                },
            }
        }),
{
}

/// A signing round signs once. After the second signing request has been
/// served, a further one finds no round, whatever the time and the child.
pub proof fn lemma_sign_session_is_one_shot(
    s: Session,
    child: u32,
    now: u64,
    again: u32,
    later: u64,
    ttl: Timeouts,
)
    requires
        outcome(s, Endpoint::SignSecond(child), now, ttl) is Ok,
    ensures
        ({
            let signed = outcome(s, Endpoint::SignSecond(child), now, ttl)->Ok_0;
            &&& !signed.next.signing
            &&& !signed.next.held().contains(EcdsaStruct::EphEcKeyPair)
            &&& !signed.next.held().contains(EcdsaStruct::EphKeyGenFirstMsg)
            &&& outcome(signed.next, Endpoint::SignSecond(again), later, ttl) is Err
        }),
{
}

/// No artifact is read before its stage. Whatever a served request loads is
/// held by the session it was posted on; the one exception is the chain code
/// that the second chain-code request stores and loads again itself.
pub proof fn lemma_reads_are_held(s: Session, e: Endpoint, now: u64, ttl: Timeouts, i: int)
    requires
        outcome(s, e, now, ttl) is Ok,
        0 <= i < reads_of(e).len(),
    ensures
        s.held().contains(reads_of(e)[i]) || (e == Endpoint::ChainCodeSecond && reads_of(e)[i]
            == EcdsaStruct::CC && writes_of(e).contains(EcdsaStruct::CC)),
{
}

/// What a session is taken to hold is really there: every artifact that the
/// session holds after a served request was held before or was stored by the
/// request, and was not used up by it.
pub proof fn lemma_held_is_stored(
    s: Session,
    e: Endpoint,
    now: u64,
    ttl: Timeouts,
    a: EcdsaStruct,
)
    requires
        outcome(s, e, now, ttl) is Ok,
        successor(s, e, now).held().contains(a),
    ensures
        s.held().contains(a) || writes_of(e).contains(a),
        !removes_of(e).contains(a),
{
    let w = writes_of(e);
    match e {
        Endpoint::KeygenFirst => {
            assert(w[0] == EcdsaStruct::POS);
            assert(w[1] == EcdsaStruct::KeyGenFirstMsg);
            assert(w[2] == EcdsaStruct::CommWitness);
            assert(w[3] == EcdsaStruct::EcKeyPair);
        },
        Endpoint::KeygenSecond => {
            assert(w[0] == EcdsaStruct::Party2Public);
            assert(w[1] == EcdsaStruct::PaillierKeyPair);
            assert(w[2] == EcdsaStruct::Party1Private);
        },
        Endpoint::ChainCodeFirst => {
            assert(w[0] == EcdsaStruct::CCKeyGenFirstMsg);
            assert(w[1] == EcdsaStruct::CCCommWitness);
            assert(w[2] == EcdsaStruct::CCEcKeyPair);
        },
        Endpoint::ChainCodeSecond => {
            assert(w[0] == EcdsaStruct::CC);
            assert(w[1] == EcdsaStruct::Party1MasterKey);
        },
        Endpoint::ChainCodeCompute => {
            assert(w[0] == EcdsaStruct::CC);
        },
        Endpoint::MasterKey => {
            assert(w[0] == EcdsaStruct::Party1MasterKey);
        },
        Endpoint::SignFirst => {
            assert(w[0] == EcdsaStruct::EphKeyGenFirstMsg);
            assert(w[1] == EcdsaStruct::EphEcKeyPair);
        },
        Endpoint::RotateFirst => {
            assert(w[0] == EcdsaStruct::RotateCommitMessage1M);
            assert(w[1] == EcdsaStruct::RotateCommitMessage1R);
        },
        _ => {},
    }
}

/// Nothing of a destroyed session or round is counted on: what is held after
/// an abort was held before and is not among what the abort deletes. After
/// reclaiming, nothing is expired any more.
pub proof fn lemma_abort_forgets(s: Session, e: Endpoint, now: u64, ttl: Timeouts, a: EcdsaStruct)
    ensures
        aborted(s, e).next.held().contains(a) ==> s.held().contains(a) && !aborted(
            s,
            e,
        ).removes.contains(a),
        reclaimed(s, now, ttl).next.held().contains(a) ==> s.held().contains(a) && !reclaimed(
            s,
            now,
            ttl,
        ).removes.contains(a),
        !reclaimed(s, now, ttl).next.keygen_expired(now, ttl),
        !reclaimed(s, now, ttl).next.signing_expired(now, ttl),
        !reclaimed(s, now, ttl).next.rotation_expired(now, ttl),
{
}

} // verus!
