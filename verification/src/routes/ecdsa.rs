//! The two-party ECDSA endpoints: what each stores and in which order they
//! may be called.

use vstd::prelude::*;
use crate::routes::session::{
    agrees, outcome, overdue, Endpoint, KeygenStage, ProtocolError, Session, Step, StepView,
    Timeouts,
};
use crate::storage::db::{spec_idify, MPCStruct};
use crate::text::new_id;

verus! {

/// The kinds of artifact that the ECDSA endpoints keep between requests.
#[derive(Debug, Clone, Copy, PartialEq, Eq, Structural)]
pub enum EcdsaStruct {
    KeyGenFirstMsg,
    CommWitness,
    EcKeyPair,
    PaillierKeyPair,
    Party1Private,
    Party2Public,
    PDLProver,
    PDLDecommit,
    Alpha,
    Party2PDLFirstMsg,
    CCKeyGenFirstMsg,
    CCCommWitness,
    CCEcKeyPair,
    CC,
    Party1MasterKey,
    EphEcKeyPair,
    EphKeyGenFirstMsg,
    RotateCommitMessage1M,
    RotateCommitMessage1R,
    RotateRandom1,
    RotateFirstMsg,
    RotatePrivateNew,
    RotatePdlDecom,
    RotateParty2First,
    RotateParty1Second,
    POS,
}

impl MPCStruct for EcdsaStruct {
    /// The tag is the name of the kind.
    open spec fn tag(&self) -> Seq<char> {
        match self {
            EcdsaStruct::KeyGenFirstMsg => "KeyGenFirstMsg"@,
            EcdsaStruct::CommWitness => "CommWitness"@,
            EcdsaStruct::EcKeyPair => "EcKeyPair"@,
            EcdsaStruct::PaillierKeyPair => "PaillierKeyPair"@,
            EcdsaStruct::Party1Private => "Party1Private"@,
            EcdsaStruct::Party2Public => "Party2Public"@,
            EcdsaStruct::PDLProver => "PDLProver"@,
            EcdsaStruct::PDLDecommit => "PDLDecommit"@,
            EcdsaStruct::Alpha => "Alpha"@,
            EcdsaStruct::Party2PDLFirstMsg => "Party2PDLFirstMsg"@,
            EcdsaStruct::CCKeyGenFirstMsg => "CCKeyGenFirstMsg"@,
            EcdsaStruct::CCCommWitness => "CCCommWitness"@,
            EcdsaStruct::CCEcKeyPair => "CCEcKeyPair"@,
            EcdsaStruct::CC => "CC"@,
            EcdsaStruct::Party1MasterKey => "Party1MasterKey"@,
            EcdsaStruct::EphEcKeyPair => "EphEcKeyPair"@,
            EcdsaStruct::EphKeyGenFirstMsg => "EphKeyGenFirstMsg"@,
            EcdsaStruct::RotateCommitMessage1M => "RotateCommitMessage1M"@,
            EcdsaStruct::RotateCommitMessage1R => "RotateCommitMessage1R"@,
            EcdsaStruct::RotateRandom1 => "RotateRandom1"@,
            EcdsaStruct::RotateFirstMsg => "RotateFirstMsg"@,
            EcdsaStruct::RotatePrivateNew => "RotatePrivateNew"@,
            EcdsaStruct::RotatePdlDecom => "RotatePdlDecom"@,
            EcdsaStruct::RotateParty2First => "RotateParty2First"@,
            EcdsaStruct::RotateParty1Second => "RotateParty1Second"@,
            EcdsaStruct::POS => "POS"@,
        }
    }

    fn to_string(&self) -> (s: String) {
        let name = match self {
            EcdsaStruct::KeyGenFirstMsg => "KeyGenFirstMsg",
            EcdsaStruct::CommWitness => "CommWitness",
            EcdsaStruct::EcKeyPair => "EcKeyPair",
            EcdsaStruct::PaillierKeyPair => "PaillierKeyPair",
            EcdsaStruct::Party1Private => "Party1Private",
            EcdsaStruct::Party2Public => "Party2Public",
            EcdsaStruct::PDLProver => "PDLProver",
            EcdsaStruct::PDLDecommit => "PDLDecommit",
            EcdsaStruct::Alpha => "Alpha",
            EcdsaStruct::Party2PDLFirstMsg => "Party2PDLFirstMsg",
            EcdsaStruct::CCKeyGenFirstMsg => "CCKeyGenFirstMsg",
            EcdsaStruct::CCCommWitness => "CCCommWitness",
            EcdsaStruct::CCEcKeyPair => "CCEcKeyPair",
            EcdsaStruct::CC => "CC",
            EcdsaStruct::Party1MasterKey => "Party1MasterKey",
            EcdsaStruct::EphEcKeyPair => "EphEcKeyPair",
            EcdsaStruct::EphKeyGenFirstMsg => "EphKeyGenFirstMsg",
            EcdsaStruct::RotateCommitMessage1M => "RotateCommitMessage1M",
            EcdsaStruct::RotateCommitMessage1R => "RotateCommitMessage1R",
            EcdsaStruct::RotateRandom1 => "RotateRandom1",
            EcdsaStruct::RotateFirstMsg => "RotateFirstMsg",
            EcdsaStruct::RotatePrivateNew => "RotatePrivateNew",
            EcdsaStruct::RotatePdlDecom => "RotatePdlDecom",
            EcdsaStruct::RotateParty2First => "RotateParty2First",
            EcdsaStruct::RotateParty1Second => "RotateParty1Second",
            EcdsaStruct::POS => "POS",
        };
        String::from_str(name)
    }

    /// Only the server's master key is bound to its customer.
    fn require_customer_id(&self) -> (required: bool)
        ensures
            required <==> *self == EcdsaStruct::Party1MasterKey,
    {
        match self {
            EcdsaStruct::Party1MasterKey => true,
            _ => false,
        }
    }
}

/// No two kinds of artifact share a tag.
pub proof fn lemma_tags_differ(a: EcdsaStruct, b: EcdsaStruct)
    requires
        a.tag() == b.tag(),
    ensures
        a == b,
{
    reveal_strlit("KeyGenFirstMsg");
    reveal_strlit("CommWitness");
    reveal_strlit("EcKeyPair");
    reveal_strlit("PaillierKeyPair");
    reveal_strlit("Party1Private");
    reveal_strlit("Party2Public");
    reveal_strlit("PDLProver");
    reveal_strlit("PDLDecommit");
    reveal_strlit("Alpha");
    reveal_strlit("Party2PDLFirstMsg");
    reveal_strlit("CCKeyGenFirstMsg");
    reveal_strlit("CCCommWitness");
    reveal_strlit("CCEcKeyPair");
    reveal_strlit("CC");
    reveal_strlit("Party1MasterKey");
    reveal_strlit("EphEcKeyPair");
    reveal_strlit("EphKeyGenFirstMsg");
    reveal_strlit("RotateCommitMessage1M");
    reveal_strlit("RotateCommitMessage1R");
    reveal_strlit("RotateRandom1");
    reveal_strlit("RotateFirstMsg");
    reveal_strlit("RotatePrivateNew");
    reveal_strlit("RotatePdlDecom");
    reveal_strlit("RotateParty2First");
    reveal_strlit("RotateParty1Second");
    reveal_strlit("POS");
    if a != b {
        let ta = a.tag();
        let tb = b.tag();
        assert(ta.len() == tb.len());
        assert(ta[0] == tb[0]);
        assert(ta.len() > 6 ==> ta[6] == tb[6]);
        assert(ta.len() > 20 ==> ta[20] == tb[20]);
    }
}

/// No two artifacts of a session share a key: the keys of two kinds of
/// artifact, for the same user and session, differ.
pub proof fn lemma_keys_differ(user_id: Seq<char>, id: Seq<char>, a: EcdsaStruct, b: EcdsaStruct)
    requires
        a != b,
    ensures
        spec_idify(user_id, id, a.tag()) != spec_idify(user_id, id, b.tag()),
{
    let front = user_id + seq!['_'] + id + seq!['_'];
    let ka = spec_idify(user_id, id, a.tag());
    let kb = spec_idify(user_id, id, b.tag());
    if ka == kb {
        assert(ka.skip(front.len() as int) =~= a.tag());
        assert(kb.skip(front.len() as int) =~= b.tag());
        lemma_tags_differ(a, b);
    }
}

/// The position in the key hierarchy up to which children have been issued.
#[derive(Debug, Clone, Copy, PartialEq, Eq, Structural)]
pub struct HDPos {
    pub pos: u32,
}

/// What [`missing`] says of artifact `tag` and session `id`.
pub open spec fn spec_missing(tag: Seq<char>, id: Seq<char>) -> Seq<char> {
    "No "@ + tag + " for such identifier "@ + id
}

/// The text that tells a caller that session `id` does not hold artifact
/// `name`.
pub fn missing(name: &EcdsaStruct, id: &str) -> (text: String)
    ensures
        text@ == spec_missing(name.tag(), id@),
{
    let tag = name.to_string();
    let mut text = String::from_str("No ");
    text.append(tag.as_str());
    text.append(" for such identifier ");
    text.append(id);
    text
}

/// First key-generation request: opens a session at time `now`, under a
/// fresh identifier.
///
/// The server commits to its share; the commitment, its witness and the key
/// pair are stored together with the initial child index, which is zero.
pub fn first_message(now: u64, ttl: Timeouts) -> (opened: (String, Step))
    ensures
        outcome(Session::spec_new(), Endpoint::KeygenFirst, now, ttl) == Ok::<
            StepView,
            ProtocolError,
        >(opened.1@),
        opened.1.next.stage == KeygenStage::P1Committed,
        opened.1.next.pos == 0,
{
    let e = Endpoint::KeygenFirst;
    let step = Step {
        reads: e.reads(),
        writes: e.writes(),
        removes: e.removes(),
        next: Session::new().succeed(e, now),
    };
    (new_id(), step)
}

/// Second key-generation request: the client's share has arrived. The server
/// checks the client's proof, opens its commitment and sets up its Paillier
/// key.
pub fn second_message(session: &Session, now: u64, ttl: Timeouts) -> (r: Result<
    Step,
    ProtocolError,
>)
    ensures
        agrees(r, outcome(*session, Endpoint::KeygenSecond, now, ttl)),
        r is Ok <==> session.stage == KeygenStage::P1Committed && !overdue(
            session.touched,
            now,
            ttl.session,
        ),
        r matches Ok(step) ==> step.next.stage == KeygenStage::P2Responded,
{
    session.step(Endpoint::KeygenSecond, now, ttl)
}

/// First chain-code request: the server commits to its contribution.
pub fn chain_code_first_message(session: &Session, now: u64, ttl: Timeouts) -> (r: Result<
    Step,
    ProtocolError,
>)
    ensures
        agrees(r, outcome(*session, Endpoint::ChainCodeFirst, now, ttl)),
        r is Ok <==> session.stage == KeygenStage::P2Responded && !overdue(
            session.touched,
            now,
            ttl.session,
        ),
        r matches Ok(step) ==> step.next.stage == KeygenStage::ChainStarted,
{
    session.step(Endpoint::ChainCodeFirst, now, ttl)
}

/// Second chain-code request: the server checks the client's proof, opens its
/// commitment, computes the chain code and assembles the master key, all in
/// one.
pub fn chain_code_second_message(session: &Session, now: u64, ttl: Timeouts) -> (r: Result<
    Step,
    ProtocolError,
>)
    ensures
        agrees(r, outcome(*session, Endpoint::ChainCodeSecond, now, ttl)),
        r is Ok <==> session.stage == KeygenStage::ChainStarted && !overdue(
            session.touched,
            now,
            ttl.session,
        ),
        r matches Ok(step) ==> step.next.stage == KeygenStage::MasterReady,
{
    session.step(Endpoint::ChainCodeSecond, now, ttl)
}

/// Computes the chain code from the server's key pair and the client's public
/// contribution.
pub fn chain_code_compute_message(session: &Session, now: u64, ttl: Timeouts) -> (r: Result<
    Step,
    ProtocolError,
>)
    ensures
        agrees(r, outcome(*session, Endpoint::ChainCodeCompute, now, ttl)),
        r is Ok <==> session.stage == KeygenStage::ChainStarted && !overdue(
            session.touched,
            now,
            ttl.session,
        ),
        r matches Ok(step) ==> step.next.stage == KeygenStage::ChainDone,
{
    session.step(Endpoint::ChainCodeCompute, now, ttl)
}

/// Assembles the server's master key from the results of key generation and
/// chain-code agreement, and seals the session.
pub fn master_key(session: &Session, now: u64, ttl: Timeouts) -> (r: Result<Step, ProtocolError>)
    ensures
        agrees(r, outcome(*session, Endpoint::MasterKey, now, ttl)),
        r is Ok <==> session.stage == KeygenStage::ChainDone && !overdue(
            session.touched,
            now,
            ttl.session,
        ),
        r matches Ok(step) ==> step.next.stage == KeygenStage::MasterReady,
{
    session.step(Endpoint::MasterKey, now, ttl)
}

/// First signing request: opens a signing round with a fresh ephemeral key.
pub fn sign_first(session: &Session, now: u64, ttl: Timeouts) -> (r: Result<Step, ProtocolError>)
    ensures
        agrees(r, outcome(*session, Endpoint::SignFirst, now, ttl)),
        r is Ok <==> session.stage == KeygenStage::MasterReady && (!session.signing || overdue(
            session.sign_opened,
            now,
            ttl.signing,
        )),
        r matches Ok(step) ==> step.next.signing && step.next.sign_opened == now,
{
    session.step(Endpoint::SignFirst, now, ttl)
}

/// Second signing request, for the child with index `child`: uses up the open
/// signing round, whether a signature comes of it or not.
pub fn sign_second(session: &Session, child: u32, now: u64, ttl: Timeouts) -> (r: Result<
    Step,
    ProtocolError,
>)
    ensures
        agrees(r, outcome(*session, Endpoint::SignSecond(child), now, ttl)),
        r is Ok <==> session.stage == KeygenStage::MasterReady && session.signing && !overdue(
            session.sign_opened,
            now,
            ttl.signing,
        ),
        r matches Ok(step) ==> !step.next.signing && step.next.pos >= session.pos
            && step.next.pos >= child,
{
    session.step(Endpoint::SignSecond(child), now, ttl)
}

/// Looks up the server's master key.
pub fn get_mk(session: &Session, now: u64, ttl: Timeouts) -> (r: Result<Step, ProtocolError>)
    ensures
        agrees(r, outcome(*session, Endpoint::GetMk, now, ttl)),
        r is Ok <==> session.stage == KeygenStage::MasterReady,
        r matches Ok(step) ==> step.next == *session,
{
    session.step(Endpoint::GetMk, now, ttl)
}

/// First rotation request: the server commits to its coin.
pub fn rotate_first(session: &Session, now: u64, ttl: Timeouts) -> (r: Result<Step, ProtocolError>)
    ensures
        agrees(r, outcome(*session, Endpoint::RotateFirst, now, ttl)),
        r is Ok <==> session.stage == KeygenStage::MasterReady && (!session.rotating || overdue(
            session.rotate_opened,
            now,
            ttl.session,
        )),
        r matches Ok(step) ==> step.next.rotating && step.next.rotate_opened == now,
{
    session.step(Endpoint::RotateFirst, now, ttl)
}

/// Second rotation request: the coin is flipped and the master key replaced
/// by the rotated one.
pub fn rotate_second(session: &Session, now: u64, ttl: Timeouts) -> (r: Result<
    Step,
    ProtocolError,
>)
    ensures
        agrees(r, outcome(*session, Endpoint::RotateSecond, now, ttl)),
        r is Ok <==> session.stage == KeygenStage::MasterReady && session.rotating && !overdue(
            session.rotate_opened,
            now,
            ttl.session,
        ),
        r matches Ok(step) ==> !step.next.rotating && step.next.stage == KeygenStage::MasterReady,
{
    session.step(Endpoint::RotateSecond, now, ttl)
}

/// Recovery request: the highest child index that the server has issued for
/// the session.
pub fn recover(session: &Session, now: u64, ttl: Timeouts) -> (r: Result<HDPos, ProtocolError>)
    ensures
        match r {
            Ok(at) => outcome(*session, Endpoint::Recover, now, ttl) is Ok && at.pos == session.pos,
            Err(e) => outcome(*session, Endpoint::Recover, now, ttl) == Err::<StepView, ProtocolError>(e),
        },
        r is Ok <==> session.stage != KeygenStage::Init && !session.keygen_expired(now, ttl),
{
    match session.refuse(Endpoint::Recover, now, ttl) {
        Some(err) => Err(err),
        None => Ok(HDPos { pos: session.pos }),
    }
}

} // verus!
