use vstd::prelude::*;
use crate::monero_keys::{group_order, is_canonical_scalar, le_value, monero_spend_key};

verus! {

/// What recovery reads of Alice's saved state once her Monero is locked.
#[derive(Clone, Copy, Debug, PartialEq, Eq)]
pub struct XmrLockedParams {
    /// Blocks after the lock transaction's confirmation before the cancel
    /// transaction may be published.
    pub refund_timelock: u32,
    /// Blocks after the cancel transaction's confirmation before Bob can be punished.
    pub punish_timelock: u32,
    /// Alice's share of the Monero spend key, a reduced Ed25519 scalar.
    pub s_a: [u8; 32],
    /// The Monero view key of the locked output.
    pub v: [u8; 32],
}

/// Alice's saved swap state, as far as recovery reads it.
#[derive(Clone, Debug, PartialEq, Eq)]
pub enum AliceState {
    Handshaken,
    BtcLocked,
    XmrLocked(XmrLockedParams),
    /// The serialized, fully signed redeem transaction.
    BtcRedeemable { redeem_tx: Vec<u8> },
    BtcPunishable,
    BtcRefunded { spend_key: [u8; 32], view_key: [u8; 32] },
    SwapComplete,
}

/// A saved swap, on either side.
#[derive(Clone, Debug, PartialEq, Eq)]
pub enum Swap {
    Alice(AliceState),
    Bob,
}

/// Where a recovery stands: the outside work it waits for.
#[derive(Clone, Copy, Debug, PartialEq, Eq)]
pub enum RecoveryPhase {
    LookingUpCancel,
    FetchingLockHeight,
    WaitingForCancelTimelock,
    PublishingCancel,
    FetchingCancelHeight,
    WatchingForRefund,
    LoadingWallet,
    PublishingPunish,
    PublishingRedeem,
    Done,
    Failed,
}

/// The outside work that recovery asks for next.
#[derive(Clone, Debug, PartialEq, Eq)]
pub enum RecoveryAction {
    /// Look the cancel transaction up on the Bitcoin chain.
    LookUpTxCancel,
    /// Fetch the block height at which the lock transaction was confirmed.
    FetchTxLockHeight,
    /// Wait until the chain reaches the given block height.
    WaitUntilBlockHeight(u32),
    /// Sign the cancel transaction with both signatures and publish it.
    PublishTxCancel,
    /// Fetch the block height at which the cancel transaction was confirmed.
    FetchTxCancelHeight,
    /// Watch for Bob's refund transaction until the chain reaches the given height.
    WatchForTxRefundUntil(u32),
    /// Create and load a Monero wallet for the locked output with these keys.
    LoadMoneroWallet { spend_key: [u8; 32], view_key: [u8; 32] },
    /// Sign the punish transaction with both signatures and publish it.
    PublishTxPunish,
    /// Publish this signed redeem transaction.
    PublishRedeemTx(Vec<u8>),
    /// Recovery is over and succeeded.
    Finish,
    /// Recovery is over: the outside work just reported failed, and its error is the result.
    Abort,
}

/// The outcome of the outside work that recovery asked for.
#[derive(Clone, Copy, Debug, PartialEq, Eq)]
pub enum RecoveryEvent {
    /// Whether the cancel transaction was found on the chain.
    TxCancelLookup { found: bool },
    /// The block height that was asked for.
    BlockHeight(u32),
    /// The awaited block height was reached.
    HeightReached,
    /// Bob's refund transaction was seen first; `s_b` holds the bytes of Bob's
    /// Monero key share recovered from his signature in it.
    TxRefundSeen { s_b: [u8; 32] },
    /// The punish timelock expired before any refund transaction was seen.
    PunishTimelockExpired,
    /// A publication or the wallet creation succeeded.
    Completed,
    /// The outside work failed.
    Failed,
}

/// The phase a recovery starts in for a saved state.
pub open spec fn initial_phase(state: AliceState) -> RecoveryPhase {
    match state {
        AliceState::XmrLocked(_) => RecoveryPhase::LookingUpCancel,
        AliceState::BtcRedeemable { .. } => RecoveryPhase::PublishingRedeem,
        AliceState::BtcPunishable => RecoveryPhase::PublishingPunish,
        AliceState::BtcRefunded { .. } => RecoveryPhase::LoadingWallet,
        _ => RecoveryPhase::Done,
    }
}

/// The first outside work a recovery asks for.
pub open spec fn initial_action(state: AliceState) -> RecoveryAction {
    match state {
        AliceState::XmrLocked(_) => RecoveryAction::LookUpTxCancel,
        AliceState::BtcRedeemable { redeem_tx } => RecoveryAction::PublishRedeemTx(redeem_tx),
        AliceState::BtcPunishable => RecoveryAction::PublishTxPunish,
        AliceState::BtcRefunded { spend_key, view_key } => RecoveryAction::LoadMoneroWallet {
            spend_key,
            view_key,
        },
        _ => RecoveryAction::Finish,
    }
}

/// Whether `event` is an outcome of the work asked for in `phase`. A block height
/// must leave room for the timelock that is added to it.
pub open spec fn accepts(phase: RecoveryPhase, params: XmrLockedParams, event: RecoveryEvent) -> bool {
    match (phase, event) {
        (RecoveryPhase::LookingUpCancel, RecoveryEvent::TxCancelLookup { .. }) => true,
        (RecoveryPhase::FetchingLockHeight, RecoveryEvent::BlockHeight(h)) =>
            h + params.refund_timelock <= u32::MAX,
        (RecoveryPhase::WaitingForCancelTimelock, RecoveryEvent::HeightReached) => true,
        (RecoveryPhase::PublishingCancel, RecoveryEvent::Completed) => true,
        (RecoveryPhase::PublishingCancel, RecoveryEvent::Failed) => true,
        (RecoveryPhase::FetchingCancelHeight, RecoveryEvent::BlockHeight(h)) =>
            h + params.punish_timelock <= u32::MAX,
        (RecoveryPhase::WatchingForRefund, RecoveryEvent::TxRefundSeen { .. }) => true,
        (RecoveryPhase::WatchingForRefund, RecoveryEvent::PunishTimelockExpired) => true,
        (RecoveryPhase::WatchingForRefund, RecoveryEvent::Failed) => true,
        (RecoveryPhase::LoadingWallet, RecoveryEvent::Completed) => true,
        (RecoveryPhase::LoadingWallet, RecoveryEvent::Failed) => true,
        (RecoveryPhase::PublishingPunish, RecoveryEvent::Completed) => true,
        (RecoveryPhase::PublishingPunish, RecoveryEvent::Failed) => true,
        (RecoveryPhase::PublishingRedeem, RecoveryEvent::Completed) => true,
        (RecoveryPhase::PublishingRedeem, RecoveryEvent::Failed) => true,
        _ => false,
    }
}

/// The phase that an accepted event leads to.
pub open spec fn next_phase(phase: RecoveryPhase, event: RecoveryEvent) -> RecoveryPhase {
    match (phase, event) {
        (_, RecoveryEvent::Failed) => RecoveryPhase::Failed,
        (RecoveryPhase::LookingUpCancel, RecoveryEvent::TxCancelLookup { found }) =>
            if found { RecoveryPhase::FetchingCancelHeight } else { RecoveryPhase::FetchingLockHeight },
        (RecoveryPhase::FetchingLockHeight, _) => RecoveryPhase::WaitingForCancelTimelock,
        (RecoveryPhase::WaitingForCancelTimelock, _) => RecoveryPhase::PublishingCancel,
        (RecoveryPhase::PublishingCancel, _) => RecoveryPhase::FetchingCancelHeight,
        (RecoveryPhase::FetchingCancelHeight, _) => RecoveryPhase::WatchingForRefund,
        (RecoveryPhase::WatchingForRefund, RecoveryEvent::TxRefundSeen { .. }) => RecoveryPhase::LoadingWallet,
        (RecoveryPhase::WatchingForRefund, _) => RecoveryPhase::PublishingPunish,
        _ => RecoveryPhase::Done,
    }
}

/// Whether `action` is the work that an accepted event leads to.
pub open spec fn is_next_action(
    phase: RecoveryPhase,
    params: XmrLockedParams,
    event: RecoveryEvent,
    action: RecoveryAction,
) -> bool {
    match (phase, event) {
        (_, RecoveryEvent::Failed) => action == RecoveryAction::Abort,
        (RecoveryPhase::LookingUpCancel, RecoveryEvent::TxCancelLookup { found }) =>
            action == if found { RecoveryAction::FetchTxCancelHeight } else { RecoveryAction::FetchTxLockHeight },
        (RecoveryPhase::FetchingLockHeight, RecoveryEvent::BlockHeight(h)) =>
            action == RecoveryAction::WaitUntilBlockHeight((h + params.refund_timelock) as u32),
        (RecoveryPhase::WaitingForCancelTimelock, _) => action == RecoveryAction::PublishTxCancel,
        (RecoveryPhase::PublishingCancel, _) => action == RecoveryAction::FetchTxCancelHeight,
        (RecoveryPhase::FetchingCancelHeight, RecoveryEvent::BlockHeight(h)) =>
            action == RecoveryAction::WatchForTxRefundUntil((h + params.punish_timelock) as u32),
        (RecoveryPhase::WatchingForRefund, RecoveryEvent::TxRefundSeen { s_b }) => {
            &&& action matches RecoveryAction::LoadMoneroWallet { spend_key, view_key }
            &&& le_value(spend_key@) == (le_value(params.s_a@) + le_value(s_b@)) % group_order()
            &&& view_key == params.v
        },
        (RecoveryPhase::WatchingForRefund, _) => action == RecoveryAction::PublishTxPunish,
        _ => action == RecoveryAction::Finish,
    }
}

/// A recovery of Alice's side of a swap, driven one outside result at a time.
pub struct AliceRecovery {
    phase: RecoveryPhase,
    params: XmrLockedParams,
}

impl AliceRecovery {
    /// The phase the recovery is in.
    pub closed spec fn phase_of(&self) -> RecoveryPhase {
        self.phase
    }

    /// The parameters of the locked-Monero state that the recovery works from.
    pub closed spec fn params_of(&self) -> XmrLockedParams {
        self.params
    }

    /// Alice's key share is a reduced scalar.
    pub closed spec fn wf(&self) -> bool {
        is_canonical_scalar(self.params.s_a@)
    }

    /// The phase the recovery is in.
    pub fn phase(&self) -> (p: RecoveryPhase)
        ensures
            p == self.phase_of(),
    {
        self.phase
    }

    /// The parameters of the locked-Monero state that the recovery works from.
    pub fn params(&self) -> (p: XmrLockedParams)
        ensures
            p == self.params_of(),
    {
        self.params
    }

    /// Whether the recovery is over, successfully or not.
    pub fn is_finished(&self) -> (b: bool)
        ensures
            b == (self.phase_of() == RecoveryPhase::Done || self.phase_of() == RecoveryPhase::Failed),
    {
        match self.phase {
            RecoveryPhase::Done | RecoveryPhase::Failed => true,
            _ => false,
        }
    }
    /// Feeds the outcome of the work last asked for, and returns the work to do next.
    pub fn step(&mut self, event: RecoveryEvent) -> (action: RecoveryAction)
        requires
            old(self).wf(),
            accepts(old(self).phase_of(), old(self).params_of(), event),
        ensures
            final(self).wf(),
            final(self).params_of() == old(self).params_of(),
            final(self).phase_of() == next_phase(old(self).phase_of(), event),
            is_next_action(old(self).phase_of(), old(self).params_of(), event, action),
            effect_of(action) == step_effect(old(self).phase_of(), event),
            event == RecoveryEvent::Failed ==> final(self).phase_of() == RecoveryPhase::Failed
                && action == RecoveryAction::Abort,
            action == RecoveryAction::Abort ==> event == RecoveryEvent::Failed,
            action == RecoveryAction::Finish ==> event == RecoveryEvent::Completed
                && final(self).phase_of() == RecoveryPhase::Done,
            event == RecoveryEvent::Completed ==> (old(self).phase_of() == RecoveryPhase::PublishingCancel
                ==> final(self).phase_of() == RecoveryPhase::FetchingCancelHeight && action
                == RecoveryAction::FetchTxCancelHeight) && (old(self).phase_of() != RecoveryPhase::PublishingCancel
                ==> final(self).phase_of() == RecoveryPhase::Done && action == RecoveryAction::Finish),
            event == (RecoveryEvent::TxCancelLookup { found: true }) ==> final(self).phase_of()
                == RecoveryPhase::FetchingCancelHeight && action == RecoveryAction::FetchTxCancelHeight,
            event == (RecoveryEvent::TxCancelLookup { found: false }) ==> final(self).phase_of()
                == RecoveryPhase::FetchingLockHeight && action == RecoveryAction::FetchTxLockHeight,
            event == RecoveryEvent::HeightReached ==> final(self).phase_of()
                == RecoveryPhase::PublishingCancel && action == RecoveryAction::PublishTxCancel,
            event matches RecoveryEvent::BlockHeight(h) ==> (old(self).phase_of()
                == RecoveryPhase::FetchingLockHeight ==> final(self).phase_of()
                == RecoveryPhase::WaitingForCancelTimelock && action == RecoveryAction::WaitUntilBlockHeight(
                (h + old(self).params_of().refund_timelock) as u32,
            )) && (old(self).phase_of() == RecoveryPhase::FetchingCancelHeight ==> final(self).phase_of()
                == RecoveryPhase::WatchingForRefund && action == RecoveryAction::WatchForTxRefundUntil(
                (h + old(self).params_of().punish_timelock) as u32,
            )),
            event matches RecoveryEvent::TxRefundSeen { s_b } ==> final(self).phase_of()
                == RecoveryPhase::LoadingWallet && (action matches RecoveryAction::LoadMoneroWallet {
                spend_key,
                view_key,
            } && le_value(spend_key@) == (le_value(old(self).params_of().s_a@) + le_value(s_b@))
                % group_order() && view_key == old(self).params_of().v),
            event == RecoveryEvent::PunishTimelockExpired ==> final(self).phase_of()
                == RecoveryPhase::PublishingPunish && action == RecoveryAction::PublishTxPunish,
    {
        let p = self.params;
        if let RecoveryEvent::Failed = event {
            self.phase = RecoveryPhase::Failed;
            return RecoveryAction::Abort;
        }
        match self.phase {
            RecoveryPhase::LookingUpCancel => {
                if let RecoveryEvent::TxCancelLookup { found } = event {
                    if found {
                        self.phase = RecoveryPhase::FetchingCancelHeight;
                        RecoveryAction::FetchTxCancelHeight
                    } else {
                        self.phase = RecoveryPhase::FetchingLockHeight;
                        RecoveryAction::FetchTxLockHeight
                    }
                } else {
                    proof { assert(false); }
                    RecoveryAction::Abort
                }
            },
            RecoveryPhase::FetchingLockHeight => {
                if let RecoveryEvent::BlockHeight(h) = event {
                    self.phase = RecoveryPhase::WaitingForCancelTimelock;
                    RecoveryAction::WaitUntilBlockHeight(h + p.refund_timelock)
                } else {
                    proof { assert(false); }
                    RecoveryAction::Abort
                }
            },
            RecoveryPhase::WaitingForCancelTimelock => {
                self.phase = RecoveryPhase::PublishingCancel;
                RecoveryAction::PublishTxCancel
            },
            RecoveryPhase::PublishingCancel => {
                self.phase = RecoveryPhase::FetchingCancelHeight;
                RecoveryAction::FetchTxCancelHeight
            },
            RecoveryPhase::FetchingCancelHeight => {
                if let RecoveryEvent::BlockHeight(h) = event {
                    self.phase = RecoveryPhase::WatchingForRefund;
                    RecoveryAction::WatchForTxRefundUntil(h + p.punish_timelock)
                } else {
                    proof { assert(false); }
                    RecoveryAction::Abort
                }
            },
            RecoveryPhase::WatchingForRefund => {
                if let RecoveryEvent::TxRefundSeen { s_b } = event {
                    let spend_key = monero_spend_key(p.s_a, s_b);
                    self.phase = RecoveryPhase::LoadingWallet;
                    RecoveryAction::LoadMoneroWallet { spend_key, view_key: p.v }
                } else {
                    self.phase = RecoveryPhase::PublishingPunish;
                    RecoveryAction::PublishTxPunish
                }
            },
            RecoveryPhase::LoadingWallet | RecoveryPhase::PublishingPunish
            | RecoveryPhase::PublishingRedeem => {
                self.phase = RecoveryPhase::Done;
                RecoveryAction::Finish
            },
            RecoveryPhase::Done | RecoveryPhase::Failed => {
                proof { assert(false); }
                RecoveryAction::Abort
            },
        }
    }
}

/// Parameters that no recovery path reads, for the states that do not lock Monero.
fn unused_params() -> (p: XmrLockedParams)
    ensures
        is_canonical_scalar(p.s_a@),
{
    let p = XmrLockedParams { refund_timelock: 0, punish_timelock: 0, s_a: [0u8; 32], v: [0u8; 32] };
    proof {
        reveal_with_fuel(le_value, 33);
    }
    p
}

/// Starts the recovery of Alice's side of a swap from its saved state: a state from
/// which nothing is left to do finishes at once; a redeemable state publishes the saved
/// redeem transaction; a punishable one publishes the punish transaction; a refunded one
/// loads the Monero wallet with the saved keys; and once Monero is locked, recovery makes
/// sure that the cancel transaction is on the chain and then either takes the Monero back
/// with the key share Bob reveals in his refund, or punishes Bob once the punish timelock
/// has expired.
pub fn alice_recover(state: AliceState) -> (r: (AliceRecovery, RecoveryAction))
    requires
        state matches AliceState::XmrLocked(p) ==> is_canonical_scalar(p.s_a@),
    ensures
        r.0.wf(),
        r.0.phase_of() == initial_phase(state),
        r.1 == initial_action(state),
        state matches AliceState::XmrLocked(p) ==> r.0.params_of() == p,
        state matches AliceState::XmrLocked(_) ==> r.0.phase_of() == RecoveryPhase::LookingUpCancel
            && r.1 == RecoveryAction::LookUpTxCancel,
        state matches AliceState::BtcRedeemable { redeem_tx } ==> r.0.phase_of()
            == RecoveryPhase::PublishingRedeem && r.1 == RecoveryAction::PublishRedeemTx(redeem_tx),
        state == AliceState::BtcPunishable ==> r.0.phase_of() == RecoveryPhase::PublishingPunish && r.1
            == RecoveryAction::PublishTxPunish,
        state matches AliceState::BtcRefunded { spend_key, view_key } ==> r.0.phase_of()
            == RecoveryPhase::LoadingWallet && r.1 == (RecoveryAction::LoadMoneroWallet {
            spend_key,
            view_key,
        }),
        (state == AliceState::Handshaken || state == AliceState::BtcLocked || state
            == AliceState::SwapComplete) <==> r.1 == RecoveryAction::Finish,
        r.1 == RecoveryAction::Finish ==> r.0.phase_of() == RecoveryPhase::Done,
{
    match state {
        AliceState::XmrLocked(p) => (
            AliceRecovery { phase: RecoveryPhase::LookingUpCancel, params: p },
            RecoveryAction::LookUpTxCancel,
        ),
        AliceState::BtcRedeemable { redeem_tx } => (
            AliceRecovery { phase: RecoveryPhase::PublishingRedeem, params: unused_params() },
            RecoveryAction::PublishRedeemTx(redeem_tx),
        ),
        AliceState::BtcPunishable => (
            AliceRecovery { phase: RecoveryPhase::PublishingPunish, params: unused_params() },
            RecoveryAction::PublishTxPunish,
        ),
        AliceState::BtcRefunded { spend_key, view_key } => (
            AliceRecovery { phase: RecoveryPhase::LoadingWallet, params: unused_params() },
            RecoveryAction::LoadMoneroWallet { spend_key, view_key },
        ),
        _ => (
            AliceRecovery { phase: RecoveryPhase::Done, params: unused_params() },
            RecoveryAction::Finish,
        ),
    }
}

/// Starts the recovery of a saved swap. Only Alice's side can be recovered.
pub fn recover(state: Swap) -> (r: (AliceRecovery, RecoveryAction))
    requires
        state matches Swap::Alice(a) && (a matches AliceState::XmrLocked(p) ==> is_canonical_scalar(p.s_a@)),
    ensures
        state matches Swap::Alice(a) && {
            &&& r.0.wf()
            &&& r.0.phase_of() == initial_phase(a)
            &&& r.1 == initial_action(a)
            &&& a matches AliceState::XmrLocked(p) ==> r.0.params_of() == p
        },
{
    match state {
        Swap::Alice(a) => alice_recover(a),
        Swap::Bob => {
            proof { assert(false); }
            alice_recover(AliceState::SwapComplete)
        },
    }
}

/// How many more outside results a recovery in `phase` can take at most.
pub open spec fn remaining_steps(phase: RecoveryPhase) -> nat {
    match phase {
        RecoveryPhase::LookingUpCancel => 7,
        RecoveryPhase::FetchingLockHeight => 6,
        RecoveryPhase::WaitingForCancelTimelock => 5,
        RecoveryPhase::PublishingCancel => 4,
        RecoveryPhase::FetchingCancelHeight => 3,
        RecoveryPhase::WatchingForRefund => 2,
        RecoveryPhase::LoadingWallet => 1,
        RecoveryPhase::PublishingPunish => 1,
        RecoveryPhase::PublishingRedeem => 1,
        RecoveryPhase::Done => 0,
        RecoveryPhase::Failed => 0,
    }
}

/// Recovery always comes to an end: every accepted result brings it strictly closer to
/// its end, a finished recovery accepts no further result, and a recovery takes at most
/// seven results.
pub proof fn lemma_recovery_terminates(phase: RecoveryPhase, params: XmrLockedParams, event: RecoveryEvent)
    ensures
        accepts(phase, params, event) ==> remaining_steps(next_phase(phase, event)) < remaining_steps(phase),
        (phase == RecoveryPhase::Done || phase == RecoveryPhase::Failed) ==> !accepts(phase, params, event),
        remaining_steps(phase) <= 7,
{
}

/// The cancel transaction is published only when the lookup did not find it on the chain
/// and the refund timelock has since expired: the request to publish follows only the
/// wait for the height, and that wait only a lookup that found nothing.
pub proof fn lemma_cancel_published_only_when_missing(
    phase: RecoveryPhase,
    params: XmrLockedParams,
    event: RecoveryEvent,
    action: RecoveryAction,
)
    requires
        accepts(phase, params, event),
        is_next_action(phase, params, event, action),
    ensures
        action == RecoveryAction::PublishTxCancel ==> phase == RecoveryPhase::WaitingForCancelTimelock
            && event == RecoveryEvent::HeightReached,
        next_phase(phase, event) == RecoveryPhase::WaitingForCancelTimelock ==> phase
            == RecoveryPhase::FetchingLockHeight,
        next_phase(phase, event) == RecoveryPhase::FetchingLockHeight ==> phase
            == RecoveryPhase::LookingUpCancel && event == (RecoveryEvent::TxCancelLookup { found: false }),
        event == (RecoveryEvent::TxCancelLookup { found: true }) ==> action
            == RecoveryAction::FetchTxCancelHeight,
{
}

/// Once the cancel transaction is on the chain, Bob is punished only when the punish
/// timelock expired before his refund was seen, and a refund seen first hands Alice the
/// Monero spend key `s_a + s_b`.
pub proof fn lemma_punish_only_after_timelock(
    phase: RecoveryPhase,
    params: XmrLockedParams,
    event: RecoveryEvent,
    action: RecoveryAction,
)
    requires
        accepts(phase, params, event),
        is_next_action(phase, params, event, action),
    ensures
        action == RecoveryAction::PublishTxPunish ==> phase == RecoveryPhase::WatchingForRefund
            && event == RecoveryEvent::PunishTimelockExpired,
        event matches RecoveryEvent::TxRefundSeen { s_b } ==> (action matches RecoveryAction::LoadMoneroWallet {
            spend_key,
            view_key,
        } && le_value(spend_key@) == (le_value(params.s_a@) + le_value(s_b@)) % group_order()
            && view_key == params.v),
{
}

/// What an action does to the chains or the wallet, if anything.
#[derive(Clone, Copy, Debug, PartialEq, Eq)]
pub enum RecoveryEffect {
    /// A Monero wallet is created and loaded.
    LoadWallet,
    /// The cancel transaction is published.
    PublishCancel,
    /// The punish transaction is published.
    PublishPunish,
    /// The saved redeem transaction is published.
    PublishRedeem,
    /// Nothing is published or created.
    NoEffect,
}

/// The effect of an action.
pub open spec fn effect_of(action: RecoveryAction) -> RecoveryEffect {
    match action {
        RecoveryAction::LoadMoneroWallet { .. } => RecoveryEffect::LoadWallet,
        RecoveryAction::PublishTxCancel => RecoveryEffect::PublishCancel,
        RecoveryAction::PublishTxPunish => RecoveryEffect::PublishPunish,
        RecoveryAction::PublishRedeemTx(_) => RecoveryEffect::PublishRedeem,
        _ => RecoveryEffect::NoEffect,
    }
}

/// The effect of the action that an accepted event leads to.
pub open spec fn step_effect(phase: RecoveryPhase, event: RecoveryEvent) -> RecoveryEffect {
    match (phase, event) {
        (_, RecoveryEvent::Failed) => RecoveryEffect::NoEffect,
        (RecoveryPhase::WaitingForCancelTimelock, _) => RecoveryEffect::PublishCancel,
        (RecoveryPhase::WatchingForRefund, RecoveryEvent::TxRefundSeen { .. }) => RecoveryEffect::LoadWallet,
        (RecoveryPhase::WatchingForRefund, _) => RecoveryEffect::PublishPunish,
        _ => RecoveryEffect::NoEffect,
    }
}

/// Whether every event of a run is accepted in turn, starting from `phase`.
pub open spec fn run_accepted(phase: RecoveryPhase, params: XmrLockedParams, events: Seq<RecoveryEvent>) -> bool
    decreases events.len(),
{
    events.len() == 0 || (accepts(phase, params, events[0]) && run_accepted(
        next_phase(phase, events[0]),
        params,
        events.drop_first(),
    ))
}

/// How many actions with the given effect a run of events leads to, starting from `phase`.
pub open spec fn run_count(phase: RecoveryPhase, events: Seq<RecoveryEvent>, effect: RecoveryEffect) -> nat
    decreases events.len(),
{
    if events.len() == 0 {
        0
    } else {
        (if step_effect(phase, events[0]) == effect {
            1nat
        } else {
            0nat
        }) + run_count(next_phase(phase, events[0]), events.drop_first(), effect)
    }
}

/// How many actions with the given effect a whole recovery from `state` asks for: its
/// first action and those of the run of results.
pub open spec fn recovery_count(state: AliceState, events: Seq<RecoveryEvent>, effect: RecoveryEffect) -> nat {
    (if effect_of(initial_action(state)) == effect {
        1nat
    } else {
        0nat
    }) + run_count(initial_phase(state), events, effect)
}

/// Whether a phase still lies before the refund watch, so that a wallet load or a
/// punishment can still follow.
pub open spec fn before_refund_watch(phase: RecoveryPhase) -> bool {
    ||| phase == RecoveryPhase::LookingUpCancel
    ||| phase == RecoveryPhase::FetchingLockHeight
    ||| phase == RecoveryPhase::WaitingForCancelTimelock
    ||| phase == RecoveryPhase::PublishingCancel
    ||| phase == RecoveryPhase::FetchingCancelHeight
    ||| phase == RecoveryPhase::WatchingForRefund
}

/// Whether a phase still lies before the cancel transaction's publication.
pub open spec fn before_cancel_publication(phase: RecoveryPhase) -> bool {
    ||| phase == RecoveryPhase::LookingUpCancel
    ||| phase == RecoveryPhase::FetchingLockHeight
    ||| phase == RecoveryPhase::WaitingForCancelTimelock
}

proof fn lemma_run_effects(phase: RecoveryPhase, params: XmrLockedParams, events: Seq<RecoveryEvent>)
    requires
        run_accepted(phase, params, events),
    ensures
        run_count(phase, events, RecoveryEffect::LoadWallet) + run_count(phase, events, RecoveryEffect::PublishPunish)
            <= if before_refund_watch(phase) { 1nat } else { 0nat },
        run_count(phase, events, RecoveryEffect::PublishCancel) <= if before_cancel_publication(phase) {
            1nat
        } else {
            0nat
        },
        run_count(phase, events, RecoveryEffect::PublishRedeem) == 0,
    decreases events.len(),
{
    if events.len() > 0 {
        lemma_run_effects(next_phase(phase, events[0]), params, events.drop_first());
    }
}

/// A whole recovery of Alice's side, whatever the outside results, loads a Monero wallet
/// at most once, punishes Bob at most once and never both, publishes the cancel
/// transaction at most once and the saved redeem transaction at most once; it publishes
/// nothing but these (in particular never a refund transaction).
pub proof fn lemma_whole_recovery_effects(state: AliceState, params: XmrLockedParams, events: Seq<RecoveryEvent>)
    requires
        run_accepted(initial_phase(state), params, events),
    ensures
        recovery_count(state, events, RecoveryEffect::LoadWallet) <= 1,
        recovery_count(state, events, RecoveryEffect::PublishPunish) <= 1,
        recovery_count(state, events, RecoveryEffect::LoadWallet) == 0 || recovery_count(
            state,
            events,
            RecoveryEffect::PublishPunish,
        ) == 0,
        recovery_count(state, events, RecoveryEffect::PublishCancel) <= 1,
        recovery_count(state, events, RecoveryEffect::PublishRedeem) <= 1,
{
    lemma_run_effects(initial_phase(state), params, events);
}

/// A failed outcome always ends the recovery with the failure: in every phase where it
/// can come, it leads to the failed phase and to aborting with that error. Success is
/// reported only after the last outside work completed, or at the start from a state
/// with nothing left to do.
pub proof fn lemma_failure_is_never_success(
    phase: RecoveryPhase,
    params: XmrLockedParams,
    event: RecoveryEvent,
    action: RecoveryAction,
    state: AliceState,
)
    ensures
        accepts(phase, params, RecoveryEvent::Failed) ==> next_phase(phase, RecoveryEvent::Failed)
            == RecoveryPhase::Failed,
        accepts(phase, params, RecoveryEvent::Failed) && is_next_action(
            phase,
            params,
            RecoveryEvent::Failed,
            action,
        ) ==> action == RecoveryAction::Abort,
        accepts(phase, params, event) && is_next_action(phase, params, event, action) && action
            == RecoveryAction::Finish ==> event == RecoveryEvent::Completed && next_phase(phase, event)
            == RecoveryPhase::Done,
        accepts(phase, params, event) && next_phase(phase, event) == RecoveryPhase::Done ==> event
            == RecoveryEvent::Completed,
        initial_action(state) == RecoveryAction::Finish <==> (state == AliceState::Handshaken || state
            == AliceState::BtcLocked || state == AliceState::SwapComplete),
        (state matches AliceState::BtcRedeemable { .. }) && accepts(
            initial_phase(state),
            params,
            RecoveryEvent::Failed,
        ) ==> next_phase(initial_phase(state), RecoveryEvent::Failed) == RecoveryPhase::Failed,
{
}

} // verus!
