use swap::cli::{check_options, OptionsError, Role};
use swap::confirm::{
    is_yes, strip_line_ending, swap_as_bob_step, verify_answer, BobAction, BobEvent, Cmd, Rsp,
    SwapAmounts,
};
use swap::message0::{InboundEvent, Message0, OutEvent, Reaction, SetStateError};
use swap::monero_keys::monero_spend_key;
use swap::recover::{
    alice_recover, recover, AliceState, RecoveryAction, RecoveryEvent, RecoveryPhase, Swap,
    XmrLockedParams,
};

const GROUP_ORDER: [u8; 32] = [
    237, 211, 245, 92, 26, 99, 18, 88, 214, 156, 247, 162, 222, 249, 222, 20, 0, 0, 0, 0, 0, 0, 0,
    0, 0, 0, 0, 0, 0, 0, 0, 16,
];

fn scalar(n: u8) -> [u8; 32] {
    let mut b = [0u8; 32];
    b[0] = n;
    b
}

fn group_order_plus(n: u8) -> [u8; 32] {
    let mut b = GROUP_ORDER;
    b[0] += n;
    b
}

#[test]
fn is_yes_accepts_exactly_the_yes_answers() {
    for s in ["y", "Y", "yes", "YES", "Yes"] {
        assert!(is_yes(s), "{}", s);
    }
    for s in ["", "n", "no", "yES", "yeS", "YEs", "ye", "yess", " y", "y ", "oui"] {
        assert!(!is_yes(s), "{}", s);
    }
}

#[test]
fn strip_line_ending_drops_newline_then_carriage_return() {
    assert_eq!(strip_line_ending("yes\n"), "yes");
    assert_eq!(strip_line_ending("yes\r\n"), "yes");
    assert_eq!(strip_line_ending("yes\r"), "yes");
    assert_eq!(strip_line_ending("yes"), "yes");
    assert_eq!(strip_line_ending("yes\n\n"), "yes\n");
    assert_eq!(strip_line_ending("yes\n\r"), "yes\n");
    assert_eq!(strip_line_ending(""), "");
    assert_eq!(strip_line_ending("\n"), "");
    assert_eq!(strip_line_ending("\r\n"), "");
    assert_eq!(strip_line_ending("ja\u{e4}\n"), "ja\u{e4}");
}

#[test]
fn verify_answer_confirms_only_on_yes() {
    assert_eq!(verify_answer("y\n"), Rsp::VerifiedAmounts);
    assert_eq!(verify_answer("Yes\r\n"), Rsp::VerifiedAmounts);
    assert_eq!(verify_answer("YES"), Rsp::VerifiedAmounts);
    assert_eq!(verify_answer("\n"), Rsp::Abort);
    assert_eq!(verify_answer("N\n"), Rsp::Abort);
    assert_eq!(verify_answer("yes please\n"), Rsp::Abort);
    assert_eq!(verify_answer("yes\n\n"), Rsp::Abort);
}

#[test]
fn bob_loop_asks_replies_and_stops() {
    let amounts = SwapAmounts { btc: 100_000, xmr: 1_000_000_000_000 };
    assert_eq!(
        swap_as_bob_step(BobEvent::Command(Cmd::VerifyAmounts(amounts))),
        BobAction::AskUser(amounts)
    );
    assert_eq!(
        swap_as_bob_step(BobEvent::Answered(Rsp::VerifiedAmounts)),
        BobAction::Reply { rsp: Rsp::VerifiedAmounts, exit: false }
    );
    assert_eq!(
        swap_as_bob_step(BobEvent::Answered(Rsp::Abort)),
        BobAction::Reply { rsp: Rsp::Abort, exit: true }
    );
    assert_eq!(swap_as_bob_step(BobEvent::ChannelClosed), BobAction::Stop);
}

#[test]
fn check_options_follows_the_amount_rules() {
    assert_eq!(check_options(true, None, None), Ok(Role::Alice));
    assert_eq!(check_options(true, Some(1), None), Err(OptionsError::AliceCannotSetAmount));
    assert_eq!(check_options(true, None, Some(1)), Err(OptionsError::AliceCannotSetAmount));
    assert_eq!(check_options(false, None, Some(42)), Ok(Role::Bob { satoshis: 42 }));
    assert_eq!(check_options(false, Some(1), Some(2)), Err(OptionsError::MoreThanOneAmount));
    assert_eq!(check_options(false, None, None), Err(OptionsError::NoAmount));
    assert_eq!(
        OptionsError::AliceCannotSetAmount.message(),
        "Alice cannot set the amount to swap via the cli"
    );
    assert_eq!(
        OptionsError::MoreThanOneAmount.message(),
        "Please supply only a single amount to swap"
    );
    assert_eq!(OptionsError::NoAmount.message(), "Please supply an amount to swap");
}

#[test]
fn message0_state_is_set_once() {
    let mut m: Message0<u32, &str> = Message0::default();
    assert!(m.state().is_none());
    assert_eq!(m.set_state(7), Ok(()));
    assert_eq!(m.state(), Some(&7));
    assert_eq!(m.set_state(8), Err(SetStateError::AlreadySet));
    assert_eq!(m.state(), Some(&7));
    assert_eq!(SetStateError::AlreadySet.message(), "Trying to set state a second time");
}

#[test]
fn message0_delivers_requests_in_order() {
    let mut m: Message0<u32, &str> = Message0::default();
    assert_eq!(m.poll(), None);
    m.set_state(1).unwrap();
    assert_eq!(m.inject_event(InboundEvent::Message0Request("first")), Reaction::SendResponse);
    assert_eq!(m.inject_event(InboundEvent::OtherRequest), Reaction::Ignore);
    assert_eq!(m.inject_event(InboundEvent::InboundFailure), Reaction::ReportInboundFailure);
    assert_eq!(m.inject_event(InboundEvent::OutboundFailure), Reaction::ReportOutboundFailure);
    assert_eq!(m.inject_event(InboundEvent::Message0Request("second")), Reaction::SendResponse);
    assert_eq!(m.poll(), Some(OutEvent::Msg("first")));
    assert_eq!(m.inject_event(InboundEvent::Message0Request("third")), Reaction::SendResponse);
    assert_eq!(m.poll(), Some(OutEvent::Msg("second")));
    assert_eq!(m.poll(), Some(OutEvent::Msg("third")));
    assert_eq!(m.poll(), None);
    assert_eq!(m.state(), Some(&1));
}

#[test]
fn spend_key_adds_the_shares_modulo_the_group_order() {
    assert_eq!(monero_spend_key(scalar(1), scalar(2)), scalar(3));
    assert_eq!(monero_spend_key(scalar(0), scalar(0)), scalar(0));
    // Bob's share is reduced before it is added.
    assert_eq!(monero_spend_key(scalar(1), group_order_plus(1)), scalar(2));
    assert_eq!(monero_spend_key(scalar(0), GROUP_ORDER), scalar(0));
    // The sum wraps around the group order.
    let mut l_minus_one = GROUP_ORDER;
    l_minus_one[0] -= 1;
    assert_eq!(monero_spend_key(l_minus_one, scalar(2)), scalar(1));
    // (2^256 - 1) mod l, plus 5.
    let expected: [u8; 32] = [
        33, 149, 152, 141, 116, 49, 236, 214, 112, 207, 125, 115, 244, 91, 239, 198, 254, 255,
        255, 255, 255, 255, 255, 255, 255, 255, 255, 255, 255, 255, 255, 15,
    ];
    assert_eq!(monero_spend_key(scalar(5), [0xff; 32]), expected);
}

fn locked_params() -> XmrLockedParams {
    XmrLockedParams { refund_timelock: 50, punish_timelock: 60, s_a: scalar(4), v: scalar(9) }
}

#[test]
fn recovery_of_states_with_nothing_to_do_finishes_at_once() {
    for state in [AliceState::Handshaken, AliceState::BtcLocked, AliceState::SwapComplete] {
        let (r, a) = alice_recover(state);
        assert_eq!(a, RecoveryAction::Finish);
        assert_eq!(r.phase(), RecoveryPhase::Done);
        assert!(r.is_finished());
    }
}

#[test]
fn recovery_publishes_the_saved_redeem_transaction() {
    let (mut r, a) = alice_recover(AliceState::BtcRedeemable { redeem_tx: vec![1, 2, 3] });
    assert_eq!(a, RecoveryAction::PublishRedeemTx(vec![1, 2, 3]));
    assert!(!r.is_finished());
    assert_eq!(r.step(RecoveryEvent::Completed), RecoveryAction::Finish);
    assert_eq!(r.phase(), RecoveryPhase::Done);
}

#[test]
fn recovery_of_punishable_state_publishes_punish() {
    let (mut r, a) = alice_recover(AliceState::BtcPunishable);
    assert_eq!(a, RecoveryAction::PublishTxPunish);
    assert_eq!(r.step(RecoveryEvent::Failed), RecoveryAction::Abort);
    assert_eq!(r.phase(), RecoveryPhase::Failed);
    assert!(r.is_finished());
}

#[test]
fn recovery_of_refunded_state_loads_the_saved_keys() {
    let (mut r, a) = alice_recover(AliceState::BtcRefunded { spend_key: scalar(5), view_key: scalar(6) });
    assert_eq!(a, RecoveryAction::LoadMoneroWallet { spend_key: scalar(5), view_key: scalar(6) });
    assert_eq!(r.step(RecoveryEvent::Completed), RecoveryAction::Finish);
}

#[test]
fn recovery_publishes_cancel_when_missing_then_takes_refund() {
    let (mut r, a) = alice_recover(AliceState::XmrLocked(locked_params()));
    assert_eq!(a, RecoveryAction::LookUpTxCancel);
    assert_eq!(r.step(RecoveryEvent::TxCancelLookup { found: false }), RecoveryAction::FetchTxLockHeight);
    assert_eq!(r.step(RecoveryEvent::BlockHeight(1000)), RecoveryAction::WaitUntilBlockHeight(1050));
    assert_eq!(r.step(RecoveryEvent::HeightReached), RecoveryAction::PublishTxCancel);
    assert_eq!(r.step(RecoveryEvent::Completed), RecoveryAction::FetchTxCancelHeight);
    assert_eq!(r.step(RecoveryEvent::BlockHeight(1100)), RecoveryAction::WatchForTxRefundUntil(1160));
    assert_eq!(
        r.step(RecoveryEvent::TxRefundSeen { s_b: group_order_plus(3) }),
        RecoveryAction::LoadMoneroWallet { spend_key: scalar(7), view_key: scalar(9) }
    );
    assert_eq!(r.phase(), RecoveryPhase::LoadingWallet);
    assert_eq!(r.step(RecoveryEvent::Completed), RecoveryAction::Finish);
    assert!(r.is_finished());
}

#[test]
fn recovery_skips_cancel_when_found_then_punishes() {
    let (mut r, _) = recover(Swap::Alice(AliceState::XmrLocked(locked_params())));
    assert_eq!(r.step(RecoveryEvent::TxCancelLookup { found: true }), RecoveryAction::FetchTxCancelHeight);
    assert_eq!(r.step(RecoveryEvent::BlockHeight(7)), RecoveryAction::WatchForTxRefundUntil(67));
    assert_eq!(r.step(RecoveryEvent::PunishTimelockExpired), RecoveryAction::PublishTxPunish);
    assert_eq!(r.phase(), RecoveryPhase::PublishingPunish);
    assert_eq!(r.step(RecoveryEvent::Completed), RecoveryAction::Finish);
    assert_eq!(r.phase(), RecoveryPhase::Done);
}

#[test]
fn recovery_aborts_when_cancel_publication_fails() {
    let (mut r, _) = alice_recover(AliceState::XmrLocked(locked_params()));
    r.step(RecoveryEvent::TxCancelLookup { found: false });
    r.step(RecoveryEvent::BlockHeight(1));
    r.step(RecoveryEvent::HeightReached);
    assert_eq!(r.step(RecoveryEvent::Failed), RecoveryAction::Abort);
    assert_eq!(r.phase(), RecoveryPhase::Failed);
}

fn effects(actions: &[RecoveryAction]) -> (usize, usize, usize, usize) {
    let mut loads = 0;
    let mut punishes = 0;
    let mut cancels = 0;
    let mut redeems = 0;
    for a in actions {
        match a {
            RecoveryAction::LoadMoneroWallet { .. } => loads += 1,
            RecoveryAction::PublishTxPunish => punishes += 1,
            RecoveryAction::PublishTxCancel => cancels += 1,
            RecoveryAction::PublishRedeemTx(_) => redeems += 1,
            _ => {}
        }
    }
    (loads, punishes, cancels, redeems)
}

#[test]
fn whole_recovery_loads_or_punishes_at_most_once() {
    let runs: Vec<Vec<RecoveryEvent>> = vec![
        vec![
            RecoveryEvent::TxCancelLookup { found: false },
            RecoveryEvent::BlockHeight(10),
            RecoveryEvent::HeightReached,
            RecoveryEvent::Completed,
            RecoveryEvent::BlockHeight(20),
            RecoveryEvent::TxRefundSeen { s_b: scalar(1) },
            RecoveryEvent::Completed,
        ],
        vec![
            RecoveryEvent::TxCancelLookup { found: false },
            RecoveryEvent::BlockHeight(10),
            RecoveryEvent::HeightReached,
            RecoveryEvent::Completed,
            RecoveryEvent::BlockHeight(20),
            RecoveryEvent::PunishTimelockExpired,
            RecoveryEvent::Completed,
        ],
        vec![
            RecoveryEvent::TxCancelLookup { found: true },
            RecoveryEvent::BlockHeight(20),
            RecoveryEvent::PunishTimelockExpired,
            RecoveryEvent::Failed,
        ],
    ];
    let expected = [(1, 0, 1, 0), (0, 1, 1, 0), (0, 1, 0, 0)];
    for (events, want) in runs.into_iter().zip(expected) {
        let (mut r, first) = alice_recover(AliceState::XmrLocked(locked_params()));
        let mut actions = vec![first];
        for e in events {
            actions.push(r.step(e));
        }
        assert!(r.is_finished());
        assert_eq!(effects(&actions), want);
    }
}

#[test]
fn bob_loop_replies_once_per_request_in_order() {
    let cmds = [
        Cmd::VerifyAmounts(SwapAmounts { btc: 1, xmr: 2 }),
        Cmd::VerifyAmounts(SwapAmounts { btc: 3, xmr: 4 }),
        Cmd::VerifyAmounts(SwapAmounts { btc: 5, xmr: 6 }),
    ];
    let answers = [Rsp::VerifiedAmounts, Rsp::VerifiedAmounts, Rsp::Abort];
    let mut actions = Vec::new();
    for (c, a) in cmds.iter().zip(answers.iter()) {
        actions.push(swap_as_bob_step(BobEvent::Command(*c)));
        actions.push(swap_as_bob_step(BobEvent::Answered(*a)));
    }
    let replies: Vec<Rsp> = actions
        .iter()
        .filter_map(|a| match a {
            BobAction::Reply { rsp, .. } => Some(*rsp),
            _ => None,
        })
        .collect();
    assert_eq!(replies, answers.to_vec());
    assert_eq!(actions[0], BobAction::AskUser(SwapAmounts { btc: 1, xmr: 2 }));
    assert_eq!(actions[3], BobAction::Reply { rsp: Rsp::VerifiedAmounts, exit: false });
    assert_eq!(actions[4], BobAction::AskUser(SwapAmounts { btc: 5, xmr: 6 }));
    assert_eq!(actions[5], BobAction::Reply { rsp: Rsp::Abort, exit: true });
}

#[test]
fn message0_state_never_changes_once_set() {
    let mut m: Message0<u32, u8> = Message0::default();
    assert_eq!(m.set_state(11), Ok(()));
    for round in 0u8..5 {
        assert_eq!(m.inject_event(InboundEvent::Message0Request(round)), Reaction::SendResponse);
        assert_eq!(m.state(), Some(&11));
        assert_eq!(m.set_state(round as u32), Err(SetStateError::AlreadySet));
        assert_eq!(m.state(), Some(&11));
        assert_eq!(m.poll(), Some(OutEvent::Msg(round)));
        assert_eq!(m.state(), Some(&11));
    }
}
