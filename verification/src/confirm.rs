use vstd::prelude::*;

verus! {

/// The answers that count as "yes" in the amount confirmation dialogue.
pub open spec fn is_yes_answer(s: Seq<char>) -> bool {
    ||| s == seq!['y']
    ||| s == seq!['Y']
    ||| s == seq!['y', 'e', 's']
    ||| s == seq!['Y', 'E', 'S']
    ||| s == seq!['Y', 'e', 's']
}

/// Whether the user's answer accepts the offer: exactly one of
/// `y`, `Y`, `yes`, `YES` or `Yes`.
pub fn is_yes(s: &str) -> (b: bool)
    ensures
        b == is_yes_answer(s@),
        b <==> (s@ =~= seq!['y'] || s@ =~= seq!['Y'] || s@ =~= seq!['y', 'e', 's'] || s@ =~= seq![
            'Y',
            'E',
            'S',
        ] || s@ =~= seq!['Y', 'e', 's']),
        b ==> (s@.len() == 1 || s@.len() == 3) && (s@[0] == 'y' || s@[0] == 'Y'),
{
    let n = s.unicode_len();
    if n == 1 {
        let c = s.get_char(0);
        proof {
            assert((s@ =~= seq!['y']) <==> s@[0] == 'y');
            assert((s@ =~= seq!['Y']) <==> s@[0] == 'Y');
        }
        c == 'y' || c == 'Y'
    } else if n == 3 {
        let c0 = s.get_char(0);
        let c1 = s.get_char(1);
        let c2 = s.get_char(2);
        proof {
            assert((s@ =~= seq!['y', 'e', 's']) <==> (s@[0] == 'y' && s@[1] == 'e' && s@[2] == 's'));
            assert((s@ =~= seq!['Y', 'E', 'S']) <==> (s@[0] == 'Y' && s@[1] == 'E' && s@[2] == 'S'));
            assert((s@ =~= seq!['Y', 'e', 's']) <==> (s@[0] == 'Y' && s@[1] == 'e' && s@[2] == 's'));
        }
        (c0 == 'y' && c1 == 'e' && c2 == 's') || (c0 == 'Y' && c1 == 'E' && c2 == 'S') || (c0
            == 'Y' && c1 == 'e' && c2 == 's')
    } else {
        false
    }
}

/// The line without its line ending: one trailing `\n` is dropped, then one trailing `\r`.
pub open spec fn without_line_ending(s: Seq<char>) -> Seq<char> {
    let s1 = if s.len() > 0 && s.last() == '\n' {
        s.drop_last()
    } else {
        s
    };
    if s1.len() > 0 && s1.last() == '\r' {
        s1.drop_last()
    } else {
        s1
    }
}

/// Drops the line ending that reading a line from the terminal leaves: a trailing `\n`,
/// then a trailing `\r`.
pub fn strip_line_ending(s: &str) -> (r: &str)
    ensures
        r@ == without_line_ending(s@),
        s@.len() >= 2 && s@[s@.len() - 2] == '\r' && s@[s@.len() - 1] == '\n' ==> r@ =~= s@.subrange(
            0,
            s@.len() - 2,
        ),
        s@.len() >= 1 && s@[s@.len() - 1] == '\n' && !(s@.len() >= 2 && s@[s@.len() - 2] == '\r')
            ==> r@ =~= s@.subrange(0, s@.len() - 1),
        s@.len() >= 1 && s@[s@.len() - 1] == '\r' ==> r@ =~= s@.subrange(0, s@.len() - 1),
        (s@.len() == 0 || (s@[s@.len() - 1] != '\n' && s@[s@.len() - 1] != '\r')) ==> r@ =~= s@,
{
    let n = s.unicode_len();
    let mut end = n;
    if end > 0 && s.get_char(end - 1) == '\n' {
        end = end - 1;
    }
    if end > 0 && s.get_char(end - 1) == '\r' {
        end = end - 1;
    }
    let r = s.substring_char(0, end);
    proof {
        let s1 = if s@.len() > 0 && s@.last() == '\n' {
            s@.drop_last()
        } else {
            s@
        };
        assert(s1 =~= s@.subrange(0, s1.len() as int));
        assert(without_line_ending(s@) =~= s@.subrange(0, end as int));
    }
    r
}

/// The reply to a request to confirm the offered amounts.
#[derive(Clone, Copy, Debug, PartialEq, Eq)]
pub enum Rsp {
    VerifiedAmounts,
    Abort,
}

/// The amounts of a swap offer.
#[derive(Clone, Copy, Debug, PartialEq, Eq)]
pub struct SwapAmounts {
    /// Bitcoin, in satoshis.
    pub btc: u64,
    /// Monero, in piconeros.
    pub xmr: u64,
}

/// A request of the swap to the user.
#[derive(Clone, Copy, Debug, PartialEq, Eq)]
pub enum Cmd {
    /// Ask the user to confirm these amounts.
    VerifyAmounts(SwapAmounts),
}

/// The reply that the user's typed answer gives.
pub open spec fn reply_to(answer: Seq<char>) -> Rsp {
    if is_yes_answer(without_line_ending(answer)) {
        Rsp::VerifiedAmounts
    } else {
        Rsp::Abort
    }
}

/// Turns the line the user typed to confirm the offered amounts into the reply: the
/// amounts are confirmed only by a "yes" answer, anything else aborts the swap.
pub fn verify_answer(answer: &str) -> (r: Rsp)
    ensures
        r == reply_to(answer@),
        r == Rsp::VerifiedAmounts <==> ({
            let t = without_line_ending(answer@);
            t =~= seq!['y'] || t =~= seq!['Y'] || t =~= seq!['y', 'e', 's'] || t =~= seq!['Y', 'E', 'S']
                || t =~= seq!['Y', 'e', 's']
        }),
        r == Rsp::Abort <==> !(r == Rsp::VerifiedAmounts),
{
    let line = strip_line_ending(answer);
    if is_yes(line) {
        Rsp::VerifiedAmounts
    } else {
        Rsp::Abort
    }
}

/// What the user-facing loop on Bob's side learns.
#[derive(Clone, Copy, Debug, PartialEq, Eq)]
pub enum BobEvent {
    /// The swap sent a request.
    Command(Cmd),
    /// The swap closed its request channel.
    ChannelClosed,
    /// The user answered the confirmation request.
    Answered(Rsp),
}

/// What the user-facing loop on Bob's side does next.
#[derive(Clone, Copy, Debug, PartialEq, Eq)]
pub enum BobAction {
    /// Show the amounts and ask the user to confirm them.
    AskUser(SwapAmounts),
    /// Send the reply to the swap, then end the process if `exit` holds, else wait for
    /// the next request.
    Reply { rsp: Rsp, exit: bool },
    /// Stop the loop successfully.
    Stop,
}

/// The next action of the user-facing loop on Bob's side.
pub open spec fn bob_action(event: BobEvent) -> BobAction {
    match event {
        BobEvent::Command(Cmd::VerifyAmounts(p)) => BobAction::AskUser(p),
        BobEvent::ChannelClosed => BobAction::Stop,
        BobEvent::Answered(rsp) => BobAction::Reply { rsp, exit: rsp == Rsp::Abort },
    }
}

/// One turn of the loop that serves the swap's requests to the user on Bob's side: a
/// request to confirm amounts is put to the user, the user's reply is sent back, an
/// aborting reply ends the process, and a closed channel ends the loop.
pub fn swap_as_bob_step(event: BobEvent) -> (a: BobAction)
    ensures
        a == bob_action(event),
        event matches BobEvent::Command(Cmd::VerifyAmounts(p)) ==> a == BobAction::AskUser(p),
        event == BobEvent::ChannelClosed ==> a == BobAction::Stop,
        event == BobEvent::Answered(Rsp::VerifiedAmounts) ==> a == (BobAction::Reply {
            rsp: Rsp::VerifiedAmounts,
            exit: false,
        }),
        event == BobEvent::Answered(Rsp::Abort) ==> a == (BobAction::Reply { rsp: Rsp::Abort, exit: true }),
{
    match event {
        BobEvent::Command(Cmd::VerifyAmounts(p)) => BobAction::AskUser(p),
        BobEvent::ChannelClosed => BobAction::Stop,
        BobEvent::Answered(rsp) => {
            let exit = match rsp {
                Rsp::Abort => true,
                Rsp::VerifiedAmounts => false,
            };
            BobAction::Reply { rsp, exit }
        },
    }
}

/// The events of a dialogue in which the swap sends the requests `cmds` one after the
/// other and the user answers each with the reply at the same index: a request, its
/// answer, the next request, and so on.
pub open spec fn dialogue_events(cmds: Seq<Cmd>, answers: Seq<Rsp>) -> Seq<BobEvent>
    decreases cmds.len(),
{
    if cmds.len() == 0 || answers.len() == 0 {
        Seq::empty()
    } else {
        seq![BobEvent::Command(cmds[0]), BobEvent::Answered(answers[0])] + dialogue_events(
            cmds.drop_first(),
            answers.drop_first(),
        )
    }
}

/// The actions of the loop for a run of events.
pub open spec fn bob_run(events: Seq<BobEvent>) -> Seq<BobAction>
    decreases events.len(),
{
    if events.len() == 0 {
        Seq::empty()
    } else {
        seq![bob_action(events[0])] + bob_run(events.drop_first())
    }
}

/// The replies sent to the swap in a run of actions, in order.
pub open spec fn replies_sent(actions: Seq<BobAction>) -> Seq<Rsp>
    decreases actions.len(),
{
    if actions.len() == 0 {
        Seq::empty()
    } else {
        let rest = replies_sent(actions.drop_first());
        match actions[0] {
            BobAction::Reply { rsp, .. } => seq![rsp] + rest,
            _ => rest,
        }
    }
}

/// The amounts a request asks the user to confirm.
pub open spec fn amounts_of(cmd: Cmd) -> SwapAmounts {
    match cmd {
        Cmd::VerifyAmounts(p) => p,
    }
}

/// The loop on Bob's side answers every request exactly once, in order: for requests
/// `p_1, ..., p_n` answered `r_1, ..., r_n`, it asks the user about `p_i` and then sends
/// `r_i` before it reads the next request, the replies sent are exactly `r_1, ..., r_n`,
/// and the process ends after a reply exactly when that reply aborts the swap. Since an
/// aborting reply ends the process, only the last answer of a run may abort.
pub proof fn lemma_one_reply_per_request_in_order(cmds: Seq<Cmd>, answers: Seq<Rsp>)
    requires
        cmds.len() == answers.len(),
        forall|i: int| 0 <= i < answers.len() - 1 ==> #[trigger] answers[i] == Rsp::VerifiedAmounts,
    ensures
        bob_run(dialogue_events(cmds, answers)).len() == 2 * cmds.len(),
        forall|i: int|
            0 <= i < cmds.len() ==> #[trigger] bob_run(dialogue_events(cmds, answers))[2 * i]
                == BobAction::AskUser(amounts_of(cmds[i])) && bob_run(dialogue_events(cmds, answers))[2 * i
                + 1] == (BobAction::Reply { rsp: answers[i], exit: answers[i] == Rsp::Abort }),
        replies_sent(bob_run(dialogue_events(cmds, answers))) == answers,
    decreases cmds.len(),
{
    if cmds.len() > 0 {
        let tc = cmds.drop_first();
        let ta = answers.drop_first();
        assert forall|i: int| 0 <= i < ta.len() - 1 implies #[trigger] ta[i] == Rsp::VerifiedAmounts by {
            assert(ta[i] == answers[i + 1]);
        }
        lemma_one_reply_per_request_in_order(tc, ta);
        let ev = dialogue_events(cmds, answers);
        let tail_ev = dialogue_events(tc, ta);
        assert(ev =~= seq![BobEvent::Command(cmds[0]), BobEvent::Answered(answers[0])] + tail_ev);
        assert(ev.drop_first() =~= seq![BobEvent::Answered(answers[0])] + tail_ev);
        assert(ev.drop_first().drop_first() =~= tail_ev);
        let run = bob_run(ev);
        let tail_run = bob_run(tail_ev);
        assert(bob_run(ev.drop_first()) == seq![bob_action(BobEvent::Answered(answers[0]))] + tail_run);
        assert(run =~= seq![
            bob_action(BobEvent::Command(cmds[0])),
            bob_action(BobEvent::Answered(answers[0])),
        ] + tail_run);
        match cmds[0] {
            Cmd::VerifyAmounts(p) => {},
        }
        assert(run.drop_first().drop_first() =~= tail_run);
        assert(run.drop_first() =~= seq![bob_action(BobEvent::Answered(answers[0]))] + tail_run);
        assert(replies_sent(run.drop_first()) == seq![answers[0]] + replies_sent(tail_run));
        assert(replies_sent(run) =~= answers);
        assert forall|i: int| 0 <= i < cmds.len() implies #[trigger] run[2 * i] == BobAction::AskUser(
            amounts_of(cmds[i]),
        ) && run[2 * i + 1] == (BobAction::Reply { rsp: answers[i], exit: answers[i] == Rsp::Abort }) by {
            if i > 0 {
                assert(run[2 * i] == tail_run[2 * (i - 1)]);
                assert(run[2 * i + 1] == tail_run[2 * (i - 1) + 1]);
                assert(cmds[i] == tc[i - 1]);
                assert(answers[i] == ta[i - 1]);
            }
        }
    } else {
        assert(dialogue_events(cmds, answers) =~= Seq::<BobEvent>::empty());
    }
}

/// The amounts are confirmed by exactly the five answers `y`, `Y`, `yes`, `YES` and
/// `Yes`, each possibly followed by the line ending `\n`, `\r` or `\r\n`; every other
/// line aborts. In particular a `n` or `No` answer aborts.
pub proof fn lemma_only_yes_confirms(answer: Seq<char>)
    ensures
        is_yes_answer(answer) <==> (answer =~= seq!['y'] || answer =~= seq!['Y'] || answer =~= seq![
            'y',
            'e',
            's',
        ] || answer =~= seq!['Y', 'E', 'S'] || answer =~= seq!['Y', 'e', 's']),
        (answer.len() == 0 || (answer.last() != '\n' && answer.last() != '\r')) ==> without_line_ending(
            answer,
        ) == answer,
        without_line_ending(answer.push('\r')) =~= answer,
        (answer.len() == 0 || answer.last() != '\r') ==> without_line_ending(answer.push('\n'))
            =~= answer,
        without_line_ending(answer.push('\r').push('\n')) =~= answer,
        reply_to(answer) == Rsp::VerifiedAmounts <==> is_yes_answer(without_line_ending(answer)),
        reply_to(seq!['n', '\n']) == Rsp::Abort,
        reply_to(seq!['N', 'o', '\n']) == Rsp::Abort,
{
    let a1 = answer.push('\r');
    assert(a1.drop_last() =~= answer);
    let a2 = answer.push('\n');
    assert(a2.drop_last() =~= answer);
    let a3 = a1.push('\n');
    assert(a3.drop_last() =~= a1);
    assert(without_line_ending(seq!['n', '\n']) =~= seq!['n']);
    assert(without_line_ending(seq!['N', 'o', '\n']) =~= seq!['N', 'o']);
    assert(!(seq!['n'] =~= seq!['y']));
    assert(!(seq!['n'] =~= seq!['Y']));
}

} // verus!
