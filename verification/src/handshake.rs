use vstd::prelude::*;
use crate::chain::ChainConnectionDetails;

verus! {

/// The next piece of outside work in establishing a connection and a
/// channel with a chain. Identifiers are those produced by earlier steps.
#[derive(Debug, Clone)]
pub enum ConnectAction {
    /// Create the solo machine client on the chain; yields its client id.
    CreateSoloMachineClient,
    /// Create the tendermint client on the solo machine; yields its client id.
    CreateTendermintClient,
    /// Initialise the connection on the chain; yields its connection id.
    ConnectionOpenInit { solo_machine_client_id: String, tendermint_client_id: String },
    /// Open the connection on the solo machine; yields its connection id.
    ConnectionOpenTry {
        tendermint_client_id: String,
        solo_machine_client_id: String,
        solo_machine_connection_id: String,
    },
    /// Acknowledge the connection on the chain.
    ConnectionOpenAck {
        solo_machine_connection_id: String,
        tendermint_client_id: String,
        tendermint_connection_id: String,
    },
    /// Confirm the connection on the solo machine.
    ConnectionOpenConfirm { tendermint_connection_id: String },
    /// Initialise the channel on the chain; yields its channel id.
    ChannelOpenInit { solo_machine_connection_id: String },
    /// Open the channel on the solo machine; yields its channel id.
    ChannelOpenTry { solo_machine_channel_id: String, tendermint_connection_id: String },
    /// Acknowledge the channel on the chain.
    ChannelOpenAck { solo_machine_channel_id: String, tendermint_channel_id: String },
    /// Confirm the channel on the solo machine.
    ChannelOpenConfirm { tendermint_channel_id: String },
    /// Record the identifiers of the established connection.
    SaveConnectionDetails { details: ChainConnectionDetails },
    /// Everything is done.
    Finished,
    /// A step failed; nothing more is done.
    Aborted,
}

/// What performing an action gave.
#[derive(Debug, Clone)]
pub enum StepOutcome {
    /// The step succeeded and produced this identifier.
    Created(String),
    /// The step succeeded without producing an identifier.
    Succeeded,
    /// The step failed.
    Failed,
}

/// The mathematical content of an action: its kind and the identifiers it
/// carries.
pub open spec fn action_view(a: ConnectAction) -> (nat, Seq<Seq<char>>) {
    match a {
        ConnectAction::CreateSoloMachineClient => (0, seq![]),
        ConnectAction::CreateTendermintClient => (1, seq![]),
        ConnectAction::ConnectionOpenInit { solo_machine_client_id, tendermint_client_id } => (
            2,
            seq![solo_machine_client_id@, tendermint_client_id@],
        ),
        ConnectAction::ConnectionOpenTry {
            tendermint_client_id,
            solo_machine_client_id,
            solo_machine_connection_id,
        } => (3, seq![tendermint_client_id@, solo_machine_client_id@, solo_machine_connection_id@]),
        ConnectAction::ConnectionOpenAck {
            solo_machine_connection_id,
            tendermint_client_id,
            tendermint_connection_id,
        } => (4, seq![solo_machine_connection_id@, tendermint_client_id@, tendermint_connection_id@]),
        ConnectAction::ConnectionOpenConfirm { tendermint_connection_id } => (
            5,
            seq![tendermint_connection_id@],
        ),
        ConnectAction::ChannelOpenInit { solo_machine_connection_id } => (
            6,
            seq![solo_machine_connection_id@],
        ),
        ConnectAction::ChannelOpenTry { solo_machine_channel_id, tendermint_connection_id } => (
            7,
            seq![solo_machine_channel_id@, tendermint_connection_id@],
        ),
        ConnectAction::ChannelOpenAck { solo_machine_channel_id, tendermint_channel_id } => (
            8,
            seq![solo_machine_channel_id@, tendermint_channel_id@],
        ),
        ConnectAction::ChannelOpenConfirm { tendermint_channel_id } => (
            9,
            seq![tendermint_channel_id@],
        ),
        ConnectAction::SaveConnectionDetails { details } => (
            10,
            seq![
                details.solo_machine_client_id@,
                details.tendermint_client_id@,
                details.solo_machine_connection_id@,
                details.tendermint_connection_id@,
                details.solo_machine_channel_id@,
                details.tendermint_channel_id@,
            ],
        ),
        ConnectAction::Finished => (11, seq![]),
        ConnectAction::Aborted => (12, seq![]),
    }
}

/// Stages at which the step produces an identifier.
pub open spec fn stage_creates(stage: nat) -> bool {
    stage == 0 || stage == 1 || stage == 2 || stage == 3 || stage == 6 || stage == 7
}

/// How many identifiers the steps before `stage` produce.
pub open spec fn ids_before(stage: nat) -> nat {
    if stage <= 4 {
        stage
    } else if stage <= 6 {
        4
    } else if stage == 7 {
        5
    } else {
        6
    }
}

/// The action due at `stage`, given the identifiers `ids` produced so far
/// (in the order: solo machine client, tendermint client, solo machine
/// connection, tendermint connection, solo machine channel, tendermint
/// channel).
pub open spec fn spec_action(stage: nat, ids: Seq<Seq<char>>) -> (nat, Seq<Seq<char>>) {
    if stage == 0 {
        (0, seq![])
    } else if stage == 1 {
        (1, seq![])
    } else if stage == 2 {
        (2, seq![ids[0], ids[1]])
    } else if stage == 3 {
        (3, seq![ids[1], ids[0], ids[2]])
    } else if stage == 4 {
        (4, seq![ids[2], ids[1], ids[3]])
    } else if stage == 5 {
        (5, seq![ids[3]])
    } else if stage == 6 {
        (6, seq![ids[2]])
    } else if stage == 7 {
        (7, seq![ids[4], ids[3]])
    } else if stage == 8 {
        (8, seq![ids[4], ids[5]])
    } else if stage == 9 {
        (9, seq![ids[5]])
    } else if stage == 10 {
        (10, ids)
    } else if stage == 11 {
        (11, seq![])
    } else {
        (12, seq![])
    }
}

/// The abstract state that an outcome leads to: a fitting outcome moves to
/// the next stage (recording a produced identifier); a failure, or an outcome
/// that does not fit the step, aborts; the final stages stay put.
pub open spec fn spec_step(stage: nat, ids: Seq<Seq<char>>, outcome: StepOutcome) -> (
    nat,
    Seq<Seq<char>>,
) {
    if stage >= 11 {
        (stage, ids)
    } else {
        match outcome {
            StepOutcome::Created(id) => if stage_creates(stage) {
                (stage + 1, ids.push(id@))
            } else {
                (12, ids)
            },
            StepOutcome::Succeeded => if !stage_creates(stage) {
                (stage + 1, ids)
            } else {
                (12, ids)
            },
            StepOutcome::Failed => (12, ids),
        }
    }
}

/// The state reached from (`stage`, `ids`) after the outcomes `outs`, taken
/// in order.
pub open spec fn run_steps(stage: nat, ids: Seq<Seq<char>>, outs: Seq<StepOutcome>) -> (
    nat,
    Seq<Seq<char>>,
)
    decreases outs.len(),
{
    if outs.len() == 0 {
        (stage, ids)
    } else {
        let next = spec_step(stage, ids, outs[0]);
        run_steps(next.0, next.1, outs.drop_first())
    }
}

/// The identifiers that the outcomes `outs` produced, in order.
pub open spec fn created_ids(outs: Seq<StepOutcome>) -> Seq<Seq<char>>
    decreases outs.len(),
{
    if outs.len() == 0 {
        seq![]
    } else {
        match outs[0] {
            StepOutcome::Created(id) => seq![id@] + created_ids(outs.drop_first()),
            _ => created_ids(outs.drop_first()),
        }
    }
}

/// Once over (finished or aborted), a handshake stays where it is, whatever
/// outcome comes.
pub proof fn lemma_over_is_final(stage: nat, ids: Seq<Seq<char>>, outs: Seq<StepOutcome>)
    requires
        stage >= 11,
    ensures
        run_steps(stage, ids, outs) == (stage, ids),
    decreases outs.len(),
{
    if outs.len() > 0 {
        lemma_over_is_final(stage, ids, outs.drop_first());
    }
}

/// A failed step aborts a handshake that is not over.
pub proof fn lemma_failure_aborts(stage: nat, ids: Seq<Seq<char>>, outs: Seq<StepOutcome>)
    requires
        stage < 11,
    ensures
        run_steps(stage, ids, seq![StepOutcome::Failed] + outs) == (12nat, ids),
{
    let all = seq![StepOutcome::Failed] + outs;
    assert(all[0] == StepOutcome::Failed);
    assert(all.drop_first() =~= outs);
    lemma_over_is_final(12, ids, outs);
}

proof fn lemma_reaching_save(stage: nat, ids: Seq<Seq<char>>, outs: Seq<StepOutcome>)
    requires
        stage <= 10,
        run_steps(stage, ids, outs).0 == 10,
    ensures
        outs.len() + stage == 10,
        forall|i: int| 0 <= i < outs.len() ==> !(#[trigger] outs[i] is Failed),
        run_steps(stage, ids, outs).1 == ids + created_ids(outs),
    decreases outs.len(),
{
    if outs.len() == 0 {
        assert(ids + created_ids(outs) =~= ids);
    } else {
        let next = spec_step(stage, ids, outs[0]);
        if next.0 >= 11 {
            lemma_over_is_final(next.0, next.1, outs.drop_first());
        } else {
            lemma_reaching_save(next.0, next.1, outs.drop_first());
            assert forall|i: int| 0 <= i < outs.len() implies !(#[trigger] outs[i] is Failed) by {
                if i > 0 {
                    assert(outs[i] == outs.drop_first()[i - 1]);
                }
            }
            match outs[0] {
                StepOutcome::Created(id) => {
                    assert(ids.push(id@) + created_ids(outs.drop_first()) =~= ids + (seq![id@]
                        + created_ids(outs.drop_first())));
                },
                _ => {},
            }
        }
    }
}

/// The connection details are saved only after all ten steps before that
/// succeeded, one outcome each and none failed, and they hold exactly the
/// identifiers those steps produced, in the order produced.
pub proof fn lemma_save_follows_full_success(outs: Seq<StepOutcome>)
    requires
        run_steps(0, seq![], outs).0 == 10,
    ensures
        outs.len() == 10,
        forall|i: int| 0 <= i < outs.len() ==> !(#[trigger] outs[i] is Failed),
        run_steps(0, seq![], outs).1 == created_ids(outs),
        spec_action(10, run_steps(0, seq![], outs).1) == (10nat, created_ids(outs)),
{
    lemma_reaching_save(0, seq![], outs);
    assert(seq![] + created_ids(outs) =~= created_ids(outs));
}

/// The outcomes of a handshake in which every step succeeds and the
/// creating steps produce the identifiers `ids` (solo machine client,
/// tendermint client, solo machine connection, tendermint connection, solo
/// machine channel, tendermint channel).
pub open spec fn successful_outcomes(ids: Seq<String>) -> Seq<StepOutcome> {
    seq![
        StepOutcome::Created(ids[0]),
        StepOutcome::Created(ids[1]),
        StepOutcome::Created(ids[2]),
        StepOutcome::Created(ids[3]),
        StepOutcome::Succeeded,
        StepOutcome::Succeeded,
        StepOutcome::Created(ids[4]),
        StepOutcome::Created(ids[5]),
        StepOutcome::Succeeded,
        StepOutcome::Succeeded,
    ]
}

/// When every step succeeds, the handshake comes to saving exactly the six
/// identifiers produced, and one more success finishes it.
pub proof fn lemma_successful_handshake(ids: Seq<String>)
    requires
        ids.len() == 6,
    ensures
        run_steps(0, seq![], successful_outcomes(ids)) == (
            10nat,
            seq![ids[0]@, ids[1]@, ids[2]@, ids[3]@, ids[4]@, ids[5]@],
        ),
        spec_action(10, seq![ids[0]@, ids[1]@, ids[2]@, ids[3]@, ids[4]@, ids[5]@]).1 == seq![
            ids[0]@,
            ids[1]@,
            ids[2]@,
            ids[3]@,
            ids[4]@,
            ids[5]@,
        ],
        spec_step(10, seq![ids[0]@, ids[1]@, ids[2]@, ids[3]@, ids[4]@, ids[5]@], StepOutcome::Succeeded).0
            == 11,
{
    let outs = successful_outcomes(ids);
    reveal_with_fuel(run_steps, 11);
    assert(outs.drop_first() =~= outs.subrange(1, 10));
    assert(outs.subrange(1, 10).drop_first() =~= outs.subrange(2, 10));
    assert(outs.subrange(2, 10).drop_first() =~= outs.subrange(3, 10));
    assert(outs.subrange(3, 10).drop_first() =~= outs.subrange(4, 10));
    assert(outs.subrange(4, 10).drop_first() =~= outs.subrange(5, 10));
    assert(outs.subrange(5, 10).drop_first() =~= outs.subrange(6, 10));
    assert(outs.subrange(6, 10).drop_first() =~= outs.subrange(7, 10));
    assert(outs.subrange(7, 10).drop_first() =~= outs.subrange(8, 10));
    assert(outs.subrange(8, 10).drop_first() =~= outs.subrange(9, 10));
    assert(outs.subrange(9, 10).drop_first() =~= Seq::<StepOutcome>::empty());
    let e: Seq<Seq<char>> = seq![];
    assert(e.push(ids[0]@).push(ids[1]@).push(ids[2]@).push(ids[3]@).push(ids[4]@).push(ids[5]@)
        =~= seq![ids[0]@, ids[1]@, ids[2]@, ids[3]@, ids[4]@, ids[5]@]);
}

/// Running two lists of outcomes one after the other is running the first,
/// then the second from where the first left off.
proof fn lemma_run_concat(stage: nat, ids: Seq<Seq<char>>, a: Seq<StepOutcome>, b: Seq<StepOutcome>)
    ensures
        run_steps(stage, ids, a + b) == run_steps(
            run_steps(stage, ids, a).0,
            run_steps(stage, ids, a).1,
            b,
        ),
    decreases a.len(),
{
    if a.len() == 0 {
        assert(a + b =~= b);
    } else {
        let next = spec_step(stage, ids, a[0]);
        assert((a + b)[0] == a[0]);
        assert((a + b).drop_first() =~= a.drop_first() + b);
        lemma_run_concat(next.0, next.1, a.drop_first(), b);
    }
}

/// A run that has not ended took one stage per outcome, recorded one
/// identifier per creating stage, and kept the identifiers it started with.
proof fn lemma_run_progress(stage: nat, ids: Seq<Seq<char>>, outs: Seq<StepOutcome>)
    requires
        stage <= 10,
        run_steps(stage, ids, outs).0 <= 10,
    ensures
        run_steps(stage, ids, outs).0 == stage + outs.len(),
        run_steps(stage, ids, outs).1.len() == ids.len() + ids_before(run_steps(stage, ids, outs).0)
            - ids_before(stage),
        run_steps(stage, ids, outs).1.subrange(0, ids.len() as int) == ids,
    decreases outs.len(),
{
    if outs.len() == 0 {
        assert(ids.subrange(0, ids.len() as int) =~= ids);
    } else {
        let next = spec_step(stage, ids, outs[0]);
        if next.0 >= 11 {
            lemma_over_is_final(next.0, next.1, outs.drop_first());
        } else {
            lemma_run_progress(next.0, next.1, outs.drop_first());
            let r = run_steps(next.0, next.1, outs.drop_first());
            assert(next.1.subrange(0, ids.len() as int) =~= ids);
            assert(r.1.subrange(0, ids.len() as int) =~= r.1.subrange(
                0,
                next.1.len() as int,
            ).subrange(0, ids.len() as int));
        }
    }
}

/// The channel on the chain's side is opened over the tendermint
/// connection: in every run from the start that comes to the
/// channel-open-try step, the fourth step was connection-open-try and the
/// seventh channel-open-init, both produced an identifier, and the
/// channel-open-try step carries the channel produced by channel-open-init
/// and the connection produced by connection-open-try (neither client nor
/// the solo machine's connection).
pub proof fn lemma_channel_open_try_uses_the_tendermint_connection(outs: Seq<StepOutcome>)
    requires
        spec_action(run_steps(0, seq![], outs).0, run_steps(0, seq![], outs).1).0 == 7,
    ensures
        outs.len() == 7,
        spec_action(
            run_steps(0, seq![], outs.take(3)).0,
            run_steps(0, seq![], outs.take(3)).1,
        ).0 == 3,
        spec_action(
            run_steps(0, seq![], outs.take(6)).0,
            run_steps(0, seq![], outs.take(6)).1,
        ).0 == 6,
        outs[3] is Created,
        outs[6] is Created,
        spec_action(run_steps(0, seq![], outs).0, run_steps(0, seq![], outs).1).1 == seq![
            outs[6]->0@,
            outs[3]->0@,
        ],
{
    let e: Seq<Seq<char>> = seq![];
    let r = run_steps(0, e, outs);
    assert(r.0 == 7);
    lemma_run_progress(0, e, outs);
    assert(outs.len() == 7);
    // up to the connection-open-try step
    let a3 = outs.take(3);
    let b3 = outs.skip(3);
    assert(outs =~= a3 + b3);
    lemma_run_concat(0, e, a3, b3);
    let m3 = run_steps(0, e, a3);
    if m3.0 >= 11 {
        lemma_over_is_final(m3.0, m3.1, b3);
    }
    lemma_run_progress(0, e, a3);
    assert(m3.0 == 3 && m3.1.len() == 3);
    assert(b3[0] == outs[3]);
    assert(b3.drop_first() =~= outs.skip(4));
    let m4 = spec_step(3, m3.1, outs[3]);
    if m4.0 >= 11 {
        lemma_over_is_final(m4.0, m4.1, outs.skip(4));
    }
    assert(outs[3] is Created);
    assert(m4.1 == m3.1.push(outs[3]->0@));
    lemma_run_progress(4, m4.1, outs.skip(4));
    assert(r.1.subrange(0, 4)[3] == r.1[3]);
    assert(r.1[3] == outs[3]->0@);
    // up to the channel-open-init step
    let a6 = outs.take(6);
    let b6 = outs.skip(6);
    assert(outs =~= a6 + b6);
    lemma_run_concat(0, e, a6, b6);
    let m6 = run_steps(0, e, a6);
    if m6.0 >= 11 {
        lemma_over_is_final(m6.0, m6.1, b6);
    }
    lemma_run_progress(0, e, a6);
    assert(m6.0 == 6 && m6.1.len() == 4);
    assert(b6[0] == outs[6]);
    assert(b6.drop_first() =~= Seq::<StepOutcome>::empty());
    let m7 = spec_step(6, m6.1, outs[6]);
    if m7.0 >= 11 {
        lemma_over_is_final(m7.0, m7.1, b6.drop_first());
    }
    assert(outs[6] is Created);
    assert(run_steps(m7.0, m7.1, b6.drop_first()) == m7);
    assert(run_steps(6, m6.1, b6) == run_steps(m7.0, m7.1, b6.drop_first()));
    assert(r == m7);
    assert(r.1[4] == outs[6]->0@);
    assert(spec_action(7, r.1).1 =~= seq![outs[6]->0@, outs[3]->0@]);
}

/// The channel-open-try step goes over the connection that is then saved as
/// the tendermint connection: in every run from the start that comes to
/// saving the connection details, the eighth step was channel-open-try, and
/// it carried the fifth saved identifier (the solo machine channel) and the
/// fourth (the tendermint connection); so it carries none of the first three
/// saved identifiers where they differ from the fourth.
pub proof fn lemma_channel_open_try_connection_is_saved(outs: Seq<StepOutcome>)
    requires
        run_steps(0, seq![], outs).0 == 10,
    ensures
        run_steps(0, seq![], outs.take(7)).0 == 7,
        spec_action(7, run_steps(0, seq![], outs.take(7)).1).0 == 7,
        spec_action(7, run_steps(0, seq![], outs.take(7)).1).1[0] == spec_action(
            10,
            run_steps(0, seq![], outs).1,
        ).1[4],
        spec_action(7, run_steps(0, seq![], outs.take(7)).1).1[1] == spec_action(
            10,
            run_steps(0, seq![], outs).1,
        ).1[3],
        forall|i: int|
            0 <= i < 3 && spec_action(10, run_steps(0, seq![], outs).1).1[i] != spec_action(
                10,
                run_steps(0, seq![], outs).1,
            ).1[3] ==> spec_action(7, run_steps(0, seq![], outs.take(7)).1).1[1] != #[trigger] spec_action(
                10,
                run_steps(0, seq![], outs).1,
            ).1[i],
{
    let e: Seq<Seq<char>> = seq![];
    lemma_save_follows_full_success(outs);
    let a7 = outs.take(7);
    let b7 = outs.skip(7);
    assert(outs =~= a7 + b7);
    lemma_run_concat(0, e, a7, b7);
    let m7 = run_steps(0, e, a7);
    if m7.0 >= 11 {
        lemma_over_is_final(m7.0, m7.1, b7);
    }
    lemma_run_progress(0, e, a7);
    assert(m7.0 == 7 && m7.1.len() == 5);
    lemma_run_progress(7, m7.1, b7);
    let r = run_steps(0, e, outs);
    assert(r.1.subrange(0, 5) == m7.1);
    assert(r.1[3] == m7.1[3]);
    assert(r.1[4] == m7.1[4]);
}

/// The action due after the first `k` outcomes of `outs`, from the start.
pub open spec fn action_after(outs: Seq<StepOutcome>, k: int) -> (nat, Seq<Seq<char>>) {
    spec_action(run_steps(0, seq![], outs.take(k)).0, run_steps(0, seq![], outs.take(k)).1)
}

/// In a run from the start that comes to saving the connection details, the
/// first `k` outcomes led to stage `k`, with the first identifiers saved.
proof fn lemma_prefix_of_saving_run(outs: Seq<StepOutcome>, k: nat)
    requires
        run_steps(0, seq![], outs).0 == 10,
        k <= 10,
    ensures
        run_steps(0, seq![], outs.take(k as int)).0 == k,
        run_steps(0, seq![], outs.take(k as int)).1 == run_steps(0, seq![], outs).1.subrange(
            0,
            ids_before(k) as int,
        ),
{
    let e: Seq<Seq<char>> = seq![];
    lemma_save_follows_full_success(outs);
    let a = outs.take(k as int);
    let b = outs.skip(k as int);
    assert(outs =~= a + b);
    lemma_run_concat(0, e, a, b);
    let m = run_steps(0, e, a);
    if m.0 >= 11 {
        lemma_over_is_final(m.0, m.1, b);
    }
    lemma_run_progress(0, e, a);
    lemma_run_progress(m.0, m.1, b);
}

/// Every step of a handshake that comes to saving the connection details
/// carried the identifiers that are then saved, each in its place: the
/// connection is initialised between the two clients, opened on the solo
/// machine towards the solo machine's connection, acknowledged and confirmed
/// with the tendermint connection; the channel is initialised over the solo
/// machine's connection, opened over the tendermint connection, acknowledged
/// and confirmed with the tendermint channel. The saved identifiers are, in
/// order: solo machine client, tendermint client, solo machine connection,
/// tendermint connection, solo machine channel, tendermint channel.
pub proof fn lemma_steps_carry_the_saved_identifiers(outs: Seq<StepOutcome>)
    requires
        run_steps(0, seq![], outs).0 == 10,
    ensures
        ({
            let d = run_steps(0, seq![], outs).1;
            &&& d.len() == 6
            &&& action_after(outs, 0) == (0nat, Seq::<Seq<char>>::empty())
            &&& action_after(outs, 1) == (1nat, Seq::<Seq<char>>::empty())
            &&& action_after(outs, 2) == (2nat, seq![d[0], d[1]])
            &&& action_after(outs, 3) == (3nat, seq![d[1], d[0], d[2]])
            &&& action_after(outs, 4) == (4nat, seq![d[2], d[1], d[3]])
            &&& action_after(outs, 5) == (5nat, seq![d[3]])
            &&& action_after(outs, 6) == (6nat, seq![d[2]])
            &&& action_after(outs, 7) == (7nat, seq![d[4], d[3]])
            &&& action_after(outs, 8) == (8nat, seq![d[4], d[5]])
            &&& action_after(outs, 9) == (9nat, seq![d[5]])
            &&& action_after(outs, 10) == (10nat, d)
        }),
{
    let d = run_steps(0, seq![], outs).1;
    lemma_save_follows_full_success(outs);
    lemma_run_progress(0, seq![], outs);
    lemma_prefix_of_saving_run(outs, 0);
    lemma_prefix_of_saving_run(outs, 1);
    lemma_prefix_of_saving_run(outs, 2);
    lemma_prefix_of_saving_run(outs, 3);
    lemma_prefix_of_saving_run(outs, 4);
    lemma_prefix_of_saving_run(outs, 5);
    lemma_prefix_of_saving_run(outs, 6);
    lemma_prefix_of_saving_run(outs, 7);
    lemma_prefix_of_saving_run(outs, 8);
    lemma_prefix_of_saving_run(outs, 9);
    lemma_prefix_of_saving_run(outs, 10);
    assert(outs.take(10) =~= outs);
    assert(action_after(outs, 2).1 =~= seq![d[0], d[1]]);
    assert(action_after(outs, 3).1 =~= seq![d[1], d[0], d[2]]);
    assert(action_after(outs, 4).1 =~= seq![d[2], d[1], d[3]]);
    assert(action_after(outs, 5).1 =~= seq![d[3]]);
    assert(action_after(outs, 6).1 =~= seq![d[2]]);
    assert(action_after(outs, 7).1 =~= seq![d[4], d[3]]);
    assert(action_after(outs, 8).1 =~= seq![d[4], d[5]]);
    assert(action_after(outs, 9).1 =~= seq![d[5]]);
}

/// The state of establishing a connection and channel with a chain.
pub struct ConnectHandshake {
    stage: u8,
    ids: Vec<String>,
}

impl ConnectHandshake {
    pub closed spec fn stage(self) -> nat {
        self.stage as nat
    }

    pub closed spec fn ids(self) -> Seq<Seq<char>> {
        Seq::new(self.ids@.len(), |i: int| self.ids@[i]@)
    }

    /// The stage is one of the thirteen and the identifiers recorded are
    /// those the earlier steps produce.
    pub closed spec fn wf(self) -> bool {
        &&& self.stage <= 12
        &&& (self.stage <= 11 ==> self.ids@.len() == ids_before(self.stage as nat))
        &&& self.ids@.len() <= 6
    }

    /// The handshake before any step.
    pub fn new() -> (r: ConnectHandshake)
        ensures
            r.wf(),
            r.stage() == 0,
            r.ids() == Seq::<Seq<char>>::empty(),
    {
        let r = ConnectHandshake { stage: 0, ids: Vec::new() };
        assert(r.ids() =~= Seq::<Seq<char>>::empty());
        r
    }

    /// The action due now.
    pub fn next_action(&self) -> (a: ConnectAction)
        requires
            self.wf(),
        ensures
            action_view(a) == spec_action(self.stage(), self.ids()),
    {
        let ghost ids = self.ids();
        let s = self.stage;
        let a = if s == 0 {
            ConnectAction::CreateSoloMachineClient
        } else if s == 1 {
            ConnectAction::CreateTendermintClient
        } else if s == 2 {
            ConnectAction::ConnectionOpenInit {
                solo_machine_client_id: self.ids[0].clone(),
                tendermint_client_id: self.ids[1].clone(),
            }
        } else if s == 3 {
            ConnectAction::ConnectionOpenTry {
                tendermint_client_id: self.ids[1].clone(),
                solo_machine_client_id: self.ids[0].clone(),
                solo_machine_connection_id: self.ids[2].clone(),
            }
        } else if s == 4 {
            ConnectAction::ConnectionOpenAck {
                solo_machine_connection_id: self.ids[2].clone(),
                tendermint_client_id: self.ids[1].clone(),
                tendermint_connection_id: self.ids[3].clone(),
            }
        } else if s == 5 {
            ConnectAction::ConnectionOpenConfirm { tendermint_connection_id: self.ids[3].clone() }
        } else if s == 6 {
            ConnectAction::ChannelOpenInit { solo_machine_connection_id: self.ids[2].clone() }
        } else if s == 7 {
            ConnectAction::ChannelOpenTry {
                solo_machine_channel_id: self.ids[4].clone(),
                tendermint_connection_id: self.ids[3].clone(),
            }
        } else if s == 8 {
            ConnectAction::ChannelOpenAck {
                solo_machine_channel_id: self.ids[4].clone(),
                tendermint_channel_id: self.ids[5].clone(),
            }
        } else if s == 9 {
            ConnectAction::ChannelOpenConfirm { tendermint_channel_id: self.ids[5].clone() }
        } else if s == 10 {
            ConnectAction::SaveConnectionDetails {
                details: ChainConnectionDetails {
                    solo_machine_client_id: self.ids[0].clone(),
                    tendermint_client_id: self.ids[1].clone(),
                    solo_machine_connection_id: self.ids[2].clone(),
                    tendermint_connection_id: self.ids[3].clone(),
                    solo_machine_channel_id: self.ids[4].clone(),
                    tendermint_channel_id: self.ids[5].clone(),
                },
            }
        } else if s == 11 {
            ConnectAction::Finished
        } else {
            ConnectAction::Aborted
        };
        proof {
            if s == 10 {
                assert(action_view(a).1 =~= ids);
            }
        }
        a
    }

    /// Takes in the outcome of the action that was due.
    pub fn on_outcome(&mut self, outcome: StepOutcome)
        requires
            old(self).wf(),
        ensures
            final(self).wf(),
            (final(self).stage(), final(self).ids()) == spec_step(
                old(self).stage(),
                old(self).ids(),
                outcome,
            ),
    {
        let ghost old_ids = self.ids();
        if self.stage >= 11 {
            return;
        }
        let creates = self.stage == 0 || self.stage == 1 || self.stage == 2 || self.stage == 3
            || self.stage == 6 || self.stage == 7;
        match outcome {
            StepOutcome::Created(id) => {
                if creates {
                    self.ids.push(id);
                    self.stage = self.stage + 1;
                    assert(self.ids() =~= old_ids.push(id@));
                } else {
                    self.stage = 12;
                }
            },
            StepOutcome::Succeeded => {
                if !creates {
                    self.stage = self.stage + 1;
                } else {
                    self.stage = 12;
                }
            },
            StepOutcome::Failed => {
                self.stage = 12;
            },
        }
    }

    /// The handshake is over (finished or aborted).
    pub fn is_over(&self) -> (r: bool)
        ensures
            r == (self.stage() >= 11),
    {
        self.stage >= 11
    }

    /// The handshake established the connection and recorded it.
    pub fn is_finished(&self) -> (r: bool)
        ensures
            r == (self.stage() == 11),
    {
        self.stage == 11
    }
}

} // verus!
