use vstd::prelude::*;
use crate::model::{numbered, MachineModel, PhaseModel};
use crate::types::{ActionModel, FailureKindModel, FailureModel, ReplyModel};

verus! {

/// The actions that follow state `m` when the backend gives `replies`, one
/// for each action asked of it, up to and including `Finish`. Replies left
/// over after `Finish` are never asked for.
pub open spec fn run(m: MachineModel, replies: Seq<ReplyModel>) -> Seq<ActionModel>
    decreases replies.len(),
{
    if replies.len() == 0 || m.is_finished() {
        Seq::empty()
    } else {
        let (m2, a) = m.next(replies[0]);
        seq![a] + run(m2, replies.drop_first())
    }
}

/// Every action of the upload of parts of `sizes` to `target`, starting
/// with `BeginSession`, when the backend gives `replies`.
pub open spec fn session(
    target: (Seq<char>, Seq<char>),
    sizes: Seq<usize>,
    replies: Seq<ReplyModel>,
) -> Seq<ActionModel> {
    seq![ActionModel::BeginSession] + run(MachineModel::initial(target, sizes), replies)
}

/// The calls that send parts `from + 1` through `to` (1-based), in order.
pub open spec fn upload_calls(upload_id: Seq<char>, sizes: Seq<usize>, from: int, to: int) -> Seq<
    ActionModel,
> {
    Seq::new(
        (to - from) as nat,
        |i: int|
            ActionModel::UploadPart {
                upload_id,
                part_number: (from + i + 1) as usize,
                length: sizes[from + i],
            },
    )
}

/// Successful answers to part uploads, with these integrity tags.
pub open spec fn successes(tags: Seq<Option<Seq<char>>>) -> Seq<ReplyModel> {
    tags.map_values(|t: Option<Seq<char>>| ReplyModel::Succeeded(t))
}

/// The session token that an action names, if any.
pub open spec fn token_of(a: ActionModel) -> Option<Seq<char>> {
    match a {
        ActionModel::UploadPart { upload_id, .. } => Some(upload_id),
        ActionModel::FinalizeSession { upload_id, .. } => Some(upload_id),
        ActionModel::AbortSession { upload_id } => Some(upload_id),
        ActionModel::Finish(Err(f)) => f.upload_id,
        _ => None,
    }
}

proof fn lemma_numbered_push(tags: Seq<Option<Seq<char>>>, j: int)
    requires
        0 <= j < tags.len(),
        tags.len() <= usize::MAX,
    ensures
        numbered(tags.take(j)).push(((j + 1) as usize, tags[j])) == numbered(tags.take(j + 1)),
{
    assert(numbered(tags.take(j)).push(((j + 1) as usize, tags[j])) =~= numbered(tags.take(j + 1)));
}

/// While parts keep succeeding, each answer asks for the next part.
proof fn lemma_parts_succeed(
    m: MachineModel,
    upload_id: Seq<char>,
    tags: Seq<Option<Seq<char>>>,
    j: int,
    rest: Seq<ReplyModel>,
)
    requires
        m.wf(),
        tags.len() < m.sizes.len(),
        0 <= j <= tags.len(),
        m.phase == (PhaseModel::Uploading { upload_id, parts: numbered(tags.take(j)) }),
    ensures
        run(m, successes(tags.subrange(j, tags.len() as int)) + rest) == upload_calls(
            upload_id,
            m.sizes,
            j + 1,
            tags.len() + 1 as int,
        ) + run(m.with_phase(PhaseModel::Uploading { upload_id, parts: numbered(tags) }), rest),
    decreases tags.len() - j,
{
    let n = tags.len() as int;
    let replies = successes(tags.subrange(j, n)) + rest;
    if j == n {
        assert(tags.take(j) =~= tags);
        assert(replies =~= rest);
        assert(m.with_phase(PhaseModel::Uploading { upload_id, parts: numbered(tags) }) == m);
        assert(upload_calls(upload_id, m.sizes, j + 1, n + 1) =~= Seq::empty());
        assert(Seq::<ActionModel>::empty() + run(m, rest) =~= run(m, rest));
    } else {
        assert(replies[0] == ReplyModel::Succeeded(tags[j]));
        assert(replies.drop_first() =~= successes(tags.subrange(j + 1, n)) + rest);
        lemma_numbered_push(tags, j);
        let m2 = m.with_phase(PhaseModel::Uploading { upload_id, parts: numbered(tags.take(j + 1)) });
        assert(m.next(replies[0]) == (m2, m.upload_call(upload_id, j + 2)));
        lemma_parts_succeed(m2, upload_id, tags, j + 1, rest);
        assert(m2.with_phase(PhaseModel::Uploading { upload_id, parts: numbered(tags) }) == m.with_phase(
            PhaseModel::Uploading { upload_id, parts: numbered(tags) },
        ));
        assert(seq![m.upload_call(upload_id, j + 2)] + upload_calls(upload_id, m.sizes, j + 2, n + 1)
            =~= upload_calls(upload_id, m.sizes, j + 1, n + 1));
        assert(run(m, replies) == seq![m.upload_call(upload_id, j + 2)] + run(m2, replies.drop_first()));
        assert(run(m, replies) =~= upload_calls(upload_id, m.sizes, j + 1, n + 1) + run(
            m.with_phase(PhaseModel::Uploading { upload_id, parts: numbered(tags) }),
            rest,
        ));
    }
}

/// Once the session is open and every part succeeds, the parts go out in
/// order and the session is finalized with their receipts.
proof fn lemma_parts_then_finalize(
    target: (Seq<char>, Seq<char>),
    sizes: Seq<usize>,
    upload_id: Seq<char>,
    tags: Seq<Option<Seq<char>>>,
    rest: Seq<ReplyModel>,
)
    requires
        sizes.len() <= usize::MAX,
        tags.len() == sizes.len(),
    ensures
        run(
            MachineModel::initial(target, sizes),
            seq![ReplyModel::Succeeded(Some(upload_id))] + successes(tags) + rest,
        ) == upload_calls(upload_id, sizes, 0, sizes.len() as int) + seq![
            ActionModel::FinalizeSession { upload_id, parts: numbered(tags) },
        ] + run(
            MachineModel::initial(target, sizes).with_phase(PhaseModel::Finalizing { upload_id }),
            rest,
        ),
{
    let m0 = MachineModel::initial(target, sizes);
    let n = sizes.len() as int;
    let replies = seq![ReplyModel::Succeeded(Some(upload_id))] + successes(tags) + rest;
    let fin = m0.with_phase(PhaseModel::Finalizing { upload_id });
    let finalize = ActionModel::FinalizeSession { upload_id, parts: numbered(tags) };
    assert(replies[0] == ReplyModel::Succeeded(Some(upload_id)));
    assert(replies.drop_first() =~= successes(tags) + rest);
    if n == 0 {
        assert(numbered(tags) =~= Seq::empty());
        assert(m0.next(replies[0]) == (fin, finalize));
        assert(upload_calls(upload_id, sizes, 0, n) =~= Seq::empty());
        assert(successes(tags) + rest =~= rest);
        assert(run(m0, replies) =~= upload_calls(upload_id, sizes, 0, n) + seq![finalize] + run(fin, rest));
    } else {
        let m1 = m0.with_phase(PhaseModel::Uploading { upload_id, parts: Seq::empty() });
        assert(m0.next(replies[0]) == (m1, m0.upload_call(upload_id, 1)));
        let front = tags.take(n - 1);
        let last = ReplyModel::Succeeded(tags[n - 1]);
        assert(front.take(0) =~= Seq::empty());
        assert(numbered(front.take(0)) =~= Seq::empty());
        assert(successes(front.subrange(0, n - 1)) + (seq![last] + rest) =~= successes(tags) + rest);
        lemma_parts_succeed(m1, upload_id, front, 0, seq![last] + rest);
        let m2 = m1.with_phase(PhaseModel::Uploading { upload_id, parts: numbered(front) });
        lemma_numbered_push(tags, n - 1);
        assert(tags.take(n) =~= tags);
        assert(m2.next(last) == (fin, finalize));
        assert((seq![last] + rest).drop_first() =~= rest);
        assert(run(m2, seq![last] + rest) == seq![finalize] + run(fin, rest));
        assert(seq![m0.upload_call(upload_id, 1)] + upload_calls(upload_id, sizes, 1, n) =~= upload_calls(
            upload_id,
            sizes,
            0,
            n,
        ));
        assert(run(m0, replies) =~= upload_calls(upload_id, sizes, 0, n) + seq![finalize] + run(fin, rest));
    }
}

/// Nothing follows `Finish`, whatever the backend would go on to say.
proof fn lemma_finished(m: MachineModel, later: Seq<ReplyModel>)
    requires
        m.is_finished(),
    ensures
        run(m, later) == Seq::<ActionModel>::empty(),
{
}

/// When every call succeeds, the upload opens one session, sends each
/// part once with the numbers 1, 2, ... in the order given, finalizes the
/// session once with the receipts of all parts in that order, and ends in
/// success without an abort. With no parts at all the session is
/// finalized with an empty list.
pub proof fn full_success(
    target: (Seq<char>, Seq<char>),
    sizes: Seq<usize>,
    upload_id: Seq<char>,
    tags: Seq<Option<Seq<char>>>,
    finalized: Option<Seq<char>>,
    later: Seq<ReplyModel>,
)
    requires
        sizes.len() <= usize::MAX,
        tags.len() == sizes.len(),
    ensures
        session(
            target,
            sizes,
            seq![ReplyModel::Succeeded(Some(upload_id))] + successes(tags) + seq![
                ReplyModel::Succeeded(finalized),
            ] + later,
        ) == seq![ActionModel::BeginSession] + upload_calls(upload_id, sizes, 0, sizes.len() as int)
            + seq![
            ActionModel::FinalizeSession { upload_id, parts: numbered(tags) },
            ActionModel::Finish(Ok(())),
        ],
{
    let m0 = MachineModel::initial(target, sizes);
    let rest = seq![ReplyModel::Succeeded(finalized)] + later;
    let replies = seq![ReplyModel::Succeeded(Some(upload_id))] + successes(tags) + rest;
    assert(replies =~= seq![ReplyModel::Succeeded(Some(upload_id))] + successes(tags) + seq![
        ReplyModel::Succeeded(finalized),
    ] + later);
    lemma_parts_then_finalize(target, sizes, upload_id, tags, rest);
    let fin = m0.with_phase(PhaseModel::Finalizing { upload_id });
    assert(rest.drop_first() =~= later);
    lemma_finished(m0.with_phase(PhaseModel::Finished), later);
    assert(run(fin, rest) =~= seq![ActionModel::Finish(Ok(()))]);
    assert(session(target, sizes, replies) =~= seq![ActionModel::BeginSession] + upload_calls(
        upload_id,
        sizes,
        0,
        sizes.len() as int,
    ) + seq![
        ActionModel::FinalizeSession { upload_id, parts: numbered(tags) },
        ActionModel::Finish(Ok(())),
    ]);
}

/// When part `k` fails after parts 1 to `k - 1` succeeded, the upload
/// sends those `k` parts and no other, never finalizes, aborts the session
/// it opened once, and fails with the error of part `k`, whatever the
/// abort itself answered.
pub proof fn part_failure_aborts(
    target: (Seq<char>, Seq<char>),
    sizes: Seq<usize>,
    upload_id: Seq<char>,
    tags: Seq<Option<Seq<char>>>,
    cause: Seq<char>,
    aborted: ReplyModel,
    later: Seq<ReplyModel>,
)
    requires
        sizes.len() <= usize::MAX,
        tags.len() < sizes.len(),
    ensures
        session(
            target,
            sizes,
            seq![ReplyModel::Succeeded(Some(upload_id))] + successes(tags) + seq![
                ReplyModel::Failed(cause),
                aborted,
            ] + later,
        ) == seq![ActionModel::BeginSession] + upload_calls(upload_id, sizes, 0, tags.len() + 1 as int)
            + seq![
            ActionModel::AbortSession { upload_id },
            ActionModel::Finish(
                Err(
                    FailureModel {
                        kind: FailureKindModel::PartUploadFailed {
                            part_number: (tags.len() + 1) as usize,
                            cause,
                        },
                        upload_id: Some(upload_id),
                    },
                ),
            ),
        ],
{
    let m0 = MachineModel::initial(target, sizes);
    let k = tags.len() as int;
    let rest = seq![ReplyModel::Failed(cause), aborted] + later;
    let replies = seq![ReplyModel::Succeeded(Some(upload_id))] + successes(tags) + rest;
    assert(replies =~= seq![ReplyModel::Succeeded(Some(upload_id))] + successes(tags) + seq![
        ReplyModel::Failed(cause),
        aborted,
    ] + later);
    let m1 = m0.with_phase(PhaseModel::Uploading { upload_id, parts: Seq::empty() });
    assert(replies[0] == ReplyModel::Succeeded(Some(upload_id)));
    assert(m0.next(replies[0]) == (m1, m0.upload_call(upload_id, 1)));
    assert(replies.drop_first() =~= successes(tags.subrange(0, k)) + rest);
    assert(tags.take(0) =~= Seq::empty());
    assert(numbered(tags.take(0)) =~= Seq::empty());
    lemma_parts_succeed(m1, upload_id, tags, 0, rest);
    let m2 = m1.with_phase(PhaseModel::Uploading { upload_id, parts: numbered(tags) });
    let failure = FailureModel {
        kind: FailureKindModel::PartUploadFailed { part_number: (k + 1) as usize, cause },
        upload_id: Some(upload_id),
    };
    let m3 = m2.with_phase(
        PhaseModel::Aborting {
            upload_id,
            kind: FailureKindModel::PartUploadFailed { part_number: (k + 1) as usize, cause },
        },
    );
    assert(m2.next(ReplyModel::Failed(cause)) == (m3, ActionModel::AbortSession { upload_id }));
    assert(rest.drop_first() =~= seq![aborted] + later);
    assert((seq![aborted] + later).drop_first() =~= later);
    lemma_finished(m3.with_phase(PhaseModel::Finished), later);
    assert(run(m3, seq![aborted] + later) =~= seq![ActionModel::Finish(Err(failure))]);
    assert(run(m2, rest) =~= seq![ActionModel::AbortSession { upload_id }, ActionModel::Finish(Err(failure))]);
    assert(seq![m0.upload_call(upload_id, 1)] + upload_calls(upload_id, sizes, 1, k + 1) =~= upload_calls(
        upload_id,
        sizes,
        0,
        k + 1,
    ));
    assert(session(target, sizes, replies) =~= seq![ActionModel::BeginSession] + upload_calls(
        upload_id,
        sizes,
        0,
        k + 1,
    ) + seq![ActionModel::AbortSession { upload_id }, ActionModel::Finish(Err(failure))]);
}

/// When every part succeeds but finalization fails, the session is
/// aborted once and the upload fails with the finalization's error,
/// whatever the abort itself answered.
pub proof fn finalize_failure_aborts(
    target: (Seq<char>, Seq<char>),
    sizes: Seq<usize>,
    upload_id: Seq<char>,
    tags: Seq<Option<Seq<char>>>,
    cause: Seq<char>,
    aborted: ReplyModel,
    later: Seq<ReplyModel>,
)
    requires
        sizes.len() <= usize::MAX,
        tags.len() == sizes.len(),
    ensures
        session(
            target,
            sizes,
            seq![ReplyModel::Succeeded(Some(upload_id))] + successes(tags) + seq![
                ReplyModel::Failed(cause),
                aborted,
            ] + later,
        ) == seq![ActionModel::BeginSession] + upload_calls(upload_id, sizes, 0, sizes.len() as int)
            + seq![
            ActionModel::FinalizeSession { upload_id, parts: numbered(tags) },
            ActionModel::AbortSession { upload_id },
            ActionModel::Finish(
                Err(
                    FailureModel {
                        kind: FailureKindModel::FinalizationFailed(cause),
                        upload_id: Some(upload_id),
                    },
                ),
            ),
        ],
{
    let m0 = MachineModel::initial(target, sizes);
    let rest = seq![ReplyModel::Failed(cause), aborted] + later;
    let replies = seq![ReplyModel::Succeeded(Some(upload_id))] + successes(tags) + rest;
    assert(replies =~= seq![ReplyModel::Succeeded(Some(upload_id))] + successes(tags) + seq![
        ReplyModel::Failed(cause),
        aborted,
    ] + later);
    lemma_parts_then_finalize(target, sizes, upload_id, tags, rest);
    let fin = m0.with_phase(PhaseModel::Finalizing { upload_id });
    let failure = FailureModel {
        kind: FailureKindModel::FinalizationFailed(cause),
        upload_id: Some(upload_id),
    };
    let m3 = fin.with_phase(
        PhaseModel::Aborting { upload_id, kind: FailureKindModel::FinalizationFailed(cause) },
    );
    assert(fin.next(ReplyModel::Failed(cause)) == (m3, ActionModel::AbortSession { upload_id }));
    assert(rest.drop_first() =~= seq![aborted] + later);
    assert((seq![aborted] + later).drop_first() =~= later);
    lemma_finished(m3.with_phase(PhaseModel::Finished), later);
    assert(run(m3, seq![aborted] + later) =~= seq![ActionModel::Finish(Err(failure))]);
    assert(run(fin, rest) =~= seq![ActionModel::AbortSession { upload_id }, ActionModel::Finish(Err(failure))]);
    assert(session(target, sizes, replies) =~= seq![ActionModel::BeginSession] + upload_calls(
        upload_id,
        sizes,
        0,
        sizes.len() as int,
    ) + seq![
        ActionModel::FinalizeSession { upload_id, parts: numbered(tags) },
        ActionModel::AbortSession { upload_id },
        ActionModel::Finish(Err(failure)),
    ]);
}

/// When the backend refuses to open a session, nothing is uploaded,
/// finalized or aborted, and the upload fails with the backend's error.
pub proof fn begin_failure_needs_no_cleanup(
    target: (Seq<char>, Seq<char>),
    sizes: Seq<usize>,
    cause: Seq<char>,
    later: Seq<ReplyModel>,
)
    ensures
        session(target, sizes, seq![ReplyModel::Failed(cause)] + later) == seq![
            ActionModel::BeginSession,
            ActionModel::Finish(
                Err(
                    FailureModel {
                        kind: FailureKindModel::SessionCreationFailed(cause),
                        upload_id: None,
                    },
                ),
            ),
        ],
{
    let m0 = MachineModel::initial(target, sizes);
    let replies = seq![ReplyModel::Failed(cause)] + later;
    assert(replies[0] == ReplyModel::Failed(cause));
    assert(replies.drop_first() =~= later);
    lemma_finished(m0.with_phase(PhaseModel::Finished), later);
    assert(session(target, sizes, replies) =~= seq![
        ActionModel::BeginSession,
        ActionModel::Finish(
            Err(FailureModel { kind: FailureKindModel::SessionCreationFailed(cause), upload_id: None }),
        ),
    ]);
}

/// A session opened without a token counts as one that could not be
/// opened: nothing is uploaded, finalized or aborted.
pub proof fn missing_token_needs_no_cleanup(
    target: (Seq<char>, Seq<char>),
    sizes: Seq<usize>,
    later: Seq<ReplyModel>,
)
    ensures
        session(target, sizes, seq![ReplyModel::Succeeded(None)] + later) == seq![
            ActionModel::BeginSession,
            ActionModel::Finish(
                Err(FailureModel { kind: FailureKindModel::SessionTokenMissing, upload_id: None }),
            ),
        ],
{
    let m0 = MachineModel::initial(target, sizes);
    let replies = seq![ReplyModel::Succeeded(None)] + later;
    assert(replies[0] == ReplyModel::Succeeded(None));
    assert(replies.drop_first() =~= later);
    lemma_finished(m0.with_phase(PhaseModel::Finished), later);
    assert(session(target, sizes, replies) =~= seq![
        ActionModel::BeginSession,
        ActionModel::Finish(
            Err(FailureModel { kind: FailureKindModel::SessionTokenMissing, upload_id: None }),
        ),
    ]);
}

/// What the backend answers to an abort never changes what follows: the
/// upload ends with the error that caused the abort, and the token of the
/// aborted session.
pub proof fn abort_answer_is_ignored(m: MachineModel, first: ReplyModel, second: ReplyModel)
    requires
        m.phase is Aborting,
    ensures
        m.next(first) == m.next(second),
        m.next(first).1 == ActionModel::Finish(
            Err(
                FailureModel {
                    kind: m.phase->Aborting_kind,
                    upload_id: Some(m.phase->Aborting_upload_id),
                },
            ),
        ),
{
}

/// The token of the session that a state holds open, if any.
pub open spec fn open_session(p: PhaseModel) -> Option<Seq<char>> {
    match p {
        PhaseModel::Uploading { upload_id, .. } => Some(upload_id),
        PhaseModel::Finalizing { upload_id } => Some(upload_id),
        PhaseModel::Aborting { upload_id, .. } => Some(upload_id),
        _ => None,
    }
}

/// Once a session is open, every action names its token or none.
proof fn lemma_one_token(m: MachineModel, t: Seq<char>, replies: Seq<ReplyModel>)
    requires
        m.is_finished() || open_session(m.phase) == Some(t),
    ensures
        forall|i: int|
            0 <= i < run(m, replies).len() && (#[trigger] token_of(run(m, replies)[i])) is Some
                ==> token_of(run(m, replies)[i]) == Some(t),
    decreases replies.len(),
{
    if replies.len() > 0 && !m.is_finished() {
        let (m2, a) = m.next(replies[0]);
        lemma_one_token(m2, t, replies.drop_first());
        let tail = run(m2, replies.drop_first());
        assert(run(m, replies) == seq![a] + tail);
        assert forall|i: int|
            0 <= i < run(m, replies).len() && (#[trigger] token_of(run(m, replies)[i])) is Some
                implies token_of(run(m, replies)[i]) == Some(t) by {
            if i > 0 {
                assert(run(m, replies)[i] == tail[i - 1]);
            }
        }
    }
}

/// Every session token that an upload's actions name is the one that the
/// backend returned when the session was opened.
pub proof fn token_comes_from_begin(
    target: (Seq<char>, Seq<char>),
    sizes: Seq<usize>,
    replies: Seq<ReplyModel>,
)
    ensures
        forall|i: int|
            0 <= i < session(target, sizes, replies).len() && (#[trigger] token_of(
                session(target, sizes, replies)[i],
            )) is Some ==> replies.len() > 0 && replies[0] == ReplyModel::Succeeded(
                token_of(session(target, sizes, replies)[i]),
            ),
{
    let m0 = MachineModel::initial(target, sizes);
    let s = session(target, sizes, replies);
    if replies.len() > 0 {
        let (m1, a) = m0.next(replies[0]);
        let tail = run(m1, replies.drop_first());
        assert(s == seq![ActionModel::BeginSession] + (seq![a] + tail));
        match replies[0] {
            ReplyModel::Succeeded(Some(t)) => {
                lemma_one_token(m1, t, replies.drop_first());
                assert forall|i: int|
                    0 <= i < s.len() && (#[trigger] token_of(s[i])) is Some implies replies[0]
                        == ReplyModel::Succeeded(token_of(s[i])) by {
                    if i > 1 {
                        assert(s[i] == tail[i - 2]);
                    }
                }
            },
            _ => {
                lemma_finished(m1, replies.drop_first());
                assert(s =~= seq![ActionModel::BeginSession, a]);
            },
        }
    } else {
        assert(s =~= seq![ActionModel::BeginSession]);
    }
}

/// Two uploads, one after the other, never share a session: when the
/// backend opens their sessions with different answers, no token that
/// the second names is one that the first named. A new upload starts
/// with no session open.
pub proof fn restart_never_reuses_token(
    first_target: (Seq<char>, Seq<char>),
    first_sizes: Seq<usize>,
    first_replies: Seq<ReplyModel>,
    second_target: (Seq<char>, Seq<char>),
    second_sizes: Seq<usize>,
    second_replies: Seq<ReplyModel>,
)
    requires
        first_replies.len() > 0,
        second_replies.len() > 0,
        first_replies[0] != second_replies[0],
    ensures
        open_session(MachineModel::initial(second_target, second_sizes).phase) is None,
        forall|i: int, j: int|
            0 <= i < session(first_target, first_sizes, first_replies).len() && 0 <= j < session(
                second_target,
                second_sizes,
                second_replies,
            ).len() && (#[trigger] token_of(session(first_target, first_sizes, first_replies)[i]))
                is Some ==> token_of(session(first_target, first_sizes, first_replies)[i])
                != #[trigger] token_of(session(second_target, second_sizes, second_replies)[j]),
{
    token_comes_from_begin(first_target, first_sizes, first_replies);
    token_comes_from_begin(second_target, second_sizes, second_replies);
}

} // verus!
