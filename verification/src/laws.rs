//! Laws of the upload engine, stated and proved over the model.
//!
//! [`run`] plays the driver loop at the model level: it feeds the
//! machine one event after another, collecting the orders the machine
//! gives, and stops once the machine stops accepting events (that is,
//! once it has answered the caller).  The theorems below say what any
//! such run does: a failing request hands back for deletion exactly the
//! paths it ordered written, a well-formed request is owed success, and
//! requests that are malformed up front order no write at all.

use vstd::prelude::*;
use crate::upload_model::{
    accepts, init, inv, joined, lemma_step_accounts_for_writes, spec_step, ModelAction,
    ModelError, ModelEvent, ModelMachine, ModelState,
};
use crate::validators::valid_file_name;

verus! {

/// The driver loop at the model level: feed each event in turn, record
/// each ordered action, stop at a terminal state.
pub open spec fn run(m: ModelMachine, events: Seq<ModelEvent>) -> (ModelMachine, Seq<
    ModelAction,
>)
    decreases events.len(),
{
    if events.len() == 0 || !accepts(m.state, events[0]) {
        (m, Seq::empty())
    } else {
        let stepped = spec_step(m, events[0]);
        let tail = run(stepped.0, events.drop_first());
        (tail.0, seq![stepped.1] + tail.1)
    }
}

/// The paths a sequence of actions orders written, in order.
pub open spec fn writes_of(actions: Seq<ModelAction>) -> Seq<Seq<char>>
    decreases actions.len(),
{
    if actions.len() == 0 {
        Seq::empty()
    } else {
        (match actions[0] {
            ModelAction::WriteFile { path } => seq![path],
            _ => Seq::empty(),
        }) + writes_of(actions.drop_first())
    }
}

/// Rollback is complete and failure is final: over any run, answers
/// come only as the last action; a run whose last action is `Fail`
/// hands back for deletion exactly the paths written before the run
/// plus every path the run ordered written, and a run whose last
/// action is `Succeed` keeps exactly those paths.
pub proof fn lemma_run_accounts_for_writes(m: ModelMachine, events: Seq<ModelEvent>)
    requires
        inv(m),
    ensures
        ({
            let (mf, acts) = run(m, events);
            &&& inv(mf)
            &&& mf.root == m.root
            &&& (forall|i: int|
                0 <= i < acts.len() - 1 ==> !((#[trigger] acts[i]) is Fail) && !(acts[i]
                    is Succeed))
            &&& (acts.len() > 0 ==> (acts.last() matches ModelAction::Fail { cleanup, error: _ }
                ==> cleanup =~= m.written + writes_of(acts) && mf.state is Failed
                && mf.written.len() == 0))
            &&& (acts.len() > 0 ==> (acts.last() is Succeed ==> mf.state is Completed
                && mf.written =~= m.written + writes_of(acts) && mf.written.len() > 0))
            &&& (!(mf.state is Failed) ==> mf.written =~= m.written + writes_of(acts))
        }),
    decreases events.len(),
{
    let (mf, acts) = run(m, events);
    if events.len() == 0 || !accepts(m.state, events[0]) {
        assert(m.written + writes_of(acts) =~= m.written);
    } else {
        let e0 = events[0];
        let rest_events = events.drop_first();
        let stepped = spec_step(m, e0);
        let m1 = stepped.0;
        let a = stepped.1;
        lemma_step_accounts_for_writes(m, e0);
        lemma_run_accounts_for_writes(m1, rest_events);
        let tail = run(m1, rest_events);
        let rest = tail.1;
        assert(acts =~= seq![a] + rest);
        assert(acts[0] == a);
        assert(acts.drop_first() =~= rest);
        assert(writes_of(acts) == (match a {
            ModelAction::WriteFile { path } => seq![path],
            _ => Seq::<Seq<char>>::empty(),
        }) + writes_of(rest));
        match a {
            ModelAction::Fail { cleanup, error: _ } => {
                assert(!accepts(m1.state, rest_events[0])) by {
                    assert(m1.state is Failed);
                }
                assert(rest =~= Seq::empty());
                assert(acts.len() == 1);
                assert(writes_of(acts) =~= Seq::<Seq<char>>::empty());
                assert(cleanup =~= m.written + writes_of(acts));
            },
            ModelAction::Succeed => {
                assert(rest =~= Seq::empty());
                assert(acts.len() == 1);
                assert(writes_of(acts) =~= Seq::<Seq<char>>::empty());
                assert(mf.written =~= m.written + writes_of(acts));
            },
            ModelAction::ReadField => {
                assert(m1.written == m.written);
                assert(writes_of(acts) =~= writes_of(rest));
                assert(m.written + writes_of(acts) =~= m1.written + writes_of(rest));
                if rest.len() == 0 {
                    assert(mf == m1);
                }
            },
            ModelAction::WriteFile { path } => {
                assert(m1.written == m.written.push(path));
                assert(m1.written =~= m.written + seq![path]);
                assert(m.written + writes_of(acts) =~= m1.written + writes_of(rest));
                if rest.len() == 0 {
                    assert(mf == m1);
                    assert(!(mf.state is Failed));
                }
            },
        }
    }
}

/// A request whose first part is missing is rejected before any write:
/// the very first answer is a client error and the cleanup list is
/// empty.
pub proof fn lemma_missing_path_field_is_client_error(root: Seq<char>)
    ensures
        ({
            let (m2, a) = spec_step(init(root), ModelEvent::NoMoreFields);
            &&& a matches ModelAction::Fail { cleanup, error } && cleanup.len() == 0 && error
                == ModelError::Validation("missing relative_path field"@)
            &&& m2.state is Failed
        }),
{
}

/// A valid path field followed by no file at all is a client error,
/// again with nothing to clean up.
pub proof fn lemma_zero_files_is_client_error(m: ModelMachine, base: Seq<char>)
    requires
        inv(m),
        m.state == (ModelState::AwaitingFileField { base, wrote_any: false }),
    ensures
        ({
            let (m2, a) = spec_step(m, ModelEvent::NoMoreFields);
            &&& a matches ModelAction::Fail { cleanup, error } && cleanup.len() == 0 && error
                == ModelError::Validation("No files were in the multipart form"@)
            &&& m2.state is Failed
        }),
{
}

/// A file part whose name fails the validator is answered with a client
/// error naming the file: no write is ordered for it, every path
/// written earlier is handed back for deletion, and the machine is
/// terminal, so no later part is ever read.
pub proof fn lemma_invalid_file_name_is_rejected(m: ModelMachine, name: Seq<char>)
    requires
        inv(m),
        m.state is AwaitingFileField,
        !valid_file_name(name),
    ensures
        ({
            let (m2, a) = spec_step(m, ModelEvent::FileField { file_name: Some(name) });
            &&& a matches ModelAction::Fail { cleanup, error } && cleanup == m.written && error
                == ModelError::Validation("Invalid file name: "@ + name)
            &&& m2.state is Failed
        }),
{
}

/// Failure rolls back everything: in a run from the start of a request,
/// if the last answer is an error, the paths handed back for deletion
/// are exactly the paths the run ordered written — and, the machine
/// being terminal from then on, no further file is ever attempted.
pub proof fn lemma_failure_rolls_back_every_write(root: Seq<char>, events: Seq<ModelEvent>)
    ensures
        ({
            let (mf, acts) = run(init(root), events);
            &&& (forall|i: int|
                0 <= i < acts.len() - 1 ==> !((#[trigger] acts[i]) is Fail) && !(acts[i]
                    is Succeed))
            &&& (acts.len() > 0 ==> (acts.last() matches ModelAction::Fail { cleanup, error: _ }
                ==> cleanup =~= writes_of(acts) && mf.state is Failed))
        }),
{
    lemma_run_accounts_for_writes(init(root), events);
    let (mf, acts) = run(init(root), events);
    if acts.len() > 0 && acts.last() is Fail {
        assert(init(root).written + writes_of(acts) =~= writes_of(acts));
    }
}

/// A request whose very first file carries an invalid name creates no
/// file at all: no write is ever ordered, the answer is a client error
/// naming the file, and there is nothing to clean up.
pub proof fn lemma_invalid_first_file_creates_nothing(root: Seq<char>, rel: Seq<char>, name: Seq<
    char,
>)
    requires
        !valid_file_name(name),
    ensures
        ({
            let events = seq![
                ModelEvent::TextField { name: "relative_path"@, value: Some(rel) },
                ModelEvent::FileField { file_name: Some(name) },
            ];
            let (mf, acts) = run(init(root), events);
            &&& writes_of(acts) =~= Seq::<Seq<char>>::empty()
            &&& mf.state is Failed
            &&& acts.last() matches ModelAction::Fail { cleanup, error } && cleanup.len() == 0
                && error == ModelError::Validation("Invalid file name: "@ + name)
        }),
{
    let events = seq![
        ModelEvent::TextField { name: "relative_path"@, value: Some(rel) },
        ModelEvent::FileField { file_name: Some(name) },
    ];
    let m0 = init(root);
    let s1 = spec_step(m0, events[0]);
    let events1 = events.drop_first();
    assert(events1[0] == ModelEvent::FileField { file_name: Some(name) });
    let s2 = spec_step(s1.0, events1[0]);
    let events2 = events1.drop_first();
    let tail = run(s2.0, events2);
    assert(tail.1 =~= Seq::<ModelAction>::empty());
    let mid = run(s1.0, events1);
    assert(mid.1 =~= seq![s2.1] + tail.1);
    let (mf, acts) = run(m0, events);
    assert(acts =~= seq![s1.1] + mid.1);
    assert(acts =~= seq![ModelAction::ReadField, s2.1]);
    assert(acts.drop_first() =~= seq![s2.1]);
    assert(s2.1 is Fail);
    assert(acts.drop_first().drop_first() =~= Seq::<ModelAction>::empty());
    assert(writes_of(acts.drop_first().drop_first()) =~= Seq::<Seq<char>>::empty());
    assert(writes_of(acts.drop_first()) =~= Seq::<Seq<char>>::empty());
    assert(writes_of(acts) =~= Seq::<Seq<char>>::empty());
}

/// The events of a well-formed request: the path field first, then each
/// file in turn with its write completing, then the end of the body.
pub open spec fn file_events(names: Seq<Seq<char>>) -> Seq<ModelEvent>
    decreases names.len(),
{
    if names.len() == 0 {
        Seq::empty()
    } else {
        seq![
            ModelEvent::FileField { file_name: Some(names[0]) },
            ModelEvent::WriteDone,
        ] + file_events(names.drop_first())
    }
}

/// See [`file_events`].
pub open spec fn request_events(rel: Seq<char>, names: Seq<Seq<char>>) -> Seq<ModelEvent> {
    seq![ModelEvent::TextField { name: "relative_path"@, value: Some(rel) }] + file_events(
        names,
    ).push(ModelEvent::NoMoreFields)
}

/// Where each named file of a request ends up on disk.
pub open spec fn target_paths(root: Seq<char>, rel: Seq<char>, names: Seq<Seq<char>>) -> Seq<
    Seq<char>,
> {
    names.map_values(|n: Seq<char>| joined(joined(root, rel), n))
}

/// The file loop: from a state awaiting file parts, a run of valid
/// files with successful writes ends in success and appends exactly the
/// joined target path of every file, in order.
proof fn lemma_file_loop_succeeds(m: ModelMachine, base: Seq<char>, wrote_any: bool, names: Seq<
    Seq<char>,
>)
    requires
        inv(m),
        m.state == (ModelState::AwaitingFileField { base, wrote_any }),
        wrote_any || names.len() > 0,
        forall|i: int| 0 <= i < names.len() ==> valid_file_name(#[trigger] names[i]),
    ensures
        ({
            let (mf, acts) = run(m, file_events(names).push(ModelEvent::NoMoreFields));
            &&& mf.state is Completed
            &&& mf.root == m.root
            &&& mf.written =~= m.written + names.map_values(|n: Seq<char>| joined(base, n))
            &&& acts.len() > 0 && acts.last() is Succeed
        }),
    decreases names.len(),
{
    let events = file_events(names).push(ModelEvent::NoMoreFields);
    if names.len() == 0 {
        assert(events =~= seq![ModelEvent::NoMoreFields]);
        assert(events[0] == ModelEvent::NoMoreFields);
        let stepped = spec_step(m, events[0]);
        assert(stepped.0.state is Completed);
        assert(events.drop_first() =~= Seq::<ModelEvent>::empty());
        let tail = run(stepped.0, events.drop_first());
        assert(tail.1 =~= Seq::<ModelAction>::empty());
        let (mf, acts) = run(m, events);
        assert(acts =~= seq![stepped.1] + tail.1);
        assert(acts =~= seq![ModelAction::Succeed]);
        assert(mf.written =~= m.written + names.map_values(
            |n: Seq<char>| joined(base, n),
        ));
    } else {
        let name0 = names[0];
        assert(valid_file_name(name0));
        assert(events[0] == ModelEvent::FileField { file_name: Some(name0) });
        let s1 = spec_step(m, events[0]);
        let m1 = s1.0;
        assert(m1.state == (ModelState::Writing { base }));
        assert(m1.written == m.written.push(joined(base, name0)));
        let events1 = events.drop_first();
        assert(events1[0] == ModelEvent::WriteDone);
        let s2 = spec_step(m1, events1[0]);
        let m2 = s2.0;
        assert(m2.state == (ModelState::AwaitingFileField { base, wrote_any: true }));
        assert(m2.written == m1.written);
        let events2 = events1.drop_first();
        assert(events2 =~= file_events(names.drop_first()).push(ModelEvent::NoMoreFields));
        assert(inv(m2));
        lemma_file_loop_succeeds(m2, base, true, names.drop_first());
        let tail = run(m2, events2);
        let mid = run(m1, events1);
        assert(mid.1 =~= seq![s2.1] + tail.1);
        assert(mid.0 == tail.0);
        let (mf, acts) = run(m, events);
        assert(acts =~= seq![s1.1] + mid.1);
        assert(acts =~= seq![s1.1] + (seq![s2.1] + tail.1));
        assert(tail.1.len() > 0);
        assert(acts.len() > 0 && acts.last() == tail.1.last());
        assert(mf == tail.0);
        assert(names.drop_first().map_values(|n: Seq<char>| joined(base, n))
            =~= names.map_values(|n: Seq<char>| joined(base, n)).drop_first());
        assert(mf.written =~= m.written + names.map_values(|n: Seq<char>| joined(base, n)));
    }
}

/// Success is owed: a request with the path field first, at least one
/// file, every file name valid, and every write completing, runs to
/// success, and the files it keeps are exactly the target paths
/// `root/rel/name` of its files, in order.
pub proof fn lemma_valid_request_succeeds(root: Seq<char>, rel: Seq<char>, names: Seq<Seq<char>>)
    requires
        names.len() > 0,
        forall|i: int| 0 <= i < names.len() ==> valid_file_name(#[trigger] names[i]),
    ensures
        ({
            let (mf, acts) = run(init(root), request_events(rel, names));
            &&& mf.state is Completed
            &&& mf.written =~= target_paths(root, rel, names)
            &&& writes_of(acts) =~= target_paths(root, rel, names)
            &&& acts.len() > 0 && acts.last() is Succeed
        }),
{
    let m0 = init(root);
    let events = request_events(rel, names);
    assert(events[0] == ModelEvent::TextField { name: "relative_path"@, value: Some(rel) });
    let s1 = spec_step(m0, events[0]);
    let m1 = s1.0;
    assert(m1.state == (ModelState::AwaitingFileField {
        base: joined(root, rel),
        wrote_any: false,
    }));
    assert(m1.written == m0.written);
    assert(inv(m1));
    let events1 = events.drop_first();
    assert(events1 =~= file_events(names).push(ModelEvent::NoMoreFields));
    lemma_file_loop_succeeds(m1, joined(root, rel), false, names);
    let tail = run(m1, events1);
    let (mf, acts) = run(m0, events);
    assert(acts =~= seq![s1.1] + tail.1);
    assert(mf == tail.0);
    assert(mf.written =~= target_paths(root, rel, names));
    assert(acts.last() == tail.1.last());
    lemma_run_accounts_for_writes(m0, events);
    assert(mf.written =~= m0.written + writes_of(acts));
    assert(writes_of(acts) =~= target_paths(root, rel, names));
}

} // verus!
