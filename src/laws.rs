use vstd::prelude::*;
use crate::events::{start_of, text_element, EventModel};
use crate::serializer::{
    action_events, actions_events, bool_text, subscription_documents, task_document, task_events,
    trigger_events, triggers_events, value_element, value_queries_events, values_events,
};
use crate::types::{Action, Settings, Subscription, Task, Trigger, Value};
use crate::bridge::{
    acquired_by, acquires, after_status, fatal, initial, label, outcome_of, plan,
    releases, run, ErrorModel, NativeCall, Operation, SessionModel,
};

verus! {

/// Each status either reports success (not negative) or belongs to a call,
/// at the same step counted from `from`, whose failure is ignored.
pub open spec fn statuses_pass(op: Operation, from: nat, s: Seq<i32>) -> bool {
    forall|i: int|
        0 <= i < s.len() ==> #[trigger] s[i] >= 0 || !fatal(op, plan(op)[from + i])
}

proof fn lemma_plan_has_no_release(op: Operation, i: int)
    requires
        0 <= i < plan(op).len(),
    ensures
        !(plan(op)[i] is Release),
        !fatal(op, plan(op)[i]) ==> acquires(plan(op)[i]) is None,
{
}

proof fn lemma_acquired_step(calls: Seq<NativeCall>, p: int)
    requires
        0 <= p < calls.len(),
    ensures
        acquired_by(calls.take(p + 1)) == acquired_by(calls.take(p)) + match acquires(calls[p]) {
            Some(r) => seq![r],
            None => seq![],
        },
{
    assert(calls.take(p + 1).drop_last() =~= calls.take(p));
}

/// From a session at step `m.position` with nothing failed, statuses that
/// pass up to step `n` bring it to step `n`, asking for the planned calls.
proof fn lemma_advance(m: SessionModel, s: Seq<i32>, n: nat, tail: Seq<i32>)
    requires
        m.failure is None,
        m.position <= n < plan(m.operation).len(),
        s.len() == n - m.position,
        statuses_pass(m.operation, m.position, s),
        m.held == acquired_by(plan(m.operation).take(m.position as int)),
    ensures
        run(m, s + tail) == ({
            let reached = SessionModel {
                operation: m.operation,
                position: n,
                held: acquired_by(plan(m.operation).take(n as int)),
                failure: None,
            };
            let (end, calls) = run(reached, tail);
            (end, plan(m.operation).subrange(m.position as int, n as int) + calls)
        }),
    decreases s.len(),
{
    let op = m.operation;
    let p = m.position as int;
    if s.len() == 0 {
        assert(s + tail =~= tail);
        assert(plan(op).subrange(p, n as int) =~= seq![]);
        assert(seq![] + run(m, tail).1 =~= run(m, tail).1);
    } else {
        let c = plan(op)[p];
        lemma_plan_has_no_release(op, p);
        lemma_acquired_step(plan(op), p);
        assert(s[0] >= 0 || !fatal(op, plan(op)[p + 0]));
        let next = after_status(m, s[0]);
        assert(next.position == p + 1);
        assert(next.held =~= acquired_by(plan(op).take(p + 1)));
        assert forall|i: int| 0 <= i < s.drop_first().len() implies #[trigger] s.drop_first()[i]
            >= 0 || !fatal(op, plan(op)[(p + 1) + i]) by {
            assert(s[i + 1] >= 0 || !fatal(op, plan(op)[p + (i + 1)]));
        }
        lemma_advance(next, s.drop_first(), n, tail);
        assert((s + tail).drop_first() =~= s.drop_first() + tail);
        assert(plan(op).subrange(p, n as int) =~= seq![c] + plan(op).subrange(
            p + 1,
            n as int,
        ));
        let reached = SessionModel {
            operation: op,
            position: n,
            held: acquired_by(plan(op).take(n as int)),
            failure: None,
        };
        let calls = run(reached, tail).1;
        assert(seq![c] + (plan(op).subrange(p + 1, n as int) + calls) =~= (seq![c]
            + plan(op).subrange(p + 1, n as int)) + calls);
    }
}

/// A session with no planned call left asks only for the releases of what it
/// holds, last acquired first, whatever statuses they report.
proof fn lemma_unwind(m: SessionModel, rs: Seq<i32>)
    requires
        !(m.failure is None && m.position < plan(m.operation).len()),
        rs.len() == m.held.len(),
    ensures
        run(m, rs) == (SessionModel { held: seq![], ..m }, releases(m.held)),
    decreases rs.len(),
{
    if rs.len() == 0 {
        assert(m.held =~= seq![]);
        assert(SessionModel { held: seq![], ..m } == m);
    } else {
        let next = after_status(m, rs[0]);
        assert(next == SessionModel { held: m.held.drop_last(), ..m });
        lemma_unwind(next, rs.drop_first());
    }
}

/// When the call at step `n` fails with a negative `code` and its failure is
/// not ignored, after every earlier call passed: the session asks for the
/// calls up to step `n`, then releases exactly the resources acquired before
/// it, each once, the last acquired first, and ends with an error carrying
/// `code` and the label of that step.
pub proof fn lemma_failure_releases_in_reverse(
    op: Operation,
    earlier: Seq<i32>,
    code: i32,
    release_statuses: Seq<i32>,
)
    requires
        earlier.len() < plan(op).len(),
        statuses_pass(op, 0, earlier),
        code < 0,
        fatal(op, plan(op)[earlier.len() as int]),
        release_statuses.len() == acquired_by(plan(op).take(earlier.len() as int)).len(),
    ensures
        ({
            let n = earlier.len() as int;
            let (end, calls) = run(initial(op), earlier.push(code) + release_statuses);
            &&& calls == plan(op).take(n + 1) + releases(acquired_by(plan(op).take(n)))
            &&& end.held.len() == 0
            &&& outcome_of(end) == Some(
                Err::<(), ErrorModel>(ErrorModel { result: code, message: label(plan(op)[n]) }),
            )
        }),
{
    let n = earlier.len() as int;
    let tail = seq![code] + release_statuses;
    assert(earlier.push(code) + release_statuses =~= earlier + tail);
    assert(acquired_by(plan(op).take(0)) =~= seq![]) by {
        assert(plan(op).take(0) =~= seq![]);
    }
    lemma_advance(initial(op), earlier, n as nat, tail);
    let reached = SessionModel {
        operation: op,
        position: n as nat,
        held: acquired_by(plan(op).take(n)),
        failure: None,
    };
    lemma_plan_has_no_release(op, n as int);
    let failed = after_status(reached, code);
    assert(failed == SessionModel {
        failure: Some(ErrorModel { result: code, message: label(plan(op)[n as int]) }),
        ..reached
    });
    assert(tail.drop_first() =~= release_statuses);
    lemma_unwind(failed, release_statuses);
    assert(plan(op).take(n + 1) =~= plan(op).subrange(0, n as int) + seq![plan(op)[n as int]]);
}

/// When every planned call passes, the session asks for the whole plan, then
/// releases every resource it acquired, last acquired first, and succeeds.
pub proof fn lemma_success_releases_in_reverse(
    op: Operation,
    statuses: Seq<i32>,
    release_statuses: Seq<i32>,
)
    requires
        statuses.len() == plan(op).len(),
        statuses_pass(op, 0, statuses),
        release_statuses.len() == acquired_by(plan(op)).len(),
    ensures
        ({
            let (end, calls) = run(initial(op), statuses + release_statuses);
            &&& calls == plan(op) + releases(acquired_by(plan(op)))
            &&& end.held.len() == 0
            &&& outcome_of(end) == Some(Ok::<(), ErrorModel>(()))
        }),
{
    let len = plan(op).len();
    let last = statuses.last();
    let earlier = statuses.drop_last();
    let n = earlier.len() as int;
    let tail = seq![last] + release_statuses;
    assert(statuses + release_statuses =~= earlier + tail);
    assert(acquired_by(plan(op).take(0)) =~= seq![]) by {
        assert(plan(op).take(0) =~= seq![]);
    }
    assert forall|i: int| 0 <= i < earlier.len() implies #[trigger] earlier[i] >= 0 || !fatal(
        op,
        plan(op)[0 + i],
    ) by {
        assert(statuses[i] >= 0 || !fatal(op, plan(op)[0 + i]));
    }
    lemma_advance(initial(op), earlier, n as nat, tail);
    let reached = SessionModel {
        operation: op,
        position: n as nat,
        held: acquired_by(plan(op).take(n)),
        failure: None,
    };
    lemma_plan_has_no_release(op, n as int);
    lemma_acquired_step(plan(op), n as int);
    assert(statuses[n as int] >= 0 || !fatal(op, plan(op)[0 + n]));
    let done = after_status(reached, last);
    assert(plan(op).take(len as int) =~= plan(op));
    assert(done.held =~= acquired_by(plan(op)));
    assert(tail.drop_first() =~= release_statuses);
    lemma_unwind(done, release_statuses);
    assert(plan(op) =~= plan(op).subrange(0, n as int) + seq![plan(op)[n as int]]);
}

/// An `Exec` action writes `<Exec>`, then its `Command` element; without
/// arguments it then closes, with no `Arguments` element anywhere; with
/// arguments `x`, `<Arguments>x</Arguments>` comes right after the command.
pub proof fn lemma_arguments_element(a: Action)
    ensures
        match a {
            Action::Exec { command, arguments } => {
                &&& action_events(a).subrange(0, 4) == seq![start_of("Exec"@)] + text_element(
                    "Command"@,
                    command@,
                )
                &&& match arguments {
                    None => {
                        &&& action_events(a).len() == 5
                        &&& action_events(a)[4] == EventModel::End
                        &&& forall|i: int|
                            0 <= i < action_events(a).len() ==> #[trigger] action_events(a)[i]
                                != start_of("Arguments"@)
                    },
                    Some(x) => {
                        &&& action_events(a).len() == 8
                        &&& action_events(a).subrange(4, 7) == text_element("Arguments"@, x@)
                        &&& action_events(a)[7] == EventModel::End
                    },
                }
            },
        },
{
    reveal_strlit("Exec");
    reveal_strlit("Command");
    reveal_strlit("Arguments");
    match a {
        Action::Exec { command, arguments } => {
            let e = action_events(a);
            assert(e.subrange(0, 4) =~= seq![start_of("Exec"@)] + text_element("Command"@, command@));
            match arguments {
                None => {
                    assert forall|i: int| 0 <= i < e.len() implies #[trigger] e[i] != start_of(
                        "Arguments"@,
                    ) by {
                        if i == 0 {
                            assert("Exec"@[0] != "Arguments"@[0]);
                        } else if i == 1 {
                            assert("Command"@[0] != "Arguments"@[0]);
                        }
                    }
                },
                Some(x) => {
                    assert(e.subrange(4, 7) =~= text_element("Arguments"@, x@));
                },
            }
        },
    }
}

proof fn lemma_values_layout(vs: Seq<Value>)
    ensures
        values_events(vs).len() == 3 * vs.len(),
        forall|k: int|
            0 <= k < vs.len() ==> values_events(vs).subrange(3 * k, 3 * k + 3) == value_element(
                #[trigger] vs[k],
            ),
    decreases vs.len(),
{
    if vs.len() > 0 {
        let init = vs.drop_last();
        lemma_values_layout(init);
        let e = values_events(vs);
        assert forall|k: int| 0 <= k < vs.len() implies e.subrange(3 * k, 3 * k + 3)
            == value_element(#[trigger] vs[k]) by {
            if k < init.len() {
                assert(e.subrange(3 * k, 3 * k + 3) =~= values_events(init).subrange(
                    3 * k,
                    3 * k + 3,
                ));
                assert(init[k] == vs[k]);
            } else {
                assert(e.subrange(3 * k, 3 * k + 3) =~= value_element(vs.last()));
            }
        }
    }
}

/// No value query writes no `ValueQueries` element at all; otherwise the
/// element holds one `Value` element per entry, in input order, each named
/// after the entry and holding its expression.
pub proof fn lemma_value_queries(vs: Seq<Value>)
    ensures
        vs.len() == 0 ==> value_queries_events(vs) == Seq::<EventModel>::empty(),
        vs.len() > 0 ==> {
            let e = value_queries_events(vs);
            &&& e.len() == 3 * vs.len() + 2
            &&& e[0] == start_of("ValueQueries"@)
            &&& e[e.len() - 1] == EventModel::End
            &&& forall|k: int|
                0 <= k < vs.len() ==> e.subrange(1 + 3 * k, 4 + 3 * k) == value_element(
                    #[trigger] vs[k],
                )
        },
{
    lemma_values_layout(vs);
    if vs.len() > 0 {
        let e = value_queries_events(vs);
        assert forall|k: int| 0 <= k < vs.len() implies e.subrange(1 + 3 * k, 4 + 3 * k)
            == value_element(#[trigger] vs[k]) by {
            assert(e.subrange(1 + 3 * k, 4 + 3 * k) =~= values_events(vs).subrange(
                3 * k,
                3 * k + 3,
            ));
        }
    }
}

proof fn lemma_triggers_prefix(ts: Seq<Trigger>, docs: Seq<Seq<char>>, k: int)
    requires
        0 <= k <= ts.len(),
        docs.len() == ts.len(),
    ensures
        ({
            let p = triggers_events(ts.take(k), docs.take(k));
            &&& p.len() <= triggers_events(ts, docs).len()
            &&& triggers_events(ts, docs).subrange(0, p.len() as int) == p
        }),
    decreases ts.len(),
{
    let p = triggers_events(ts.take(k), docs.take(k));
    if k == ts.len() {
        assert(ts.take(k) =~= ts);
        assert(docs.take(k) =~= docs);
        assert(triggers_events(ts, docs).subrange(0, p.len() as int) =~= p);
    } else {
        let n = ts.len() - 1;
        lemma_triggers_prefix(ts.drop_last(), docs.take(n), k);
        assert(ts.drop_last().take(k) =~= ts.take(k));
        assert(docs.take(n).take(k) =~= docs.take(k));
        let whole = triggers_events(ts, docs);
        let front = triggers_events(ts.drop_last(), docs.take(n));
        assert(whole == front + trigger_events(ts.last(), docs[n]));
        assert(whole.subrange(0, p.len() as int) =~= front.subrange(0, p.len() as int));
    }
}

/// In the events of a task, the element of trigger `i` stands inside
/// `<Triggers>`, right after the elements of the triggers before it; inside
/// it, the `ValueQueries` element follows the `Enabled` and `Subscription`
/// elements at once (see `lemma_value_queries` for what it holds).
pub proof fn lemma_trigger_in_document(t: Task, docs: Seq<Seq<char>>, i: int)
    requires
        0 <= i < t.triggers@.len(),
        docs.len() == t.triggers@.len(),
    ensures
        ({
            let before = triggers_events(t.triggers@.take(i), docs.take(i));
            let element = trigger_events(t.triggers@[i], docs[i]);
            let at = 2 + before.len() as int;
            &&& task_events(t, docs)[1] == start_of("Triggers"@)
            &&& at + element.len() <= task_events(t, docs).len()
            &&& task_events(t, docs).subrange(at, at + element.len() as int) == element
            &&& match t.triggers@[i] {
                Trigger::EventTrigger { enabled, value_queries, .. } => {
                    &&& element.subrange(0, 7) == seq![start_of("EventTrigger"@)] + text_element(
                        "Enabled"@,
                        bool_text(enabled),
                    ) + text_element("Subscription"@, docs[i])
                    &&& element.subrange(7, element.len() - 1) == value_queries_events(
                        value_queries@,
                    )
                    &&& element[element.len() - 1] == EventModel::End
                },
            }
        }),
{
    let ts = t.triggers@;
    lemma_triggers_prefix(ts, docs, i + 1);
    assert(ts.take(i + 1).drop_last() =~= ts.take(i));
    assert(docs.take(i + 1).take(i) =~= docs.take(i));
    let before = triggers_events(ts.take(i), docs.take(i));
    let element = trigger_events(ts[i], docs[i]);
    let upto = triggers_events(ts.take(i + 1), docs.take(i + 1));
    assert(upto == before + element);
    let all = triggers_events(ts, docs);
    assert(all.subrange(before.len() as int, before.len() + element.len() as int) =~= element) by {
        let b = before.len() as int;
        let e = element.len() as int;
        assert(all.subrange(0, upto.len() as int) == upto);
        assert(all.subrange(b, b + e) =~= all.subrange(0, upto.len() as int).subrange(b, b + e));
        assert(upto.subrange(b, b + e) =~= element);
    }
    let at = 2 + before.len() as int;
    assert(task_events(t, docs).subrange(at, at + element.len() as int) =~= element) by {
        assert(task_events(t, docs).subrange(2, 2 + all.len() as int) =~= all);
    }
    match ts[i] {
        Trigger::EventTrigger { enabled, value_queries, .. } => {
            assert(element.subrange(0, 7) =~= seq![start_of("EventTrigger"@)] + text_element(
                "Enabled"@,
                bool_text(enabled),
            ) + text_element("Subscription"@, docs[i]));
            assert(element.subrange(7, element.len() - 1) =~= value_queries_events(
                value_queries@,
            ));
        },
    }
}

/// Two values with the same texts.
pub open spec fn same_value(a: Value, b: Value) -> bool {
    a.name@ == b.name@ && a.value@ == b.value@
}

/// Two subscriptions with the same log, source and event id.
pub open spec fn same_subscription(a: Subscription, b: Subscription) -> bool {
    a.log@ == b.log@ && a.source@ == b.source@ && a.event_id == b.event_id
}

/// Two triggers with the same field values.
pub open spec fn same_trigger(a: Trigger, b: Trigger) -> bool {
    match (a, b) {
        (
            Trigger::EventTrigger { enabled: e1, subscription: s1, value_queries: v1 },
            Trigger::EventTrigger { enabled: e2, subscription: s2, value_queries: v2 },
        ) => {
            &&& e1 == e2
            &&& same_subscription(s1, s2)
            &&& v1@.len() == v2@.len()
            &&& forall|i: int| 0 <= i < v1@.len() ==> same_value(#[trigger] v1@[i], v2@[i])
        },
    }
}

/// Two actions with the same field values.
pub open spec fn same_action(a: Action, b: Action) -> bool {
    match (a, b) {
        (
            Action::Exec { command: c1, arguments: a1 },
            Action::Exec { command: c2, arguments: a2 },
        ) => c1@ == c2@ && match (a1, a2) {
            (None, None) => true,
            (Some(x), Some(y)) => x@ == y@,
            _ => false,
        },
    }
}

/// Two settings with the same field values.
pub open spec fn same_settings(a: Settings, b: Settings) -> bool {
    &&& a.multiple_instances_policy == b.multiple_instances_policy
    &&& a.disallow_start_if_on_batteries == b.disallow_start_if_on_batteries
    &&& a.stop_if_going_on_batteries == b.stop_if_going_on_batteries
    &&& a.allow_hard_terminate == b.allow_hard_terminate
    &&& a.start_when_available == b.start_when_available
    &&& a.run_only_if_network_available == b.run_only_if_network_available
    &&& a.idle_settings == b.idle_settings
    &&& a.allow_start_on_demand == b.allow_start_on_demand
    &&& a.enabled == b.enabled
    &&& a.hidden == b.hidden
    &&& a.run_only_if_idle == b.run_only_if_idle
    &&& a.wake_to_run == b.wake_to_run
    &&& a.execution_time_limit@ == b.execution_time_limit@
    &&& a.priority == b.priority
}

/// Two tasks with the same field values, however they were built.
pub open spec fn same_task(a: Task, b: Task) -> bool {
    &&& a.version == b.version
    &&& a.triggers@.len() == b.triggers@.len()
    &&& forall|i: int|
        0 <= i < a.triggers@.len() ==> same_trigger(#[trigger] a.triggers@[i], b.triggers@[i])
    &&& a.actions@.len() == b.actions@.len()
    &&& forall|i: int|
        0 <= i < a.actions@.len() ==> same_action(#[trigger] a.actions@[i], b.actions@[i])
    &&& same_settings(a.settings, b.settings)
}

proof fn lemma_same_values_events(a: Seq<Value>, b: Seq<Value>)
    requires
        a.len() == b.len(),
        forall|i: int| 0 <= i < a.len() ==> same_value(#[trigger] a[i], b[i]),
    ensures
        values_events(a) == values_events(b),
    decreases a.len(),
{
    if a.len() > 0 {
        lemma_same_values_events(a.drop_last(), b.drop_last());
        assert(same_value(a[a.len() - 1], b[b.len() - 1]));
    }
}

proof fn lemma_same_triggers_events(a: Seq<Trigger>, b: Seq<Trigger>, docs: Seq<Seq<char>>)
    requires
        a.len() == b.len(),
        forall|i: int| 0 <= i < a.len() ==> same_trigger(#[trigger] a[i], b[i]),
    ensures
        triggers_events(a, docs) == triggers_events(b, docs),
    decreases a.len(),
{
    if a.len() > 0 {
        lemma_same_triggers_events(a.drop_last(), b.drop_last(), docs.take(a.len() - 1));
        let (x, y) = (a.last(), b.last());
        assert(same_trigger(a[a.len() - 1], b[b.len() - 1]));
        match (x, y) {
            (
                Trigger::EventTrigger { value_queries: v1, .. },
                Trigger::EventTrigger { value_queries: v2, .. },
            ) => {
                lemma_same_values_events(v1@, v2@);
            },
        }
    }
}

proof fn lemma_same_actions_events(a: Seq<Action>, b: Seq<Action>)
    requires
        a.len() == b.len(),
        forall|i: int| 0 <= i < a.len() ==> same_action(#[trigger] a[i], b[i]),
    ensures
        actions_events(a) == actions_events(b),
    decreases a.len(),
{
    if a.len() > 0 {
        lemma_same_actions_events(a.drop_last(), b.drop_last());
        assert(same_action(a[a.len() - 1], b[b.len() - 1]));
    }
}

/// The document of a task depends on its field values alone: two tasks with
/// the same values, built in any order, have the same document.
pub proof fn lemma_document_determined_by_values(a: Task, b: Task)
    requires
        same_task(a, b),
    ensures
        task_document(a) == task_document(b),
{
    let da = subscription_documents(a.triggers@);
    let db = subscription_documents(b.triggers@);
    assert forall|i: int| 0 <= i < da.len() implies da[i] == db[i] by {
        assert(same_trigger(a.triggers@[i], b.triggers@[i]));
    }
    assert(da =~= db);
    lemma_same_triggers_events(a.triggers@, b.triggers@, da);
    lemma_same_actions_events(a.actions@, b.actions@);
}

} // verus!
